//! Bodies of the publisher's HTTP answers.
use crate::text::opt_text;
use crate::time::Timestamp;
use vstd::prelude::*;

verus! {

/// Rate limit information for all rate limits
#[derive(Debug)]
pub struct RateLimitsInfo {
    /// Rate limits organized by bucket name
    pub per_bucket: Vec<(String, BucketRateLimit)>,
    /// Rate limit reset times for each forge
    pub per_forge: Vec<(String, Timestamp)>,
    /// Maximum number of pushes allowed
    pub push_limit: Option<usize>,
}

/// Rate limit information for a specific bucket
#[derive(Debug)]
pub struct BucketRateLimit {
    /// Number of currently open items in this bucket
    pub open: Option<usize>,
    /// Maximum number of open items allowed in this bucket
    pub max_open: Option<usize>,
    /// Number of remaining items that can be opened in this bucket
    pub remaining: Option<usize>,
}

/// Absorbed run information
#[derive(Debug)]
pub struct AbsorbedRun {
    /// Unique identifier of the absorbed run
    pub run_id: String,
    /// URL of the branch that was absorbed
    pub branch_url: String,
    /// VCS revision identifier of the absorbed change
    pub revision: String,
    /// Timestamp when the run was absorbed
    pub absorbed_at: Timestamp,
}

/// Success with ID response
#[derive(Debug)]
pub struct PublishSuccessResponse {
    /// Whether the operation was successful
    pub success: bool,
    /// Identifier of the created or updated resource
    pub id: String,
}

/// Status update response
#[derive(Debug)]
pub struct StatusUpdateResponse {
    /// Current status of the resource
    pub status: String,
    /// Human-readable description of the status
    pub description: String,
}

/// Publish policy
#[derive(Debug)]
pub struct PublishPolicy {
    /// Unique name of the policy
    pub name: String,
    /// Human-readable description of what this policy does
    pub description: Option<String>,
    /// Whether this policy is currently active
    pub enabled: bool,
    /// Priority of this policy (higher values take precedence)
    pub priority: i32,
    /// Conditions, as JSON text, that must be met for this policy to apply
    pub conditions: String,
    /// Actions, as JSON text, to take when conditions are met
    pub actions: String,
}

/// Publish settings update request
#[derive(Debug)]
pub struct PublishSettingsUpdate {
    /// Command to execute for publishing
    pub command: Option<String>,
    /// Whether to include diff in merge proposals
    pub diff: Option<bool>,
    /// Whether binary diffs are required for publishing
    pub require_binary_diff: Option<bool>,
    /// Whom to name on merge proposals
    pub reviewers: Option<Vec<String>>,
    /// Custom tags to apply to published changes
    pub tags: Option<Vec<(String, String)>>,
}

/// Queue item status
#[derive(Debug)]
pub struct QueueItemStatus {
    /// Unique identifier of the queue item
    pub queue_id: i64,
    /// Current status of the queue item
    pub status: String,
    /// Priority of the queue item (higher values processed first)
    pub priority: i32,
    /// Timestamp when the item was added to the queue
    pub created_at: Timestamp,
}

/// Publish result details
#[derive(Debug)]
pub struct PublishResultDetails {
    /// Publishing mode used (e.g., "merge-proposal", "push")
    pub mode: String,
    /// URL of the created merge proposal, if applicable
    pub merge_proposal_url: Option<String>,
    /// Result code indicating success or failure type
    pub result_code: String,
    /// Human-readable description of the result
    pub description: String,
    /// Additional details as JSON text
    pub details: Option<String>,
}

/// Forge status
#[derive(Debug)]
pub struct ForgeStatus {
    /// Name of the forge (e.g., "github", "gitlab")
    pub forge: String,
    /// Current operational status of the forge
    pub status: String,
    /// Whether the forge is currently rate limiting us
    pub rate_limited: bool,
    /// When the rate limit will reset, if rate limited
    pub rate_limit_reset: Option<Timestamp>,
}

/// Run status for publish
#[derive(Debug)]
pub struct RunPublishStatus {
    /// Unique identifier of the run
    pub run_id: String,
    /// Current publish status of the run
    pub status: String,
    /// URL of the merge proposal if one was created
    pub proposal_url: Option<String>,
    /// Timestamp of the last publish attempt
    pub last_attempt: Option<Timestamp>,
}

/// Blocker information
#[derive(Debug)]
pub struct BlockerInfo<T> {
    /// The blocker that is preventing publishing
    pub blocker: T,
    /// Number of items blocked by this blocker
    pub count: i64,
}

/// Simple message response
#[derive(Debug)]
pub struct MessageResponse {
    /// The message content
    pub message: String,
}

/// Campaign blockers
#[derive(Debug)]
pub struct CampaignBlockers {
    /// Name of the campaign
    pub campaign: String,
    /// List of blockers affecting this campaign
    pub blockers: Vec<String>,
    /// Total number of runs blocked for this campaign
    pub total_blocked: i64,
}

/// Publish queue entry
#[derive(Debug)]
pub struct PublishQueueEntry {
    /// Unique identifier of the queue entry
    pub id: i64,
    /// Run identifier this queue entry is for
    pub run_id: String,
    /// Campaign name associated with the run
    pub campaign: String,
    /// Codebase where the change will be published
    pub codebase: String,
    /// Priority of this entry in the queue
    pub priority: i32,
    /// Timestamp when this entry was added to the queue
    pub queued_at: Timestamp,
}

/// Success response with name
#[derive(Debug)]
pub struct SuccessWithNameResponse {
    /// Status message indicating success
    pub status: String,
    /// Name of the created or affected resource
    pub name: String,
}

/// Success response with URL
#[derive(Debug)]
pub struct SuccessWithUrlResponse {
    /// Status message indicating success
    pub status: String,
    /// URL of the created or affected resource
    pub url: String,
}

/// Not found response with reason
#[derive(Debug)]
pub struct NotFoundResponse {
    /// Reason why the resource was not found
    pub reason: String,
    /// Name of the resource that was not found
    pub name: Option<String>,
    /// URL of the resource that was not found
    pub url: Option<String>,
    /// ID of the resource that was not found
    pub id: Option<String>,
    /// Bucket name if relevant to the not found error
    pub bucket: Option<String>,
    /// Run ID if relevant to the not found error
    pub run_id: Option<String>,
    /// Campaign name if relevant to the not found error
    pub campaign: Option<String>,
    /// Codebase name if relevant to the not found error
    pub codebase: Option<String>,
}

/// Conflict response
#[derive(Debug)]
pub struct ConflictResponse {
    /// Reason for the conflict
    pub reason: String,
    /// Name of the conflicting resource
    pub name: Option<String>,
    /// Run ID involved in the conflict
    pub run_id: Option<String>,
    /// Whether the operation can be forced to override the conflict
    pub force_required: Option<bool>,
}

/// Publish dry run response
#[derive(Debug)]
pub struct PublishDryRunResponse {
    /// Status of the dry run operation
    pub status: String,
    /// Run ID that was tested
    pub run_id: String,
    /// Campaign associated with the run
    pub campaign: String,
    /// Codebase where the change would be published
    pub codebase: String,
    /// Whether this run would be published if not a dry run
    pub would_publish: bool,
    /// Publishing mode that would be used
    pub mode: String,
}

/// Publish response
#[derive(Debug)]
pub struct PublishResponse {
    /// Status of the publish operation
    pub status: String,
    /// Run ID that was published
    pub run_id: String,
    /// Campaign associated with the run
    pub campaign: String,
    /// Codebase where the change was published
    pub codebase: String,
    /// Results of each publish action, keyed by branch name
    pub results: Vec<(String, Option<String>)>,
    /// Number of branches that were not published
    pub unpublished_branches_count: usize,
}

/// Publish error response
#[derive(Debug)]
pub struct PublishErrorResponse {
    /// Error message describing what went wrong
    pub error: String,
    /// Run ID that failed to publish
    pub run_id: String,
}

/// Autopublish response
#[derive(Debug)]
pub struct AutopublishResponse {
    /// Number of runs successfully published
    pub published_runs: u32,
    /// Total number of runs processed
    pub processed_runs: u32,
    /// Count of each action type performed during autopublish
    pub actions: Vec<(String, u32)>,
}

/// Simple error response, matching the shape used across janitor services.
#[derive(Debug)]
pub struct ErrorResponse {
    /// Human-readable error message.
    pub error: String,
    /// Optional additional details.
    pub details: Option<String>,
    /// Optional machine-readable error code.
    pub code: Option<String>,
}

impl ErrorResponse {
    /// An error answer with the given message.
    pub fn new(error: String) -> (r: Self)
        ensures
            r == (ErrorResponse { error, details: None, code: None }),
    {
        Self { error, details: None, code: None }
    }

    /// The same answer with the given details.
    pub fn with_details(self, details: String) -> (r: Self)
        ensures
            r == (ErrorResponse { details: Some(details), ..self }),
    {
        Self { error: self.error, details: Some(details), code: self.code }
    }

    /// The same answer with the given code.
    pub fn with_code(self, code: String) -> (r: Self)
        ensures
            r == (ErrorResponse { code: Some(code), ..self }),
    {
        Self { error: self.error, details: self.details, code: Some(code) }
    }

    /// The answer for a failure of our own.
    pub fn internal_server_error() -> (r: Self)
        ensures
            r.error@ == "Internal server error"@,
            r.details is None,
            opt_text(r.code) == Some("internal_error"@),
    {
        Self::new("Internal server error".to_owned()).with_code("internal_error".to_owned())
    }
}

} // verus!
