//! One publish, carried out by a worker process.
use crate::publish::errors::{
    PublishError, PublishOneError, WorkerInvalidResponse, worker_invalid_response_text,
};
use crate::publish::run::Run;
use crate::publish::types::Mode;
use crate::publish::worker::{PublishCall, PublishOneResult, created_proposal};
use crate::text::{decode_text, texts};
use crate::text_map::{TextMap, holds_pairs, map_of_pairs};
use vstd::prelude::*;
use vstd::utf8::{decode_utf8, valid_utf8};

verus! {

/// What the worker process is asked to do.
#[derive(Debug)]
pub struct PublishOneRequest {
    /// Campaign.
    pub campaign: String,
    /// Branch to publish to.
    pub target_branch_url: String,
    /// Role of the branch to publish.
    pub role: String,
    /// Run that is published.
    pub log_id: String,
    /// Whom to name on a proposal.
    pub reviewers: Option<Vec<String>>,
    /// Revision to publish.
    pub revision_id: String,
    /// Control run to compare with.
    pub unchanged_id: Option<String>,
    /// Whether the binary packages must have been compared.
    pub require_binary_diff: bool,
    /// The differ.
    pub differ_url: String,
    /// Name of the source branch on the forge.
    pub derived_branch_name: String,
    /// Tags and the revisions that they stand for.
    pub tags: Option<TextMap<String>>,
    /// Whether a proposal may be created.
    pub allow_create_proposal: bool,
    /// Repository to publish from.
    pub source_branch_url: String,
    /// Branch to publish from. It is not part of the URL, where a name with a
    /// slash would not survive.
    pub source_branch_name: Option<String>,
    /// What the campaign's command reported, as JSON.
    pub codemod_result: String,
    /// Template for the commit message.
    pub commit_message_template: Option<String>,
    /// Template for the title.
    pub title_template: Option<String>,
    /// Proposal to update.
    pub existing_mp_url: Option<String>,
    /// More values for the templates, as JSON.
    pub extra_context: Option<String>,
    /// How to publish.
    pub mode: Mode,
    /// Command that was run.
    pub command: String,
    /// Where people find us.
    pub external_url: Option<String>,
    /// Owner of the source branch on the forge.
    pub derived_owner: Option<String>,
    /// Whether to have the proposal merged as soon as it can be.
    pub auto_merge: Option<bool>,
}

/// One publish.
#[derive(Debug)]
pub struct PublishOneArgs {
    /// Campaign.
    pub campaign: String,
    /// Codebase.
    pub codebase: String,
    /// Command that was run.
    pub command: String,
    /// Branch to publish to.
    pub target_branch_url: String,
    /// How to publish.
    pub mode: Mode,
    /// Role of the branch to publish.
    pub role: String,
    /// Revision to publish.
    pub revision: String,
    /// Run that is published.
    pub log_id: String,
    /// Control run to compare with.
    pub unchanged_id: String,
    /// Name of the source branch on the forge.
    pub derived_branch_name: String,
    /// Bucket that a new proposal counts towards.
    pub rate_limit_bucket: Option<String>,
    /// Repository to publish from.
    pub local_branch_url: String,
    /// Whether the binary packages must have been compared.
    pub require_binary_diff: bool,
    /// Whether a proposal may be created.
    pub allow_create_proposal: bool,
    /// Whom to name on a proposal.
    pub reviewers: Option<Vec<String>>,
    /// Tags and the revisions that they stand for.
    pub tags: Option<Vec<(String, String)>>,
    /// Template for the commit message.
    pub commit_message_template: Option<String>,
    /// Template for the title.
    pub title_template: Option<String>,
    /// What the campaign's command reported, as JSON.
    pub codemod_result: String,
    /// Proposal to update.
    pub existing_mp_url: Option<String>,
    /// More values for the templates, as JSON.
    pub extra_context: Option<String>,
    /// Owner of the source branch on the forge.
    pub derived_owner: Option<String>,
    /// Whether to have the proposal merged as soon as it can be.
    pub auto_merge: Option<bool>,
}

/// What of a campaign and of the storage of a run a publish needs.
#[derive(Debug)]
pub struct PublishMaterial {
    /// Repository to publish from.
    pub local_branch_url: String,
    /// Tags and the revisions that they stand for.
    pub tags: Option<Vec<(String, String)>>,
    /// Template for the commit message.
    pub commit_message_template: Option<String>,
    /// Template for the title.
    pub title_template: Option<String>,
    /// What the campaign's command reported, as JSON.
    pub codemod_result: String,
}

/// Whether `args` is the publish of a run that `call` asks for.
pub open spec fn is_publish_of(
    args: PublishOneArgs,
    run: Run,
    call: PublishCall,
    material: PublishMaterial,
) -> bool {
    &&& args.unchanged_id@ == (match call.unchanged_id {
        Some(id) => id@,
        None => Seq::empty(),
    })
    &&& args.extra_context matches Some(context) && context@ == "{}"@
    &&& args == (PublishOneArgs {
        campaign: run.suite,
        codebase: run.codebase,
        command: run.command,
        target_branch_url: call.target_branch_url,
        mode: call.mode,
        role: call.role,
        revision: call.revision,
        log_id: run.id,
        unchanged_id: args.unchanged_id,
        derived_branch_name: call.derived_branch_name,
        rate_limit_bucket: call.rate_limit_bucket,
        local_branch_url: material.local_branch_url,
        require_binary_diff: call.require_binary_diff,
        allow_create_proposal: call.allow_create_proposal,
        reviewers: None,
        tags: material.tags,
        commit_message_template: material.commit_message_template,
        title_template: material.title_template,
        codemod_result: material.codemod_result,
        existing_mp_url: call.existing_mp_url,
        extra_context: args.extra_context,
        derived_owner: None,
        auto_merge: None,
    })
}

impl PublishOneArgs {
    /// The publish of a run that `call` asks for.
    pub fn of(run: &Run, call: PublishCall, material: PublishMaterial) -> (r: Self)
        ensures
            is_publish_of(r, *run, call, material),
    {
        PublishOneArgs {
            campaign: run.suite.clone(),
            codebase: run.codebase.clone(),
            command: run.command.clone(),
            target_branch_url: call.target_branch_url,
            mode: call.mode,
            role: call.role,
            revision: call.revision,
            log_id: run.id.clone(),
            unchanged_id: match call.unchanged_id {
                Some(id) => id,
                None => String::new(),
            },
            derived_branch_name: call.derived_branch_name,
            rate_limit_bucket: call.rate_limit_bucket,
            local_branch_url: material.local_branch_url,
            require_binary_diff: call.require_binary_diff,
            allow_create_proposal: call.allow_create_proposal,
            reviewers: None,
            tags: material.tags,
            commit_message_template: material.commit_message_template,
            title_template: material.title_template,
            codemod_result: material.codemod_result,
            existing_mp_url: call.existing_mp_url,
            extra_context: Some("{}".to_owned()),
            derived_owner: None,
            auto_merge: None,
        }
    }
}

/// How publishes are carried out.
#[derive(Debug)]
pub struct PublishWorker {
    /// Where the templates are.
    pub template_env_path: Option<String>,
    /// Where people find us.
    pub external_url: Option<String>,
    /// The differ.
    pub differ_url: String,
    /// Whether events are announced.
    pub announces: bool,
    /// Whether a branch is locked while something is published to it.
    pub locks: bool,
}

/// Whether a list of texts is a copy of another.
pub open spec fn same_texts(a: Option<Vec<String>>, b: Option<Vec<String>>) -> bool {
    match (a, b) {
        (None, None) => true,
        (Some(a), Some(b)) => a@ == b@,
        _ => false,
    }
}

/// A copy of a list of texts.
fn copy_texts(list: &Vec<String>) -> (r: Vec<String>)
    ensures
        r@ == list@,
{
    let mut r: Vec<String> = Vec::new();
    let mut i: usize = 0;
    while i < list.len()
        invariant
            i <= list.len(),
            r@ == list@.take(i as int),
        decreases list.len() - i,
    {
        r.push(list[i].clone());
        assert(list@.take(i + 1) =~= list@.take(i as int).push(list@[i as int]));
        i = i + 1;
    }
    assert(list@.take(i as int) =~= list@);
    r
}

/// Whether a request asks for a publish.
pub open spec fn asks_for(
    request: PublishOneRequest,
    args: PublishOneArgs,
    worker: PublishWorker,
) -> bool {
    &&& request.campaign == args.campaign
    &&& request.command == args.command
    &&& request.codemod_result == args.codemod_result
    &&& request.target_branch_url == args.target_branch_url
    &&& request.source_branch_url == args.local_branch_url
    &&& request.source_branch_name matches Some(name) && name@ == args.campaign@ + "/"@ + args.role@
    &&& request.existing_mp_url == args.existing_mp_url
    &&& request.derived_branch_name == args.derived_branch_name
    &&& request.mode == args.mode
    &&& request.role == args.role
    &&& request.log_id == args.log_id
    &&& request.unchanged_id == Some(args.unchanged_id)
    &&& request.require_binary_diff == args.require_binary_diff
    &&& request.allow_create_proposal == args.allow_create_proposal
    &&& request.external_url == worker.external_url
    &&& request.differ_url == worker.differ_url
    &&& request.revision_id == args.revision
    &&& same_texts(request.reviewers, args.reviewers)
    &&& request.commit_message_template == args.commit_message_template
    &&& request.title_template == args.title_template
    &&& request.extra_context == args.extra_context
    &&& match (request.tags, args.tags) {
        (None, None) => true,
        (Some(map), Some(tags)) => holds_pairs(map, tags@),
        _ => false,
    }
    &&& request.derived_owner == args.derived_owner
    &&& request.auto_merge == args.auto_merge
}

/// How the worker process ended.
#[derive(Clone, Copy, Debug, PartialEq, Eq, Structural)]
pub enum WorkerExit {
    /// Its standard output holds a result.
    Result,
    /// Its standard output holds an error.
    Error,
    /// Its standard error says what went wrong.
    Crash,
}

/// How a worker process with the given exit code ended; a process that a signal
/// ended has none.
pub fn worker_exit(code: Option<i32>) -> (r: WorkerExit)
    ensures
        r == (if code == Some(0i32) {
            WorkerExit::Result
        } else if code == Some(1i32) {
            WorkerExit::Error
        } else {
            WorkerExit::Crash
        }),
{
    match code {
        Some(code) => if code == 0 {
            WorkerExit::Result
        } else if code == 1 {
            WorkerExit::Error
        } else {
            WorkerExit::Crash
        },
        None => WorkerExit::Crash,
    }
}

/// The error for a worker process that crashed with the given output.
pub fn crash_error(output: &Vec<u8>) -> (r: WorkerInvalidResponse)
    ensures
        r matches WorkerInvalidResponse::WorkerError(text) && text@ == (if valid_utf8(output@) {
            decode_utf8(output@)
        } else {
            "Failed to decode error output"@
        }),
{
    match decode_text(output.as_slice()) {
        Some(text) => WorkerInvalidResponse::WorkerError(text),
        None => WorkerInvalidResponse::WorkerError("Failed to decode error output".to_owned()),
    }
}

/// What the worker process answered.
#[derive(Debug)]
pub enum WorkerReply {
    /// Nothing that can be used.
    Invalid(WorkerInvalidResponse),
    /// An error, or why it cannot be read.
    Error(Result<PublishOneError, String>),
    /// A result, or why it cannot be read.
    Result(Result<PublishOneResult, String>),
}

/// Whether an outcome is what an answer comes to.
pub open spec fn is_outcome(
    outcome: Result<PublishOneResult, PublishError>,
    reply: WorkerReply,
) -> bool {
    match reply {
        WorkerReply::Invalid(e) => is_invalid_response(outcome, worker_invalid_response_text(e)),
        WorkerReply::Error(Ok(e)) => outcome == Err::<PublishOneResult, PublishError>(
            PublishError::Failure { code: e.code, description: e.description },
        ),
        WorkerReply::Error(Err(text)) => is_invalid_response(outcome, text@),
        WorkerReply::Result(Ok(result)) => outcome == Ok::<PublishOneResult, PublishError>(result),
        WorkerReply::Result(Err(text)) => is_invalid_response(outcome, text@),
    }
}

/// Whether an outcome says that the worker's answer cannot be used.
pub open spec fn is_invalid_response(
    outcome: Result<PublishOneResult, PublishError>,
    description: Seq<char>,
) -> bool {
    outcome matches Err(e) && e matches PublishError::Failure { code, description: text } && code@
        == "publisher-invalid-response"@ && text@ == description
}

/// The failure of a worker whose answer cannot be used.
fn invalid_response(description: String) -> (r: PublishError)
    ensures
        is_invalid_response(Err(r), description@),
{
    PublishError::Failure { code: "publisher-invalid-response".to_owned(), description }
}

/// What an answer comes to.
pub fn publish_outcome(reply: WorkerReply) -> (r: Result<PublishOneResult, PublishError>)
    ensures
        is_outcome(r, reply),
{
    match reply {
        WorkerReply::Invalid(e) => Err(invalid_response(e.to_text())),
        WorkerReply::Error(Ok(e)) => Err(
            PublishError::Failure { code: e.code, description: e.description },
        ),
        WorkerReply::Error(Err(text)) => Err(invalid_response(text)),
        WorkerReply::Result(Ok(result)) => Ok(result),
        WorkerReply::Result(Err(text)) => Err(invalid_response(text)),
    }
}

/// What is known in the course of a publish.
#[derive(Debug)]
pub struct PublishOne {
    /// Whether the branch is to be locked.
    pub locks: bool,
    /// Whether a new proposal is to be announced.
    pub announces: bool,
    /// Whether a new proposal is to be counted here, and not by whoever asked for
    /// the publish.
    pub counts: bool,
    /// The branch.
    pub target_branch_url: String,
    /// Bucket that a new proposal counts towards.
    pub rate_limit_bucket: Option<String>,
    /// Answer to [`PublishOneStep::Lock`].
    pub locked: Option<bool>,
    /// Whether the worker could be talked to, and what came of it.
    pub worked: Option<(bool, Result<PublishOneResult, PublishError>)>,
    /// Whether the branch was unlocked.
    pub unlocked: bool,
    /// Whether the new proposal was announced.
    pub announced: bool,
    /// Whether the new proposal was counted.
    pub counted: bool,
}

/// What to do next.
#[derive(Debug)]
pub enum PublishOneStep {
    /// Lock the branch.
    Lock,
    /// Have the worker do its work.
    Work,
    /// Unlock the branch.
    Unlock,
    /// Announce the new proposal.
    Announce,
    /// Count the new proposal towards a bucket.
    CountBucket {
        /// The bucket.
        bucket: String,
    },
    /// Nothing: this is what came of it.
    Done(Result<PublishOneResult, PublishError>),
}

/// Whether a publish created a proposal.
pub open spec fn outcome_is_new(outcome: Result<PublishOneResult, PublishError>) -> bool {
    outcome matches Ok(result) && created_proposal(result)
}

/// The next step of a publish.
pub open spec fn publish_one_next(f: PublishOne) -> PublishOneStep {
    if f.locks && f.locked is None {
        PublishOneStep::Lock
    } else if f.locks && f.locked == Some(false) {
        PublishOneStep::Done(Err(PublishError::BranchBusy(f.target_branch_url)))
    } else {
        match f.worked {
            None => PublishOneStep::Work,
            Some((answered, outcome)) => if f.locks && answered && !f.unlocked {
                PublishOneStep::Unlock
            } else if outcome_is_new(outcome) && f.announces && !f.announced {
                PublishOneStep::Announce
            } else if outcome_is_new(outcome) && f.counts && f.rate_limit_bucket is Some
                && !f.counted {
                PublishOneStep::CountBucket { bucket: f.rate_limit_bucket->0 }
            } else {
                PublishOneStep::Done(outcome)
            },
        }
    }
}

impl PublishWorker {
    /// The request for a publish.
    pub fn request(&self, args: &PublishOneArgs) -> (r: PublishOneRequest)
        ensures
            asks_for(r, *args, *self),
    {
        let name = args.campaign.clone().concat("/").concat(args.role.as_str());
        PublishOneRequest {
            campaign: args.campaign.clone(),
            target_branch_url: args.target_branch_url.clone(),
            role: args.role.clone(),
            log_id: args.log_id.clone(),
            reviewers: match &args.reviewers {
                Some(list) => Some(copy_texts(list)),
                None => None,
            },
            revision_id: args.revision.clone(),
            unchanged_id: Some(args.unchanged_id.clone()),
            require_binary_diff: args.require_binary_diff,
            differ_url: self.differ_url.clone(),
            derived_branch_name: args.derived_branch_name.clone(),
            tags: match &args.tags {
                Some(tags) => Some(map_of_pairs(tags)),
                None => None,
            },
            allow_create_proposal: args.allow_create_proposal,
            source_branch_url: args.local_branch_url.clone(),
            source_branch_name: Some(name),
            codemod_result: args.codemod_result.clone(),
            commit_message_template: args.commit_message_template.clone(),
            title_template: args.title_template.clone(),
            existing_mp_url: args.existing_mp_url.clone(),
            extra_context: args.extra_context.clone(),
            mode: args.mode,
            command: args.command.clone(),
            external_url: self.external_url.clone(),
            derived_owner: args.derived_owner.clone(),
            auto_merge: args.auto_merge,
        }
    }

    /// The command line of the worker process.
    pub fn command_line(&self) -> (r: Vec<String>)
        ensures
            texts(r@) == (match self.template_env_path {
                None => seq!["janitor-publish-one"@],
                Some(path) => seq!["janitor-publish-one"@, "--template-env-path="@ + path@],
            }),
    {
        let mut args: Vec<String> = Vec::new();
        args.push("janitor-publish-one".to_owned());
        if let Some(path) = &self.template_env_path {
            args.push("--template-env-path=".to_owned().concat(path.as_str()));
        }
        assert(texts(args@) =~= (match self.template_env_path {
            None => seq!["janitor-publish-one"@],
            Some(path) => seq!["janitor-publish-one"@, "--template-env-path="@ + path@],
        }));
        args
    }

    /// Starts a publish. A new proposal is counted only where there is a limiter to
    /// count it with.
    pub fn publish_one(&self, args: &PublishOneArgs, has_limiter: bool) -> (r: PublishOne)
        ensures
            r == (PublishOne {
                locks: self.locks,
                announces: self.announces,
                counts: has_limiter,
                target_branch_url: args.target_branch_url,
                rate_limit_bucket: args.rate_limit_bucket,
                locked: None,
                worked: None,
                unlocked: false,
                announced: false,
                counted: false,
            }),
    {
        PublishOne {
            locks: self.locks,
            announces: self.announces,
            counts: has_limiter,
            target_branch_url: args.target_branch_url.clone(),
            rate_limit_bucket: args.rate_limit_bucket.clone(),
            locked: None,
            worked: None,
            unlocked: false,
            announced: false,
            counted: false,
        }
    }
}

impl PublishOne {
    /// The name of the lock on the branch.
    pub fn lock_name(&self) -> (r: String)
        ensures
            r@ == "publish:"@ + self.target_branch_url@,
    {
        "publish:".to_owned().concat(self.target_branch_url.as_str())
    }

    /// What to do next.
    pub fn next(&self) -> (r: PublishOneStep)
        ensures
            r == publish_one_next(*self),
    {
        if self.locks {
            match self.locked {
                None => {
                    return PublishOneStep::Lock;
                },
                Some(false) => {
                    return PublishOneStep::Done(
                        Err(PublishError::BranchBusy(self.target_branch_url.clone())),
                    );
                },
                Some(true) => {},
            }
        }
        let (answered, outcome) = match &self.worked {
            None => {
                return PublishOneStep::Work;
            },
            Some(worked) => (worked.0, &worked.1),
        };
        if self.locks && answered && !self.unlocked {
            return PublishOneStep::Unlock;
        }
        match outcome {
            Err(e) => PublishOneStep::Done(Err(e.clone())),
            Ok(result) => {
                let is_new = result.proposal_url.is_some() && match result.is_new {
                    Some(is_new) => is_new,
                    None => false,
                };
                if is_new {
                    if self.announces && !self.announced {
                        return PublishOneStep::Announce;
                    }
                    if let Some(bucket) = &self.rate_limit_bucket {
                        if self.counts && !self.counted {
                            return PublishOneStep::CountBucket { bucket: bucket.clone() };
                        }
                    }
                }
                PublishOneStep::Done(Ok(result.clone()))
            },
        }
    }

    /// Notes down whether the branch could be locked.
    pub fn note_locked(&mut self, locked: bool)
        ensures
            *final(self) == (PublishOne { locked: Some(locked), ..*old(self) }),
    {
        self.locked = Some(locked);
    }

    /// Notes down what the worker answered.
    pub fn note_reply(&mut self, reply: WorkerReply)
        ensures
            final(self).worked matches Some((answered, outcome)) && answered == !(reply is Invalid)
                && is_outcome(outcome, reply),
            *final(self) == (PublishOne { worked: final(self).worked, ..*old(self) }),
    {
        let answered = match &reply {
            WorkerReply::Invalid(_) => false,
            _ => true,
        };
        self.worked = Some((answered, publish_outcome(reply)));
    }

    /// Notes down that the branch was unlocked.
    pub fn note_unlocked(&mut self)
        ensures
            *final(self) == (PublishOne { unlocked: true, ..*old(self) }),
    {
        self.unlocked = true;
    }

    /// Notes down that the new proposal was announced, or that it was tried.
    pub fn note_announced(&mut self)
        ensures
            *final(self) == (PublishOne { announced: true, ..*old(self) }),
    {
        self.announced = true;
    }

    /// Notes down that the new proposal was counted.
    pub fn note_counted(&mut self)
        ensures
            *final(self) == (PublishOne { counted: true, ..*old(self) }),
    {
        self.counted = true;
    }
}

/// Nothing is published to a branch that is to be locked before it is.
pub proof fn lemma_no_work_without_lock(f: PublishOne)
    ensures
        publish_one_next(f) is Work && f.locks ==> f.locked == Some(true),
{
}

/// Only a proposal that this publish created is announced and counted, it is
/// counted only where nobody else does, and what
/// the worker's answer comes to is what the publish ends with.
pub proof fn lemma_only_new_proposals_count(f: PublishOne)
    ensures
        publish_one_next(f) is Announce || publish_one_next(f) is CountBucket ==> f.worked is Some
            && outcome_is_new((f.worked->0).1),
        publish_one_next(f) is CountBucket ==> f.counts && !f.counted,
        publish_one_next(f) matches PublishOneStep::Done(outcome) ==> outcome == (match f.worked {
            Some((_, worked)) if !(f.locks && f.locked == Some(false)) => worked,
            _ => Err(PublishError::BranchBusy(f.target_branch_url)),
        }),
{
}

/// What the worker is asked for is what was called for: the revision of the run that
/// was named, in the mode, under the role and to the target of the call, and a new
/// proposal only where the call allows one.
pub proof fn lemma_worker_is_asked_for_the_call(
    run: Run,
    call: PublishCall,
    material: PublishMaterial,
    args: PublishOneArgs,
    worker: PublishWorker,
    request: PublishOneRequest,
)
    requires
        is_publish_of(args, run, call, material),
        asks_for(request, args, worker),
    ensures
        request.mode == call.mode,
        request.role == call.role,
        request.target_branch_url == call.target_branch_url,
        request.revision_id == call.revision,
        request.derived_branch_name == call.derived_branch_name,
        request.existing_mp_url == call.existing_mp_url,
        request.allow_create_proposal == call.allow_create_proposal,
        request.require_binary_diff == call.require_binary_diff,
        call.unchanged_id is Some ==> request.unchanged_id is Some && request.unchanged_id->0@
            == call.unchanged_id->0@,
        call.unchanged_id is None ==> request.unchanged_id is Some && request.unchanged_id->0@.len()
            == 0,
        request.log_id == run.id,
        request.campaign == run.suite,
        request.command == run.command,
        request.source_branch_url == material.local_branch_url,
        request.source_branch_name is Some,
        request.source_branch_name->0@ == run.suite@ + "/"@ + call.role@,
        request.codemod_result == material.codemod_result,
        request.commit_message_template == material.commit_message_template,
        request.title_template == material.title_template,
        request.tags is Some == material.tags is Some,
        request.tags is Some ==> holds_pairs(request.tags->0, material.tags->0@),
        request.reviewers is None,
        request.derived_owner is None,
        request.auto_merge is None,
        request.extra_context is Some && request.extra_context->0@ == "{}"@,
        request.external_url == worker.external_url,
        request.differ_url == worker.differ_url,
        args.rate_limit_bucket == call.rate_limit_bucket,
        args.codebase == run.codebase,
{
}

/// Only a result that could be read is a success, and it is that result; an error
/// that the worker reported keeps its code and its words; all else is a failure of the
/// worker.
pub proof fn lemma_success_is_what_the_worker_said(
    outcome: Result<PublishOneResult, PublishError>,
    reply: WorkerReply,
)
    requires
        is_outcome(outcome, reply),
    ensures
        outcome is Ok <==> reply is Result && reply->Result_0 is Ok,
        outcome is Ok ==> outcome->Ok_0 == reply->Result_0->Ok_0,
        outcome is Err ==> outcome->Err_0 is Failure,
        reply is Error && reply->Error_0 is Ok ==> outcome->Err_0->code == reply->Error_0->Ok_0.code
            && outcome->Err_0->Failure_description == reply->Error_0->Ok_0.description,
        outcome is Err && !(reply is Error && reply->Error_0 is Ok) ==> outcome->Err_0->code@
            == "publisher-invalid-response"@,
        reply is Error && reply->Error_0 is Err ==> outcome->Err_0->Failure_description@
            == reply->Error_0->Err_0@,
        reply is Result && reply->Result_0 is Err ==> outcome->Err_0->Failure_description@
            == reply->Result_0->Err_0@,
        reply is Invalid ==> outcome->Err_0->Failure_description@ == worker_invalid_response_text(
            reply->Invalid_0,
        ),
{
}

/// Each step of a publish has its cause: the lock is taken first where there are
/// locks, the work is done once, the lock is given back only after an answer, and a
/// proposal is announced and counted only once and only where it is new.
pub proof fn lemma_publish_steps_have_their_cause(f: PublishOne)
    ensures
        publish_one_next(f) is Lock <==> f.locks && f.locked is None,
        publish_one_next(f) is Work <==> (f.locks ==> f.locked == Some(true)) && f.worked is None,
        publish_one_next(f) is Unlock <==> {
            &&& f.locks
            &&& f.locked == Some(true)
            &&& f.worked is Some
            &&& (f.worked->0).0
            &&& !f.unlocked
        },
        publish_one_next(f) is Announce ==> f.announces && !f.announced,
        publish_one_next(f) matches PublishOneStep::CountBucket { bucket } ==> f.rate_limit_bucket
            == Some(bucket) && f.counts && !f.counted,
        publish_one_next(f) is Announce || publish_one_next(f) is CountBucket ==> {
            &&& f.worked is Some
            &&& (f.worked->0).1 is Ok
            &&& (f.worked->0).1->Ok_0.proposal_url is Some
            &&& (f.worked->0).1->Ok_0.is_new == Some(true)
            &&& f.locks && (f.worked->0).0 ==> f.unlocked
        },
{
    if let Some(locked) = f.locked {
        assert(f.locked == Some(true) || f.locked == Some(false)) by {
            assert(locked == true || locked == false);
        }
    }
}

/// A publish is over only when all that follows from its outcome was done.
pub proof fn lemma_publish_ends_when_all_is_done(f: PublishOne)
    requires
        publish_one_next(f) is Done,
        !(f.locks && f.locked == Some(false)),
    ensures
        f.worked is Some,
        publish_one_next(f)->Done_0 == (f.worked->0).1,
        f.locks && (f.worked->0).0 ==> f.unlocked,
        (f.worked->0).1 is Ok && (f.worked->0).1->Ok_0.proposal_url is Some
            && (f.worked->0).1->Ok_0.is_new == Some(true) ==> {
            &&& f.announces ==> f.announced
            &&& f.counts && f.rate_limit_bucket is Some ==> f.counted
        },
{
}

/// A target that somebody else publishes to is left alone.
pub proof fn lemma_busy_target_is_left_alone(f: PublishOne)
    requires
        f.locks,
        f.locked == Some(false),
    ensures
        publish_one_next(f) matches PublishOneStep::Done(outcome) && outcome
            == Err::<PublishOneResult, PublishError>(PublishError::BranchBusy(f.target_branch_url)),
{
}

} // verus!
