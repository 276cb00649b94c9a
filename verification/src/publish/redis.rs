//! Messages between the publisher and other services, and what an approved run
//! sets off.
use crate::publish::policy::steps::PolicyOrder;
use crate::publish::run::Run;
use crate::publish::schedule::Requester;
use crate::publish::types::{Mode, mode_of};
use crate::publish::worker::{PublishOneResult, created_proposal};
use crate::text::{opt_text, str_eq};
use crate::text_map::TextMap;
use crate::time::Timestamp;
use crate::urls::{normal_form, normalize_url, parsed_url};
use vstd::prelude::*;

verus! {

/// Something was published, or could not be.
#[derive(Debug)]
pub struct PublishEvent {
    /// Codebase that was published.
    pub codebase: String,
    /// Campaign that was published.
    pub campaign: String,
    /// How.
    pub mode: String,
    /// Code of the result.
    pub result_code: String,
    /// Description of the result.
    pub description: Option<String>,
    /// Merge proposal that came of it.
    pub proposal_url: Option<String>,
    /// Merge proposal that came of it, for people.
    pub proposal_web_url: Option<String>,
    /// Target branch.
    pub target_branch_url: Option<String>,
    /// Source branch.
    pub branch_name: String,
    /// Revision that was published.
    pub revision: Option<String>,
    /// When.
    pub timestamp: Timestamp,
}

impl PublishEvent {
    /// Where such events are announced.
    pub fn channel() -> (r: &'static str)
        ensures
            r@ == "publish"@,
    {
        "publish"
    }
}

/// A merge proposal was created or changed.
#[derive(Debug)]
pub struct MergeProposalEvent {
    /// The proposal.
    pub url: String,
    /// The proposal, for people.
    pub web_url: Option<String>,
    /// Its state.
    pub status: String,
    /// Codebase that it belongs to.
    pub codebase: String,
    /// Campaign that it belongs to.
    pub campaign: String,
    /// Target branch.
    pub target_branch_url: String,
    /// Target branch, for people.
    pub target_branch_web_url: Option<String>,
    /// When.
    pub timestamp: Timestamp,
}

impl MergeProposalEvent {
    /// Where such events are announced.
    pub fn channel() -> (r: &'static str)
        ensures
            r@ == "merge-proposal"@,
    {
        "merge-proposal"
    }

    /// The event for a proposal that a publish created; nothing where it did not
    /// create one.
    pub fn for_new_proposal(
        result: &PublishOneResult,
        codebase: &str,
        campaign: &str,
        timestamp: Timestamp,
    ) -> (r: Option<MergeProposalEvent>)
        ensures
            r is Some == created_proposal(*result),
            r matches Some(event) ==> {
                &&& Some(event.url) == result.proposal_url
                &&& event.web_url == result.proposal_web_url
                &&& event.status@ == "open"@
                &&& event.codebase@ == codebase@
                &&& event.campaign@ == campaign@
                &&& event.target_branch_url == result.target_branch_url
                &&& event.target_branch_web_url == result.target_branch_web_url
                &&& event.timestamp == timestamp
            },
    {
        match (&result.proposal_url, result.is_new) {
            (Some(url), Some(true)) => Some(
                MergeProposalEvent {
                    url: url.clone(),
                    web_url: result.proposal_web_url.clone(),
                    status: "open".to_owned(),
                    codebase: codebase.to_owned(),
                    campaign: campaign.to_owned(),
                    target_branch_url: result.target_branch_url.clone(),
                    target_branch_web_url: result.target_branch_web_url.clone(),
                    timestamp,
                },
            ),
            _ => None,
        }
    }
}

/// The runner says whether a run may be published.
#[derive(Debug)]
pub struct PublishStatusMessage {
    /// The run.
    pub run_id: String,
    /// Whether it may; only `approved` has the publisher act.
    pub publish_status: String,
    /// Codebase of the run.
    pub codebase: String,
    /// Campaign of the run.
    pub campaign: String,
}

impl PublishStatusMessage {
    /// Where such messages are announced.
    pub fn channel() -> (r: &'static str)
        ensures
            r@ == "publish-status"@,
    {
        "publish-status"
    }

    /// Whether the publisher acts on this message.
    pub fn is_approved(&self) -> (r: bool)
        ensures
            r == (self.publish_status@ == "approved"@),
    {
        str_eq(self.publish_status.as_str(), "approved")
    }
}

/// Why an approved run is not published.
#[derive(Clone, Copy, Debug, PartialEq, Eq, Structural)]
pub enum ApprovedEnd {
    /// There was no recent pass over our proposals; the queue will take the run.
    Deferred,
    /// Its codebase is gone.
    NoCodebase,
    /// Its codebase's branch URL is no URL.
    InvalidBranchUrl,
    /// It is gone.
    NoRun,
    /// Its campaign is not configured.
    NoCampaign,
    /// It has no publish policy.
    NoPolicy,
    /// Every role of the policy has been dealt with.
    Done,
}

/// A publish policy, role by role.
#[derive(Debug)]
pub struct RolePolicies {
    /// For each role the mode, as a word, and the days between two proposals.
    pub roles: TextMap<(String, Option<i32>)>,
    /// Command of the campaign on the codebase.
    pub command: Option<String>,
    /// Bucket that proposals count towards.
    pub rate_limit_bucket: Option<String>,
}

/// The last row for a role, if there is one.
pub open spec fn role_row(rows: Seq<(String, String, Option<i32>)>, role: Seq<char>) -> Option<
    (String, Option<i32>),
>
    decreases rows.len(),
{
    if rows.len() == 0 {
        None
    } else if rows.last().0@ == role {
        Some((rows.last().1, rows.last().2))
    } else {
        role_row(rows.drop_last(), role)
    }
}

/// The publish policy that a candidate's row and its policy's rows stand for;
/// nothing where there is no candidate.
pub fn get_publish_policy(
    head: Option<(Option<String>, Option<String>)>,
    rows: &Vec<(String, String, Option<i32>)>,
) -> (r: Option<RolePolicies>)
    ensures
        r is Some == head is Some,
        r matches Some(policy) ==> {
            &&& policy.roles.wf()
            &&& (policy.command, policy.rate_limit_bucket) == head->0
            &&& forall|role: Seq<char>|
                #![trigger policy.roles@.dom().contains(role)]
                #![trigger policy.roles@[role]]
                policy.roles@.dom().contains(role) == role_row(rows@, role) is Some && (
                policy.roles@.dom().contains(role) ==> Some(policy.roles@[role]) == role_row(
                    rows@,
                    role,
                ))
        },
{
    let (command, rate_limit_bucket) = match head {
        Some(head) => head,
        None => {
            return None;
        },
    };
    let mut roles: TextMap<(String, Option<i32>)> = TextMap::new();
    let mut i: usize = 0;
    while i < rows.len()
        invariant
            i <= rows.len(),
            roles.wf(),
            forall|role: Seq<char>|
                #![trigger roles@.dom().contains(role)]
                #![trigger roles@[role]]
                roles@.dom().contains(role) == role_row(rows@.take(i as int), role) is Some && (
                roles@.dom().contains(role) ==> Some(roles@[role]) == role_row(
                    rows@.take(i as int),
                    role,
                )),
        decreases rows.len() - i,
    {
        let row = &rows[i];
        let ghost before = roles@;
        roles.insert(row.0.clone(), (row.1.clone(), row.2));
        proof {
            assert(rows@.take(i + 1).drop_last() =~= rows@.take(i as int));
            assert forall|role: Seq<char>|
                #![trigger roles@.dom().contains(role)]
                #![trigger roles@[role]]
                roles@.dom().contains(role) == role_row(rows@.take(i + 1), role) is Some && (
                roles@.dom().contains(role) ==> Some(roles@[role]) == role_row(
                    rows@.take(i + 1),
                    role,
                )) by {
                assert(before.dom().contains(role) == role_row(
                    rows@.take(i as int),
                    role,
                ) is Some);
            }
        }
        i = i + 1;
    }
    assert(rows@.take(i as int) =~= rows@);
    Some(RolePolicies { roles, command, rate_limit_bucket })
}

/// What is known in the course of publishing an approved run.
#[derive(Debug)]
pub struct ApprovedRun {
    /// What the runner said.
    pub message: PublishStatusMessage,
    /// Whether our proposals were looked at recently.
    pub scan_is_recent: bool,
    /// Answer to [`ApprovedStep::FindBranchUrl`].
    pub branch_url: Option<Option<String>>,
    /// Normal form of that URL, where it is a URL.
    pub target_url: Option<String>,
    /// Answer to [`ApprovedStep::LoadRun`].
    pub run: Option<Option<Run>>,
    /// Answer to [`ApprovedStep::FindCampaign`].
    pub campaign_known: Option<bool>,
    /// Answer to [`ApprovedStep::LoadPolicy`].
    pub policy: Option<Option<RolePolicies>>,
    /// How many roles have been dealt with.
    pub position: usize,
}

/// What to find out or to do next.
#[derive(Debug)]
pub enum ApprovedStep {
    /// Find the branch URL of a codebase.
    FindBranchUrl {
        /// The codebase.
        codebase: String,
    },
    /// Load the run.
    LoadRun {
        /// Its id.
        run_id: String,
    },
    /// See whether a campaign is configured.
    FindCampaign {
        /// The campaign.
        campaign: String,
    },
    /// Load the publish policy.
    LoadPolicy {
        /// Codebase.
        codebase: String,
        /// Campaign.
        campaign: String,
    },
    /// Pass over a role whose mode is unknown.
    SkipRole {
        /// Its position in the policy.
        position: usize,
    },
    /// Publish a role.
    PublishRole {
        /// Its position in the policy.
        position: usize,
        /// How.
        mode: Mode,
        /// Days between two proposals, at least.
        max_frequency_days: Option<i32>,
        /// Where to.
        target_branch_url: String,
    },
    /// Nothing.
    End(ApprovedEnd),
}

/// What becomes of the role at a position.
pub open spec fn approved_role(
    roles: TextMap<(String, Option<i32>)>,
    position: usize,
    target_branch_url: String,
) -> ApprovedStep {
    if position < roles.keys().len() {
        let (mode_text, max_frequency_days) = roles@[roles.keys()[position as int]];
        match mode_of(mode_text@) {
            None => ApprovedStep::SkipRole { position },
            Some(mode) => ApprovedStep::PublishRole {
                position,
                mode,
                max_frequency_days,
                target_branch_url,
            },
        }
    } else {
        ApprovedStep::End(ApprovedEnd::Done)
    }
}

/// The next step of publishing an approved run.
pub open spec fn approved_next(f: ApprovedRun) -> ApprovedStep {
    if !f.scan_is_recent {
        ApprovedStep::End(ApprovedEnd::Deferred)
    } else {
        match (f.branch_url, f.target_url, f.run, f.campaign_known, f.policy) {
            (None, _, _, _, _) => ApprovedStep::FindBranchUrl { codebase: f.message.codebase },
            (Some(None), _, _, _, _) => ApprovedStep::End(ApprovedEnd::NoCodebase),
            (_, None, _, _, _) => ApprovedStep::End(ApprovedEnd::InvalidBranchUrl),
            (_, _, None, _, _) => ApprovedStep::LoadRun { run_id: f.message.run_id },
            (_, _, Some(None), _, _) => ApprovedStep::End(ApprovedEnd::NoRun),
            (_, _, Some(Some(run)), None, _) => ApprovedStep::FindCampaign { campaign: run.suite },
            (_, _, _, Some(false), _) => ApprovedStep::End(ApprovedEnd::NoCampaign),
            (_, _, Some(Some(run)), Some(true), None) => ApprovedStep::LoadPolicy {
                codebase: run.codebase,
                campaign: run.suite,
            },
            (_, _, _, _, Some(None)) => ApprovedStep::End(ApprovedEnd::NoPolicy),
            (_, Some(url), _, _, Some(Some(policy))) => approved_role(
                policy.roles,
                f.position,
                url,
            ),
        }
    }
}

/// Whether `order` is that for the role which an approved run has published next.
pub open spec fn is_approved_order(
    order: PolicyOrder,
    f: ApprovedRun,
    require_binary_diff: bool,
) -> bool {
    &&& approved_next(f) matches ApprovedStep::PublishRole {
        position,
        mode,
        max_frequency_days,
        target_branch_url,
    }
    &&& f.policy matches Some(Some(policy))
    &&& order.role@ == policy.roles.keys()[position as int]
    &&& order.command@ == (match policy.command {
        Some(command) => command@,
        None => Seq::empty(),
    })
    &&& order == (PolicyOrder {
        role: order.role,
        rate_limit_bucket: policy.rate_limit_bucket,
        target_branch_url,
        mode,
        max_frequency_days,
        command: order.command,
        require_binary_diff,
        force: true,
        requester: Some(Requester::Runner),
    })
}

/// Starts to publish an approved run.
pub fn process_approved_run(message: PublishStatusMessage, scan_is_recent: bool) -> (r: ApprovedRun)
    ensures
        r == (ApprovedRun {
            message,
            scan_is_recent,
            branch_url: None,
            target_url: None,
            run: None,
            campaign_known: None,
            policy: None,
            position: 0,
        }),
{
    ApprovedRun {
        message,
        scan_is_recent,
        branch_url: None,
        target_url: None,
        run: None,
        campaign_known: None,
        policy: None,
        position: 0,
    }
}

impl ApprovedRun {
    /// The policy, once it is known, is one.
    pub open spec fn wf(&self) -> bool {
        self.policy matches Some(Some(policy)) ==> policy.roles.wf()
    }

    /// What to find out or to do next.
    pub fn next(&self) -> (r: ApprovedStep)
        requires
            self.wf(),
        ensures
            r == approved_next(*self),
    {
        if !self.scan_is_recent {
            return ApprovedStep::End(ApprovedEnd::Deferred);
        }
        match &self.branch_url {
            None => {
                return ApprovedStep::FindBranchUrl { codebase: self.message.codebase.clone() };
            },
            Some(None) => {
                return ApprovedStep::End(ApprovedEnd::NoCodebase);
            },
            Some(Some(_)) => {},
        }
        let url = match &self.target_url {
            None => {
                return ApprovedStep::End(ApprovedEnd::InvalidBranchUrl);
            },
            Some(url) => url,
        };
        let run = match &self.run {
            None => {
                return ApprovedStep::LoadRun { run_id: self.message.run_id.clone() };
            },
            Some(None) => {
                return ApprovedStep::End(ApprovedEnd::NoRun);
            },
            Some(Some(run)) => run,
        };
        match self.campaign_known {
            None => {
                return ApprovedStep::FindCampaign { campaign: run.suite.clone() };
            },
            Some(false) => {
                return ApprovedStep::End(ApprovedEnd::NoCampaign);
            },
            Some(true) => {},
        }
        let policy = match &self.policy {
            None => {
                return ApprovedStep::LoadPolicy {
                    codebase: run.codebase.clone(),
                    campaign: run.suite.clone(),
                };
            },
            Some(None) => {
                return ApprovedStep::End(ApprovedEnd::NoPolicy);
            },
            Some(Some(policy)) => policy,
        };
        if self.position >= policy.roles.len() {
            return ApprovedStep::End(ApprovedEnd::Done);
        }
        let entry = policy.roles.value_at(self.position);
        match Mode::parse(entry.0.as_str()) {
            None => ApprovedStep::SkipRole { position: self.position },
            Some(mode) => ApprovedStep::PublishRole {
                position: self.position,
                mode,
                max_frequency_days: entry.1,
                target_branch_url: url.clone(),
            },
        }
    }

    /// The order for the role that is to be published next, if there is one. A run
    /// that the runner approved is published though it was published before.
    pub fn order(&self, require_binary_diff: bool) -> (r: Option<PolicyOrder>)
        requires
            self.wf(),
        ensures
            r is Some == approved_next(*self) is PublishRole,
            r matches Some(order) ==> is_approved_order(order, *self, require_binary_diff),
    {
        match (self.next(), &self.policy) {
            (
                ApprovedStep::PublishRole { position, mode, max_frequency_days, target_branch_url },
                Some(Some(policy)),
            ) => Some(
                PolicyOrder {
                    role: policy.roles.key_at(position).clone(),
                    rate_limit_bucket: policy.rate_limit_bucket.clone(),
                    target_branch_url,
                    mode,
                    max_frequency_days,
                    command: match &policy.command {
                        Some(command) => command.clone(),
                        None => String::new(),
                    },
                    require_binary_diff,
                    force: true,
                    requester: Some(Requester::Runner),
                },
            ),
            _ => None,
        }
    }

    /// Notes down the branch URL of the codebase.
    pub fn note_branch_url(&mut self, branch_url: Option<String>)
        ensures
            *final(self) == (ApprovedRun {
                branch_url: Some(branch_url),
                target_url: final(self).target_url,
                ..*old(self)
            }),
            opt_text(final(self).target_url) == (match branch_url {
                Some(url) => normal_form(parsed_url(url@)),
                None => None,
            }),
    {
        self.target_url =
        match &branch_url {
            Some(url) => normalize_url(url.as_str()),
            None => None,
        };
        self.branch_url = Some(branch_url);
    }

    /// Notes down the run.
    pub fn note_run(&mut self, run: Option<Run>)
        ensures
            *final(self) == (ApprovedRun { run: Some(run), ..*old(self) }),
    {
        self.run = Some(run);
    }

    /// Notes down whether the campaign is configured.
    pub fn note_campaign(&mut self, known: bool)
        ensures
            *final(self) == (ApprovedRun { campaign_known: Some(known), ..*old(self) }),
    {
        self.campaign_known = Some(known);
    }

    /// Notes down the publish policy.
    pub fn note_policy(&mut self, policy: Option<RolePolicies>)
        ensures
            *final(self) == (ApprovedRun { policy: Some(policy), ..*old(self) }),
    {
        self.policy = Some(policy);
    }

    /// Notes down that a role has been dealt with. A role that could not be
    /// published does not keep the others from it.
    pub fn note_role_done(&mut self)
        requires
            old(self).position < usize::MAX,
        ensures
            *final(self) == (ApprovedRun {
                position: (old(self).position + 1) as usize,
                ..*old(self)
            }),
    {
        self.position = self.position + 1;
    }
}

/// An approved run is published only after a recent pass over our proposals, and
/// only in a mode that its policy names.
pub proof fn lemma_approved_needs_scan_and_policy(f: ApprovedRun)
    ensures
        approved_next(f) matches ApprovedStep::PublishRole {
            position,
            mode,
            max_frequency_days,
            target_branch_url,
        } ==> {
            &&& f.scan_is_recent
            &&& f.policy matches Some(Some(policy)) && position < policy.roles.keys().len()
                && mode_of(policy.roles@[policy.roles.keys()[position as int]].0@) == Some(mode)
        },
{
}

/// The policy for a role is the last one that was given for it, and there is none
/// only where none was given.
pub proof fn lemma_last_row_of_a_role_holds(
    rows: Seq<(String, String, Option<i32>)>,
    role: Seq<char>,
)
    ensures
        match role_row(rows, role) {
            Some(row) => exists|i: int|
                {
                    &&& 0 <= i < rows.len()
                    &&& (#[trigger] rows[i]).0@ == role
                    &&& row == (rows[i].1, rows[i].2)
                    &&& forall|j: int| i < j < rows.len() ==> (#[trigger] rows[j]).0@ != role
                },
            None => forall|j: int| 0 <= j < rows.len() ==> (#[trigger] rows[j]).0@ != role,
        },
    decreases rows.len(),
{
    if rows.len() > 0 {
        let rest = rows.drop_last();
        let last = rows.len() - 1;
        if rows.last().0@ == role {
            assert(rows[last].0@ == role);
        } else {
            lemma_last_row_of_a_role_holds(rest, role);
            assert forall|j: int| 0 <= j < last implies #[trigger] rows[j] == rest[j] by {}
            if let Some(row) = role_row(rest, role) {
                let i = choose|i: int|
                    {
                        &&& 0 <= i < rest.len()
                        &&& (#[trigger] rest[i]).0@ == role
                        &&& row == (rest[i].1, rest[i].2)
                        &&& forall|j: int| i < j < rest.len() ==> (#[trigger] rest[j]).0@ != role
                    };
                assert(rows[i].0@ == role);
                assert forall|j: int| i < j < rows.len() implies (#[trigger] rows[j]).0@ != role by {
                    if j < last {
                        assert(rest[j].0@ != role);
                    }
                }
            } else {
                assert forall|j: int| 0 <= j < rows.len() implies (
                #[trigger] rows[j]).0@ != role by {
                    if j < last {
                        assert(rest[j].0@ != role);
                    }
                }
            }
        }
    }
}

/// A role of an approved run is published in the mode and with the pause that the
/// policy gives for it, to the branch of the codebase, though the run was published
/// before; the order for it says the same.
pub proof fn lemma_approved_role_is_published_by_policy(
    f: ApprovedRun,
    order: PolicyOrder,
    require_binary_diff: bool,
)
    requires
        is_approved_order(order, f, require_binary_diff),
    ensures
        f.scan_is_recent,
        f.campaign_known == Some(true),
        f.run is Some && f.run->0 is Some,
        f.policy is Some && f.policy->0 is Some,
        f.position < f.policy->0->0.roles.keys().len(),
        order.role@ == f.policy->0->0.roles.keys()[f.position as int],
        crate::publish::consider::names_mode(
            f.policy->0->0.roles@[order.role@].0@,
            order.mode,
        ),
        order.max_frequency_days == f.policy->0->0.roles@[order.role@].1,
        Some(order.target_branch_url) == f.target_url,
        order.rate_limit_bucket == f.policy->0->0.rate_limit_bucket,
        f.policy->0->0.command is Some ==> order.command@ == f.policy->0->0.command->0@,
        f.policy->0->0.command is None ==> order.command@.len() == 0,
        order.require_binary_diff == require_binary_diff,
        order.force,
        order.requester == Some(Requester::Runner),
{
}

/// A role is passed over only where its policy gives no mode.
pub proof fn lemma_approved_roles_are_published(f: ApprovedRun, mode: Mode)
    requires
        f.scan_is_recent,
        f.branch_url is Some && f.branch_url->0 is Some,
        f.target_url is Some,
        f.run is Some && f.run->0 is Some,
        f.campaign_known == Some(true),
        f.policy is Some && f.policy->0 is Some,
        f.position < f.policy->0->0.roles.keys().len(),
        crate::publish::consider::names_mode(
            f.policy->0->0.roles@[f.policy->0->0.roles.keys()[f.position as int]].0@,
            mode,
        ),
    ensures
        approved_next(f) matches ApprovedStep::PublishRole { position, mode: published, .. }
            && position == f.position && published == mode,
{
    crate::publish::types::lemma_mode_round_trip(mode);
}

/// What is looked up for an approved run is about the run that the message names,
/// and each end of the work on it has its cause.
pub proof fn lemma_approved_steps_have_their_cause(f: ApprovedRun)
    ensures
        approved_next(f) == ApprovedStep::End(ApprovedEnd::Deferred) <==> !f.scan_is_recent,
        approved_next(f) matches ApprovedStep::FindBranchUrl { codebase } ==> codebase
            == f.message.codebase && f.branch_url is None,
        approved_next(f) matches ApprovedStep::LoadRun { run_id } ==> run_id == f.message.run_id
            && f.run is None,
        approved_next(f) matches ApprovedStep::FindCampaign { campaign } ==> f.run is Some
            && f.run->0 is Some && campaign == f.run->0->0.suite && f.campaign_known is None,
        approved_next(f) matches ApprovedStep::LoadPolicy { codebase, campaign } ==> f.run is Some
            && f.run->0 is Some && codebase == f.run->0->0.codebase && campaign
            == f.run->0->0.suite && f.campaign_known == Some(true) && f.policy is None,
        approved_next(f) == ApprovedStep::End(ApprovedEnd::NoCodebase) ==> f.branch_url is Some
            && f.branch_url->0 is None,
        approved_next(f) == ApprovedStep::End(ApprovedEnd::InvalidBranchUrl) ==> f.branch_url is Some
            && f.branch_url->0 is Some && f.target_url is None,
        approved_next(f) == ApprovedStep::End(ApprovedEnd::NoRun) ==> f.run is Some
            && f.run->0 is None,
        approved_next(f) == ApprovedStep::End(ApprovedEnd::NoCampaign) ==> f.campaign_known == Some(
            false,
        ),
        approved_next(f) == ApprovedStep::End(ApprovedEnd::NoPolicy) ==> f.policy is Some
            && f.policy->0 is None,
        approved_next(f) == ApprovedStep::End(ApprovedEnd::Done) ==> f.policy is Some
            && f.policy->0 is Some && f.position >= f.policy->0->0.roles.keys().len(),
        approved_next(f) matches ApprovedStep::SkipRole { position } ==> position == f.position
            && f.policy is Some && f.policy->0 is Some && forall|mode: Mode|
            !#[trigger] crate::publish::consider::names_mode(
                f.policy->0->0.roles@[f.policy->0->0.roles.keys()[position as int]].0@,
                mode,
            ),
{
    assert forall|word: Seq<char>, mode: Mode| #[trigger]
        crate::publish::consider::names_mode(word, mode) implies mode_of(word) is Some by {
        crate::publish::types::lemma_mode_round_trip(mode);
    }
}

} // verus!
