//! Deciding whether and how a run is published.
use crate::publish::backoff::{MAX_BACKOFF_HOURS, backoff_hours, calculate_next_try_time};
use crate::publish::errors::PublishError;
use crate::publish::policy::steps::PolicyOrder;
use crate::publish::run::Run;
use crate::publish::schedule::Requester;
use crate::publish::state::UnpublishedBranch;
use crate::publish::types::{Mode, mode_of, mode_text};
use crate::text::{opt_text, str_eq};
use crate::text_map::TextMap;
use crate::time::Timestamp;
use crate::urls::{normal_form, normalize_url, parsed_url};
use vstd::prelude::*;

verus! {

/// Whether a branch is to be pushed, if possible.
pub open spec fn branch_wants_push(branch: UnpublishedBranch) -> bool {
    match branch.publish_mode {
        Some(mode) => mode@ == "push"@ || mode@ == "attempt-push"@,
        None => false,
    }
}

/// Whether one of the branches is to be pushed, if possible.
pub open spec fn wants_push(branches: Seq<UnpublishedBranch>) -> bool {
    exists|i: int| 0 <= i < branches.len() && branch_wants_push(#[trigger] branches[i])
}

/// Whether one of the branches is to be pushed, if possible.
#[must_use]
pub fn wants_push_mode(branches: &[UnpublishedBranch]) -> (r: bool)
    ensures
        r == wants_push(branches@),
{
    let mut i: usize = 0;
    while i < branches.len()
        invariant
            i <= branches.len(),
            forall|j: int| 0 <= j < i ==> !branch_wants_push(#[trigger] branches@[j]),
        decreases branches.len() - i,
    {
        if let Some(mode) = &branches[i].publish_mode {
            if str_eq(mode.as_str(), "push") || str_eq(mode.as_str(), "attempt-push") {
                assert(branch_wants_push(branches@[i as int]));
                return true;
            }
        }
        i = i + 1;
    }
    false
}

/// Whether a run is passed over because nothing may be pushed any more.
#[must_use]
pub fn should_skip_for_push_limit(wants_push: bool, push_limit: Option<usize>) -> (r: bool)
    ensures
        r == (push_limit == Some(0usize) && wants_push),
{
    match push_limit {
        Some(limit) => limit == 0 && wants_push,
        None => false,
    }
}

/// Whether a change set in the given state may be published.
#[must_use]
pub fn change_set_state_allows_publish(state: &str) -> (r: bool)
    ensures
        r == (state@ == "publishing"@ || state@ == "ready"@),
{
    str_eq(state, "publishing") || str_eq(state, "ready")
}

/// How many more proposals a bucket has room for, where both numbers are known.
pub open spec fn remaining_room(current_open: Option<usize>, max_open: Option<usize>) -> Option<int> {
    match (current_open, max_open) {
        (Some(current), Some(max)) => Some(
            if max >= current {
                max - current
            } else {
                0
            },
        ),
        _ => None,
    }
}

/// How many more proposals a bucket has room for, where both numbers are known.
pub fn rate_limit_remaining(current_open: Option<usize>, max_open: Option<usize>) -> (r: Option<
    usize,
>)
    ensures
        match r {
            Some(room) => remaining_room(current_open, max_open) == Some(room as int),
            None => remaining_room(current_open, max_open) is None,
        },
{
    match (current_open, max_open) {
        (Some(current), Some(max)) => Some(max.saturating_sub(current)),
        _ => None,
    }
}

/// Whether a proposal with the given state speaks against another one.
pub open spec fn status_blocks(status: Seq<char>) -> bool {
    status == "rejected"@ || status == "closed"@
}

/// Whether an earlier proposal speaks against another one.
pub open spec fn previous_blocks(statuses: Seq<(String, String)>) -> bool {
    exists|i: int| 0 <= i < statuses.len() && status_blocks((#[trigger] statuses[i]).1@)
}

/// Whether an earlier proposal speaks against another one.
#[must_use]
pub fn previous_mp_blocks_publish(statuses: &[(String, String)]) -> (r: bool)
    ensures
        r == previous_blocks(statuses@),
{
    let mut i: usize = 0;
    while i < statuses.len()
        invariant
            i <= statuses.len(),
            forall|j: int| 0 <= j < i ==> !status_blocks((#[trigger] statuses@[j]).1@),
        decreases statuses.len() - i,
    {
        let status = statuses[i].1.as_str();
        if str_eq(status, "rejected") || str_eq(status, "closed") {
            assert(status_blocks(statuses@[i as int].1@));
            return true;
        }
        i = i + 1;
    }
    false
}

/// The text of the URL to publish to: that of the target branch, or that of the
/// branch that the run worked on where the former is missing or empty.
pub open spec fn target_text(target: Option<Seq<char>>, branch_url: Seq<char>) -> Seq<char> {
    match target {
        Some(url) => if url.len() > 0 {
            url
        } else {
            branch_url
        },
        None => branch_url,
    }
}

/// The text of the URL to publish to.
pub fn resolve_target_branch_url<'a>(target_branch_url: Option<&'a str>, branch_url: &'a str) -> (r:
    &'a str)
    ensures
        r@ == target_text(
            match target_branch_url {
                Some(url) => Some(url@),
                None => None,
            },
            branch_url@,
        ),
{
    match target_branch_url {
        Some(url) => if !url.is_empty() {
            url
        } else {
            branch_url
        },
        None => branch_url,
    }
}

/// Whether a branch that was tried was not published.
pub open spec fn some_failed(modes: Map<Seq<char>, Option<String>>) -> bool {
    exists|role: Seq<char>| #[trigger] modes.dom().contains(role) && modes[role] is None
}

/// Whether the main branch is passed over because another branch was not
/// published.
#[must_use]
pub fn should_skip_main_after_aux_failure(
    role: &str,
    actual_modes: &TextMap<Option<String>>,
) -> (r: bool)
    requires
        actual_modes.wf(),
    ensures
        r == (role@ == "main"@ && some_failed(actual_modes@)),
{
    if !str_eq(role, "main") {
        return false;
    }
    let mut i: usize = 0;
    while i < actual_modes.len()
        invariant
            role@ == "main"@,
            i <= actual_modes.keys().len(),
            actual_modes.wf(),
            forall|j: int|
                0 <= j < i ==> actual_modes@[#[trigger] actual_modes.keys()[j]] is Some,
        decreases actual_modes.keys().len() - i,
    {
        if actual_modes.value_at(i).is_none() {
            assert(actual_modes@.dom().contains(actual_modes.keys()[i as int]));
            return true;
        }
        i = i + 1;
    }
    proof {
        actual_modes.lemma_keys();
        assert forall|role: Seq<char>| #[trigger]
            actual_modes@.dom().contains(role) implies actual_modes@[role] is Some by {
            assert(actual_modes.keys().contains(role));
            let j = choose|j: int|
                0 <= j < actual_modes.keys().len() && actual_modes.keys()[j] == role;
            assert(actual_modes@[actual_modes.keys()[j]] is Some);
        }
    }
    false
}

/// Why a run is not published at all.
#[derive(Clone, Copy, Debug, PartialEq, Eq, Structural)]
pub enum NotConsidered {
    /// It has no revision.
    NoRevision,
    /// Its campaign is not configured.
    NoCampaignConfig,
    /// It was tried too recently.
    ExponentialBackoff,
    /// Nothing may be pushed any more.
    PushLimitReached,
    /// It has no branch URL.
    MissingBranchUrl,
    /// An earlier proposal was turned down.
    RejectedLastMp,
    /// Its branch URL is no URL.
    InvalidBranchUrl,
}

/// The word for a reason.
pub open spec fn not_considered_text(reason: NotConsidered) -> Seq<char> {
    match reason {
        NotConsidered::NoRevision => "no_revision"@,
        NotConsidered::NoCampaignConfig => "no_campaign_config"@,
        NotConsidered::ExponentialBackoff => "exponential_backoff"@,
        NotConsidered::PushLimitReached => "push_limit_reached"@,
        NotConsidered::MissingBranchUrl => "missing_branch_url"@,
        NotConsidered::RejectedLastMp => "rejected_last_mp"@,
        NotConsidered::InvalidBranchUrl => "invalid_branch_url"@,
    }
}

impl NotConsidered {
    /// The word for this reason.
    pub fn as_str(&self) -> (r: &'static str)
        ensures
            r@ == not_considered_text(*self),
    {
        match self {
            NotConsidered::NoRevision => "no_revision",
            NotConsidered::NoCampaignConfig => "no_campaign_config",
            NotConsidered::ExponentialBackoff => "exponential_backoff",
            NotConsidered::PushLimitReached => "push_limit_reached",
            NotConsidered::MissingBranchUrl => "missing_branch_url",
            NotConsidered::RejectedLastMp => "rejected_last_mp",
            NotConsidered::InvalidBranchUrl => "invalid_branch_url",
        }
    }
}

/// The result map for a run that is not published: the reason, under a key that
/// is no role.
pub fn status_only(reason: NotConsidered) -> (r: TextMap<Option<String>>)
    ensures
        r.wf(),
        r.keys() == seq!["__status"@],
        r@["__status"@] matches Some(text) && text@ == not_considered_text(reason),
{
    let mut r = TextMap::new();
    r.insert("__status".to_owned(), Some(reason.as_str().to_owned()));
    assert(r.keys() =~= seq!["__status"@]);
    r
}

/// What becomes of one branch of a run.
#[derive(Clone, Copy, Debug, PartialEq, Eq, Structural)]
pub enum BranchVerdict {
    /// It has no publish mode.
    NoMode,
    /// It is the main branch, and another branch was not published.
    AfterFailedAux,
    /// Its publish mode is unknown.
    UnknownMode,
    /// It is published in this mode.
    Publish(Mode),
}

/// What becomes of a branch after branches were published in the given modes.
pub open spec fn branch_verdict(
    branch: UnpublishedBranch,
    modes: Map<Seq<char>, Option<String>>,
) -> BranchVerdict {
    match branch.publish_mode {
        None => BranchVerdict::NoMode,
        Some(text) => if text@.len() == 0 {
            BranchVerdict::NoMode
        } else if branch.role@ == "main"@ && some_failed(modes) {
            BranchVerdict::AfterFailedAux
        } else {
            match mode_of(text@) {
                None => BranchVerdict::UnknownMode,
                Some(mode) => BranchVerdict::Publish(mode),
            }
        },
    }
}

/// What becomes of a branch after branches were published in the given modes.
pub fn judge_branch(branch: &UnpublishedBranch, modes: &TextMap<Option<String>>) -> (r:
    BranchVerdict)
    requires
        modes.wf(),
    ensures
        r == branch_verdict(*branch, modes@),
{
    match &branch.publish_mode {
        None => BranchVerdict::NoMode,
        Some(text) => {
            if text.as_str().is_empty() {
                return BranchVerdict::NoMode;
            }
            if should_skip_main_after_aux_failure(branch.role.as_str(), modes) {
                return BranchVerdict::AfterFailedAux;
            }
            match Mode::parse(text.as_str()) {
                None => BranchVerdict::UnknownMode,
                Some(mode) => BranchVerdict::Publish(mode),
            }
        },
    }
}

/// What is known in the course of publishing a run.
#[derive(Debug)]
pub struct ConsiderRun {
    /// The run.
    pub run: Run,
    /// Its branches that are not published yet.
    pub branches: Vec<UnpublishedBranch>,
    /// How much more may be pushed, where that is limited.
    pub push_limit: Option<usize>,
    /// Whether its campaign is configured.
    pub campaign_known: bool,
    /// Normal form of the URL to publish to, where that is a URL.
    pub target_url: Option<String>,
    /// Answer to [`ConsiderStep::CountAttempts`]: whether it is too early for
    /// another attempt.
    pub too_early: Option<bool>,
    /// Answer to [`ConsiderStep::LoadPreviousProposals`]: whether one of them
    /// speaks against another one.
    pub previous_blocks: Option<bool>,
    /// How many branches have been dealt with.
    pub position: usize,
    /// The mode in which each branch that was tried was published, if it was.
    pub modes: TextMap<Option<String>>,
}

/// What to find out or to do next.
#[derive(Debug)]
pub enum ConsiderStep {
    /// Count the earlier attempts to publish a revision.
    CountAttempts {
        /// The revision.
        revision: String,
    },
    /// Find the states of earlier proposals.
    LoadPreviousProposals {
        /// The codebase.
        codebase: String,
        /// The campaign.
        campaign: String,
    },
    /// Pass over a branch.
    SkipBranch {
        /// Its position.
        position: usize,
        /// Why.
        verdict: BranchVerdict,
    },
    /// Publish a branch.
    PublishBranch {
        /// Its position.
        position: usize,
        /// Its role.
        role: String,
        /// How to publish it.
        mode: Mode,
        /// Days between two proposals, at least.
        max_frequency_days: Option<i32>,
        /// The repository to publish to.
        target_url: String,
    },
    /// The run is not published.
    NotConsidered(NotConsidered),
    /// Every branch has been dealt with.
    Done,
}

/// The next step of publishing a run.
pub open spec fn consider_next(f: ConsiderRun) -> ConsiderStep {
    if f.run.revision is None {
        ConsiderStep::NotConsidered(NotConsidered::NoRevision)
    } else if !f.campaign_known {
        ConsiderStep::NotConsidered(NotConsidered::NoCampaignConfig)
    } else if f.too_early is None {
        ConsiderStep::CountAttempts { revision: f.run.revision->0 }
    } else if f.too_early->0 {
        ConsiderStep::NotConsidered(NotConsidered::ExponentialBackoff)
    } else if f.push_limit == Some(0usize) && wants_push(f.branches@) {
        ConsiderStep::NotConsidered(NotConsidered::PushLimitReached)
    } else if f.run.branch_url@.len() == 0 {
        ConsiderStep::NotConsidered(NotConsidered::MissingBranchUrl)
    } else if f.previous_blocks is None {
        ConsiderStep::LoadPreviousProposals { codebase: f.run.codebase, campaign: f.run.suite }
    } else if f.previous_blocks->0 {
        ConsiderStep::NotConsidered(NotConsidered::RejectedLastMp)
    } else {
        match f.target_url {
            None => ConsiderStep::NotConsidered(NotConsidered::InvalidBranchUrl),
            Some(target_url) => consider_branch(f, target_url),
        }
    }
}

/// What becomes of the next branch.
pub open spec fn consider_branch(f: ConsiderRun, target_url: String) -> ConsiderStep {
    if f.position < f.branches@.len() {
        let branch = f.branches@[f.position as int];
        match branch_verdict(branch, f.modes@) {
            BranchVerdict::Publish(mode) => ConsiderStep::PublishBranch {
                position: f.position,
                role: branch.role,
                mode,
                max_frequency_days: branch.max_frequency_days,
                target_url,
            },
            verdict => ConsiderStep::SkipBranch { position: f.position, verdict },
        }
    } else {
        ConsiderStep::Done
    }
}

/// The order for the branch that a step publishes, if it does.
pub open spec fn pending_order(
    step: ConsiderStep,
    rate_limit_bucket: String,
    command: String,
    require_binary_diff: bool,
) -> Option<PolicyOrder> {
    match step {
        ConsiderStep::PublishBranch { position, role, mode, max_frequency_days, target_url } => Some(
            PolicyOrder {
                role,
                rate_limit_bucket: Some(rate_limit_bucket),
                target_branch_url: target_url,
                mode,
                max_frequency_days,
                command,
                require_binary_diff,
                force: false,
                requester: Some(Requester::PublishPending),
            },
        ),
        _ => None,
    }
}

/// Whether nothing but its subject is known of the publishing of a run.
pub open spec fn is_consider_start(
    f: ConsiderRun,
    run: Run,
    branches: Vec<UnpublishedBranch>,
    push_limit: Option<usize>,
    campaign_known: bool,
) -> bool {
    &&& f.run == run
    &&& f.branches == branches
    &&& f.push_limit == push_limit
    &&& f.campaign_known == campaign_known
    &&& opt_text(f.target_url) == normal_form(
        parsed_url(target_text(opt_text(run.target_branch_url), run.branch_url@)),
    )
    &&& f.too_early is None
    &&& f.previous_blocks is None
    &&& f.position == 0
    &&& f.modes@ == Map::<Seq<char>, Option<String>>::empty()
}

/// Starts to publish a run.
pub fn consider_publish_run(
    run: Run,
    branches: Vec<UnpublishedBranch>,
    push_limit: Option<usize>,
    campaign_known: bool,
) -> (r: ConsiderRun)
    ensures
        r.modes.wf(),
        r.modes@ == Map::<Seq<char>, Option<String>>::empty(),
        r == (ConsiderRun {
            run,
            branches,
            push_limit,
            campaign_known,
            target_url: r.target_url,
            too_early: None,
            previous_blocks: None,
            position: 0,
            modes: r.modes,
        }),
        opt_text(r.target_url) == normal_form(
            parsed_url(target_text(opt_text(run.target_branch_url), run.branch_url@)),
        ),
        is_consider_start(r, run, branches, push_limit, campaign_known),
{
    let target: Option<&str> = match &run.target_branch_url {
        Some(url) => Some(url.as_str()),
        None => None,
    };
    let text = resolve_target_branch_url(target, run.branch_url.as_str());
    let target_url = normalize_url(text);
    ConsiderRun {
        run,
        branches,
        push_limit,
        campaign_known,
        target_url,
        too_early: None,
        previous_blocks: None,
        position: 0,
        modes: TextMap::new(),
    }
}

impl ConsiderRun {
    /// What to find out or to do next.
    pub fn next(&self) -> (r: ConsiderStep)
        requires
            self.modes.wf(),
        ensures
            r == consider_next(*self),
    {
        let revision = match &self.run.revision {
            None => {
                return ConsiderStep::NotConsidered(NotConsidered::NoRevision);
            },
            Some(revision) => revision,
        };
        if !self.campaign_known {
            return ConsiderStep::NotConsidered(NotConsidered::NoCampaignConfig);
        }
        match self.too_early {
            None => {
                return ConsiderStep::CountAttempts { revision: revision.clone() };
            },
            Some(true) => {
                return ConsiderStep::NotConsidered(NotConsidered::ExponentialBackoff);
            },
            Some(false) => {},
        }
        if should_skip_for_push_limit(
            wants_push_mode(self.branches.as_slice()),
            self.push_limit,
        ) {
            return ConsiderStep::NotConsidered(NotConsidered::PushLimitReached);
        }
        if self.run.branch_url.as_str().is_empty() {
            return ConsiderStep::NotConsidered(NotConsidered::MissingBranchUrl);
        }
        match self.previous_blocks {
            None => {
                return ConsiderStep::LoadPreviousProposals {
                    codebase: self.run.codebase.clone(),
                    campaign: self.run.suite.clone(),
                };
            },
            Some(true) => {
                return ConsiderStep::NotConsidered(NotConsidered::RejectedLastMp);
            },
            Some(false) => {},
        }
        match &self.target_url {
            None => ConsiderStep::NotConsidered(NotConsidered::InvalidBranchUrl),
            Some(target_url) => {
                if self.position >= self.branches.len() {
                    return ConsiderStep::Done;
                }
                let branch = &self.branches[self.position];
                match judge_branch(branch, &self.modes) {
                    BranchVerdict::Publish(mode) => ConsiderStep::PublishBranch {
                        position: self.position,
                        role: branch.role.clone(),
                        mode,
                        max_frequency_days: branch.max_frequency_days,
                        target_url: target_url.clone(),
                    },
                    verdict => ConsiderStep::SkipBranch { position: self.position, verdict },
                }
            },
        }
    }

    /// The order for the branch that is to be published next, if there is one. What
    /// was published before is not published again.
    pub fn order(
        &self,
        rate_limit_bucket: &String,
        command: &String,
        require_binary_diff: bool,
    ) -> (r: Option<PolicyOrder>)
        requires
            self.modes.wf(),
        ensures
            r == pending_order(
                consider_next(*self),
                *rate_limit_bucket,
                *command,
                require_binary_diff,
            ),
    {
        match self.next() {
            ConsiderStep::PublishBranch { role, mode, max_frequency_days, target_url, .. } => Some(
                PolicyOrder {
                    role,
                    rate_limit_bucket: Some(rate_limit_bucket.clone()),
                    target_branch_url: target_url,
                    mode,
                    max_frequency_days,
                    command: command.clone(),
                    require_binary_diff,
                    force: false,
                    requester: Some(Requester::PublishPending),
                },
            ),
            _ => None,
        }
    }

    /// Notes down how often the revision was tried before, at the time `now`.
    pub fn note_attempts(&mut self, attempt_count: usize, now: Timestamp)
        requires
            old(self).run.finish_time.secs + MAX_BACKOFF_HOURS * 3600 <= i64::MAX,
        ensures
            *final(self) == (ConsiderRun {
                too_early: Some(
                    now@ < old(self).run.finish_time@ + backoff_hours(attempt_count as nat)
                        * 3_600_000_000_000,
                ),
                ..*old(self)
            }),
    {
        let next_try = calculate_next_try_time(self.run.finish_time, attempt_count);
        self.too_early = Some(now.is_before(next_try));
    }

    /// Notes down the states of earlier proposals.
    pub fn note_previous_proposals(&mut self, statuses: &[(String, String)])
        ensures
            *final(self) == (ConsiderRun {
                previous_blocks: Some(previous_blocks(statuses@)),
                ..*old(self)
            }),
    {
        self.previous_blocks = Some(previous_mp_blocks_publish(statuses));
    }

    /// Notes down that the next branch was passed over.
    pub fn note_skipped(&mut self)
        requires
            old(self).position < old(self).branches.len(),
        ensures
            *final(self) == (ConsiderRun {
                position: (old(self).position + 1) as usize,
                ..*old(self)
            }),
    {
        self.position = self.position + 1;
    }

    /// Notes down in which mode the next branch was published, if it was.
    pub fn note_published(&mut self, mode: Option<Mode>)
        requires
            old(self).modes.wf(),
            old(self).position < old(self).branches.len(),
        ensures
            final(self).modes.wf(),
            *final(self) == (ConsiderRun {
                position: (old(self).position + 1) as usize,
                modes: final(self).modes,
                ..*old(self)
            }),
            ({
                let role = old(self).branches@[old(self).position as int].role@;
                &&& final(self).modes@.dom() == old(self).modes@.dom().insert(role)
                &&& final(self).modes@.remove(role) == old(self).modes@.remove(role)
                &&& opt_text(final(self).modes@[role]) == (match mode {
                    Some(mode) => Some(mode_text(mode)),
                    None => None,
                })
            }),
    {
        let role = self.branches[self.position].role.clone();
        let text: Option<String> = match mode {
            Some(mode) => Some(mode.as_str().to_owned()),
            None => None,
        };
        let ghost before = self.modes@;
        self.modes.insert(role, text);
        self.position = self.position + 1;
        assert(self.modes@.remove(role@) =~= before.remove(role@));
    }
}

/// The error for a run of which one branch could not be tried.
pub fn policy_failure(run: &Run, role: &str, error: &str) -> (r: PublishError)
    ensures
        r matches PublishError::ServiceUnavailable(text) && text@
            == "publish_from_policy failed for "@ + run.codebase@ + "/"@ + run.suite@ + "/"@ + role@
            + ": "@ + error@,
{
    PublishError::ServiceUnavailable(
        "publish_from_policy failed for ".to_owned().concat(run.codebase.as_str()).concat(
            "/",
        ).concat(run.suite.as_str()).concat("/").concat(role).concat(": ").concat(error),
    )
}

/// The main branch of a run is never published after another of its branches was
/// tried in vain.
pub proof fn lemma_main_waits_for_the_others(f: ConsiderRun)
    requires
        some_failed(f.modes@),
    ensures
        consider_next(f) matches ConsiderStep::PublishBranch {
            position,
            role,
            mode,
            max_frequency_days,
            target_url,
        } ==> role@ != "main"@,
{
}

/// With nothing left to push, no run is published that has a branch to push.
pub proof fn lemma_push_limit_is_kept(f: ConsiderRun)
    requires
        f.push_limit == Some(0usize),
        wants_push(f.branches@),
    ensures
        !(consider_next(f) is PublishBranch),
{
}

/// A run is published only after it was found not to be too early, and no earlier
/// proposal speaks against it.
pub proof fn lemma_published_only_if_allowed(f: ConsiderRun)
    ensures
        consider_next(f) is PublishBranch ==> f.run.revision is Some && f.campaign_known
            && f.too_early == Some(false) && f.previous_blocks == Some(false),
{
}

/// Publishing a run starts out with all of its branches still to come, and goes to
/// the target branch of the run; to the branch that it worked on where it has none,
/// or an empty one.
pub proof fn lemma_consideration_starts_with_all_branches(
    f: ConsiderRun,
    run: Run,
    branches: Vec<UnpublishedBranch>,
    push_limit: Option<usize>,
    campaign_known: bool,
)
    requires
        is_consider_start(f, run, branches, push_limit, campaign_known),
    ensures
        f.run == run && f.branches == branches,
        f.push_limit == push_limit,
        f.campaign_known == campaign_known,
        f.position == 0 && f.too_early is None && f.previous_blocks is None,
        run.target_branch_url is Some && run.target_branch_url->0@.len() > 0 ==> opt_text(
            f.target_url,
        ) == normal_form(parsed_url(run.target_branch_url->0@)),
        run.target_branch_url is None || run.target_branch_url->0@.len() == 0 ==> opt_text(
            f.target_url,
        ) == normal_form(parsed_url(run.branch_url@)),
        !some_failed(f.modes@),
{
}

/// Whether a mode is the one that a word names.
pub open spec fn names_mode(word: Seq<char>, mode: Mode) -> bool {
    match mode {
        Mode::PushDerived => word == "push-derived"@,
        Mode::Propose => word == "propose"@,
        Mode::Push => word == "push"@,
        Mode::AttemptPush => word == "attempt-push"@,
        Mode::BuildOnly => word == "build-only"@,
        Mode::Skip => word == "skip"@,
    }
}

/// A branch is published in the mode that it is marked with, under its own role, to
/// the target of the run; and the order for it says the same.
pub proof fn lemma_published_in_the_mode_of_the_branch(
    f: ConsiderRun,
    bucket: String,
    command: String,
    require_binary_diff: bool,
)
    ensures
        consider_next(f) matches ConsiderStep::PublishBranch {
            position,
            role,
            mode,
            max_frequency_days,
            target_url,
        } ==> {
            &&& position == f.position
            &&& position < f.branches@.len()
            &&& role == f.branches@[position as int].role
            &&& max_frequency_days == f.branches@[position as int].max_frequency_days
            &&& f.target_url == Some(target_url)
            &&& f.branches@[position as int].publish_mode matches Some(word)
            &&& mode_text(mode) == word@
            &&& names_mode(word@, mode)
            &&& pending_order(consider_next(f), bucket, command, require_binary_diff) matches Some(
                order,
            )
            &&& order.mode == mode
            &&& order.role == role
            &&& order.target_branch_url == target_url
            &&& order.max_frequency_days == max_frequency_days
            &&& order.rate_limit_bucket == Some(bucket)
            &&& order.command == command
            &&& order.require_binary_diff == require_binary_diff
            &&& !order.force
            &&& order.requester == Some(Requester::PublishPending)
        },
        !(consider_next(f) is PublishBranch) ==> pending_order(
            consider_next(f),
            bucket,
            command,
            require_binary_diff,
        ) is None,
{
}

/// Whether nothing speaks against publishing a run.
pub open spec fn is_allowed(f: ConsiderRun) -> bool {
    &&& f.run.revision is Some
    &&& f.campaign_known
    &&& f.too_early == Some(false)
    &&& f.push_limit is None || f.push_limit->0 > 0
    &&& f.run.branch_url@.len() > 0
    &&& f.previous_blocks == Some(false)
    &&& f.target_url is Some
}

/// Each branch of a run that nothing speaks against, and that is marked with a
/// known mode, is published when it is its turn; only the main branch waits for the
/// others.
pub proof fn lemma_allowed_branches_are_published(f: ConsiderRun, mode: Mode)
    requires
        is_allowed(f),
        f.position < f.branches@.len(),
        f.branches@[f.position as int].publish_mode is Some,
        names_mode(f.branches@[f.position as int].publish_mode->0@, mode),
        f.branches@[f.position as int].role@ != "main"@ || forall|role: Seq<char>| #[trigger]
            f.modes@.dom().contains(role) ==> f.modes@[role] is Some,
    ensures
        consider_next(f) is PublishBranch,
{
    crate::publish::types::lemma_mode_round_trip(mode);
    reveal_strlit("push-derived");
    reveal_strlit("propose");
    reveal_strlit("push");
    reveal_strlit("attempt-push");
    reveal_strlit("build-only");
    reveal_strlit("skip");
    assert("push-derived"@.len() == 12 && "attempt-push"@.len() == 12);
    assert("propose"@.len() == 7 && "build-only"@.len() == 10);
    assert("push"@.len() == 4 && "skip"@.len() == 4);
}

/// A run or a branch is passed over only for a cause, and what is asked about it is
/// asked about this run.
pub proof fn lemma_passed_over_only_for_a_cause(f: ConsiderRun)
    ensures
        match consider_next(f) {
            ConsiderStep::CountAttempts { revision } => f.run.revision == Some(revision)
                && f.too_early is None,
            ConsiderStep::LoadPreviousProposals { codebase, campaign } => codebase == f.run.codebase
                && campaign == f.run.suite && f.previous_blocks is None,
            ConsiderStep::NotConsidered(reason) => match reason {
                NotConsidered::NoRevision => f.run.revision is None,
                NotConsidered::NoCampaignConfig => !f.campaign_known,
                NotConsidered::ExponentialBackoff => f.too_early == Some(true),
                NotConsidered::PushLimitReached => f.push_limit == Some(0usize) && exists|i: int|
                    0 <= i < f.branches@.len() && (#[trigger] f.branches@[i]).publish_mode is Some
                        && (f.branches@[i].publish_mode->0@ == "push"@
                        || f.branches@[i].publish_mode->0@ == "attempt-push"@),
                NotConsidered::MissingBranchUrl => f.run.branch_url@.len() == 0,
                NotConsidered::RejectedLastMp => f.previous_blocks == Some(true),
                NotConsidered::InvalidBranchUrl => f.target_url is None,
            },
            ConsiderStep::SkipBranch { position, verdict } => {
                let branch = f.branches@[f.position as int];
                &&& position == f.position
                &&& position < f.branches@.len()
                &&& match verdict {
                    BranchVerdict::NoMode => branch.publish_mode is None
                        || branch.publish_mode->0@.len() == 0,
                    BranchVerdict::AfterFailedAux => branch.role@ == "main"@ && exists|role: Seq<
                        char,
                    >| #[trigger] f.modes@.dom().contains(role) && f.modes@[role] is None,
                    BranchVerdict::UnknownMode => branch.publish_mode is Some && forall|mode: Mode|
                        !(#[trigger] names_mode(branch.publish_mode->0@, mode)),
                    BranchVerdict::Publish(_) => false,
                }
            },
            ConsiderStep::Done => f.position >= f.branches@.len(),
            ConsiderStep::PublishBranch {
                position,
                role,
                mode,
                max_frequency_days,
                target_url,
            } => true,
        },
{
    if consider_next(f) == ConsiderStep::NotConsidered(NotConsidered::PushLimitReached) {
        let i = choose|i: int|
            0 <= i < f.branches@.len() && branch_wants_push(#[trigger] f.branches@[i]);
        assert(f.branches@[i].publish_mode is Some);
    }
}

/// An earlier proposal speaks against another one just where one of them was
/// rejected, or closed without a reason of ours.
pub proof fn lemma_only_turned_down_proposals_block(statuses: Seq<(String, String)>)
    ensures
        previous_blocks(statuses) <==> exists|i: int|
            0 <= i < statuses.len() && ((#[trigger] statuses[i]).1@ == "rejected"@
                || statuses[i].1@ == "closed"@),
{
    if previous_blocks(statuses) {
        let i = choose|i: int|
            0 <= i < statuses.len() && status_blocks((#[trigger] statuses[i]).1@);
        assert(statuses[i].1@ == "rejected"@ || statuses[i].1@ == "closed"@);
    }
    if exists|i: int|
        0 <= i < statuses.len() && ((#[trigger] statuses[i]).1@ == "rejected"@ || statuses[i].1@
            == "closed"@) {
        let i = choose|i: int|
            0 <= i < statuses.len() && ((#[trigger] statuses[i]).1@ == "rejected"@
                || statuses[i].1@ == "closed"@);
        assert(status_blocks(statuses[i].1@));
    }
}

/// The room in a bucket and what is open in it make up its limit, as long as the
/// limit is not exceeded; beyond it there is no room, and where one of the numbers
/// is unknown, so is the room.
pub proof fn lemma_room_fills_up_to_the_limit(open: usize, max: usize)
    ensures
        open <= max ==> remaining_room(Some(open), Some(max))->0 + open == max,
        open > max ==> remaining_room(Some(open), Some(max)) == Some(0int),
        remaining_room(Some(open), Some(max)) is Some,
        remaining_room(None, Some(max)) is None,
        remaining_room(Some(open), None) is None,
{
}

/// One branch that is to be pushed is enough, wherever it stands, and there must be
/// one; a branch is to be pushed where its mode is to push or to try to.
pub proof fn lemma_one_pushed_branch_is_enough(
    first: Seq<UnpublishedBranch>,
    second: Seq<UnpublishedBranch>,
    mode: Mode,
)
    ensures
        wants_push(first + second) <==> wants_push(first) || wants_push(second),
        first.len() == 0 ==> !wants_push(first),
        first.len() == 1 && first[0].publish_mode is None ==> !wants_push(first),
        first.len() == 1 && first[0].publish_mode is Some && names_mode(
            first[0].publish_mode->0@,
            mode,
        ) ==> (wants_push(first) <==> mode == Mode::Push || mode == Mode::AttemptPush),
{
    let both = first + second;
    if wants_push(both) {
        let i = choose|i: int| 0 <= i < both.len() && branch_wants_push(#[trigger] both[i]);
        if i < first.len() {
            assert(branch_wants_push(first[i]));
        } else {
            assert(branch_wants_push(second[i - first.len()]));
        }
    }
    if wants_push(first) {
        let i = choose|i: int| 0 <= i < first.len() && branch_wants_push(#[trigger] first[i]);
        assert(branch_wants_push(both[i]));
    }
    if wants_push(second) {
        let i = choose|i: int| 0 <= i < second.len() && branch_wants_push(#[trigger] second[i]);
        assert(branch_wants_push(both[first.len() + i]));
    }
    if first.len() == 1 {
        assert(wants_push(first) == branch_wants_push(first[0]));
        crate::publish::types::lemma_mode_round_trip(mode);
        crate::publish::types::lemma_mode_round_trip(Mode::Push);
        crate::publish::types::lemma_mode_round_trip(Mode::AttemptPush);
    }
}

} // verus!
