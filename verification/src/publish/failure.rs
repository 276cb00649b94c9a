//! What to do about a publish that failed.
use crate::publish::errors::{PublishError, publish_error_code, publish_error_description};
use crate::publish::run::Run;
use crate::publish::schedule::{
    ControlRequest, Queue, Requester, RunRequest, ScheduleRequest, requester_text,
};
use crate::text::{opt_text, str_eq};
use vstd::prelude::*;

verus! {

/// What follows from a failed publish.
#[derive(Debug)]
pub enum PublishFailureAction {
    /// Run the campaign on the codebase again.
    RescheduleRegular {
        /// Description that replaces that of the failure, if any.
        description: Option<String>,
        /// In whose name the run is requested.
        requester: &'static str,
    },
    /// Run the campaign on the codebase again, from scratch.
    RescheduleRegularRefresh {
        /// Description that replaces that of the failure.
        description: String,
        /// In whose name the run is requested.
        requester: &'static str,
    },
    /// Run the control campaign.
    RescheduleControl {
        /// Description that replaces that of the failure.
        description: String,
        /// Whether to start from scratch.
        refresh: bool,
        /// In whose name the run is requested.
        requester: &'static str,
        /// Revision to run on; the run's main branch revision where there is
        /// none.
        explicit_revision: Option<String>,
    },
    /// Only replace the description of the failure.
    RewriteDescription {
        /// The description.
        description: String,
    },
    /// Nothing.
    NoAction,
}

/// What follows from a failed publish, in terms of text.
pub enum FailureActionView {
    /// See [`PublishFailureAction::RescheduleRegular`].
    RescheduleRegular {
        /// Replacing description.
        description: Option<Seq<char>>,
        /// Requester.
        requester: Seq<char>,
    },
    /// See [`PublishFailureAction::RescheduleRegularRefresh`].
    RescheduleRegularRefresh {
        /// Replacing description.
        description: Seq<char>,
        /// Requester.
        requester: Seq<char>,
    },
    /// See [`PublishFailureAction::RescheduleControl`].
    RescheduleControl {
        /// Replacing description.
        description: Seq<char>,
        /// From scratch.
        refresh: bool,
        /// Requester.
        requester: Seq<char>,
        /// Revision to run on.
        explicit_revision: Option<Seq<char>>,
    },
    /// See [`PublishFailureAction::RewriteDescription`].
    RewriteDescription {
        /// Replacing description.
        description: Seq<char>,
    },
    /// Nothing.
    NoAction,
}

impl View for PublishFailureAction {
    type V = FailureActionView;

    open spec fn view(&self) -> FailureActionView {
        match *self {
            PublishFailureAction::RescheduleRegular { description, requester } =>
                FailureActionView::RescheduleRegular {
                description: opt_text(description),
                requester: requester@,
            },
            PublishFailureAction::RescheduleRegularRefresh { description, requester } =>
                FailureActionView::RescheduleRegularRefresh {
                description: description@,
                requester: requester@,
            },
            PublishFailureAction::RescheduleControl {
                description,
                refresh,
                requester,
                explicit_revision,
            } => FailureActionView::RescheduleControl {
                description: description@,
                refresh,
                requester: requester@,
                explicit_revision: opt_text(explicit_revision),
            },
            PublishFailureAction::RewriteDescription { description } =>
                FailureActionView::RewriteDescription { description: description@ },
            PublishFailureAction::NoAction => FailureActionView::NoAction,
        }
    }
}

/// What follows from a failure with the given code, for a run with the given
/// result, where `unchanged` holds result and revision of the last control run
/// on the same main branch revision.
pub open spec fn failure_action(
    code: Seq<char>,
    run_result_code: Seq<char>,
    unchanged: Option<(Seq<char>, Seq<char>)>,
) -> FailureActionView {
    if code == "merge-conflict"@ {
        FailureActionView::RescheduleRegular {
            description: None,
            requester: "publisher (pre-creation merge conflict)"@,
        }
    } else if code == "diverged-branches"@ {
        FailureActionView::RescheduleRegular {
            description: None,
            requester: "publisher (diverged branches)"@,
        }
    } else if code == "missing-build-diff-self"@ {
        if run_result_code != "success"@ {
            FailureActionView::RewriteDescription {
                description: "Missing build diff; run was not actually successful?"@,
            }
        } else {
            FailureActionView::RescheduleRegularRefresh {
                description: "Missing build artifacts, rescheduling"@,
                requester: "publisher (missing build artifacts - self)"@,
            }
        }
    } else if code == "missing-build-diff-control"@ {
        match unchanged {
            Some((unchanged_code, revision)) => if unchanged_code != "success"@ {
                FailureActionView::RewriteDescription {
                    description: "Missing build diff; last control run failed ("@ + unchanged_code
                        + ")."@,
                }
            } else {
                FailureActionView::RescheduleControl {
                    description:
                        "Missing build diff due to control run, but successful control run exists. Rescheduling."@,
                    refresh: true,
                    requester: "publisher (missing build artifacts - control)"@,
                    explicit_revision: Some(revision),
                }
            },
            None => FailureActionView::RescheduleControl {
                description: "Missing binary diff; requesting control run."@,
                refresh: false,
                requester: "publisher (missing control run for diff)"@,
                explicit_revision: None,
            },
        }
    } else {
        FailureActionView::NoAction
    }
}

/// The text of a pair of strings.
pub open spec fn pair_text(pair: Option<(&str, &str)>) -> Option<(Seq<char>, Seq<char>)> {
    match pair {
        Some((a, b)) => Some((a@, b@)),
        None => None,
    }
}

/// Decides what follows from a failure with the given code.
pub fn classify_publish_failure_action(
    code: &str,
    run_result_code: &str,
    unchanged_run: Option<(&str, &str)>,
) -> (r: PublishFailureAction)
    ensures
        r@ == failure_action(code@, run_result_code@, pair_text(unchanged_run)),
{
    if str_eq(code, "merge-conflict") {
        PublishFailureAction::RescheduleRegular {
            description: None,
            requester: "publisher (pre-creation merge conflict)",
        }
    } else if str_eq(code, "diverged-branches") {
        PublishFailureAction::RescheduleRegular {
            description: None,
            requester: "publisher (diverged branches)",
        }
    } else if str_eq(code, "missing-build-diff-self") {
        if !str_eq(run_result_code, "success") {
            PublishFailureAction::RewriteDescription {
                description: "Missing build diff; run was not actually successful?".to_owned(),
            }
        } else {
            PublishFailureAction::RescheduleRegularRefresh {
                description: "Missing build artifacts, rescheduling".to_owned(),
                requester: "publisher (missing build artifacts - self)",
            }
        }
    } else if str_eq(code, "missing-build-diff-control") {
        match unchanged_run {
            Some((unchanged_code, unchanged_revision)) => if !str_eq(unchanged_code, "success") {
                PublishFailureAction::RewriteDescription {
                    description: "Missing build diff; last control run failed (".to_owned().concat(
                        unchanged_code,
                    ).concat(")."),
                }
            } else {
                PublishFailureAction::RescheduleControl {
                    description:
                        "Missing build diff due to control run, but successful control run exists. Rescheduling.".to_owned(),
                    refresh: true,
                    requester: "publisher (missing build artifacts - control)",
                    explicit_revision: Some(unchanged_revision.to_owned()),
                }
            },
            None => PublishFailureAction::RescheduleControl {
                description: "Missing binary diff; requesting control run.".to_owned(),
                refresh: false,
                requester: "publisher (missing control run for diff)",
                explicit_revision: None,
            },
        }
    } else {
        PublishFailureAction::NoAction
    }
}

/// What to record of a failed publish, and the run to ask for.
#[derive(Debug)]
pub struct FailurePlan {
    /// Code to record.
    pub code: String,
    /// Description to record.
    pub description: String,
    /// Run to ask for, if any.
    pub schedule: Option<ScheduleRequest>,
}

/// The description to record for a failure that is met with `action`.
pub open spec fn recorded_description(
    action: FailureActionView,
    description: Seq<char>,
) -> Seq<char> {
    match action {
        FailureActionView::RescheduleRegular { description: Some(text), requester } => text,
        FailureActionView::RescheduleRegularRefresh { description: text, requester } => text,
        FailureActionView::RescheduleControl {
            description: text,
            refresh,
            requester,
            explicit_revision,
        } => text,
        FailureActionView::RewriteDescription { description: text } => text,
        _ => description,
    }
}

/// The run of a campaign that follows a failed publish of `run`.
pub open spec fn regular_run(
    run: Run,
    bucket: Queue,
    refresh: bool,
    requester: Requester,
) -> ScheduleRequest {
    ScheduleRequest::Regular(
        RunRequest {
            campaign: run.suite,
            codebase: run.codebase,
            bucket,
            change_set: Some(run.change_set),
            refresh,
            requester,
            command: None,
        },
    )
}

/// Whether `schedule` is the run that `action` asks for after a failed publish of
/// `run`. A control run needs a revision: the explicit one, or else that of the
/// main branch.
pub open spec fn asks_for(
    action: FailureActionView,
    run: Run,
    bucket: Queue,
    schedule: Option<ScheduleRequest>,
) -> bool {
    match action {
        FailureActionView::RescheduleRegular { description, requester } => {
            &&& schedule matches Some(ScheduleRequest::Regular(request))
            &&& schedule->0 == regular_run(run, bucket, false, request.requester)
            &&& requester_text(request.requester) == requester
        },
        FailureActionView::RescheduleRegularRefresh { description, requester } => {
            &&& schedule matches Some(ScheduleRequest::Regular(request))
            &&& schedule->0 == regular_run(run, bucket, true, request.requester)
            &&& requester_text(request.requester) == requester
        },
        FailureActionView::RescheduleControl {
            description,
            refresh,
            requester,
            explicit_revision,
        } => {
            let target = if explicit_revision is Some {
                explicit_revision
            } else {
                opt_text(run.main_branch_revision)
            };
            match target {
                None => schedule is None,
                Some(wanted) => {
                    &&& schedule matches Some(ScheduleRequest::Control(request))
                    &&& request.codebase == run.codebase
                    &&& request.main_branch_revision@ == wanted
                    &&& request.bucket == bucket
                    &&& request.refresh == refresh
                    &&& requester_text(request.requester) == requester
                },
            }
        },
        _ => schedule is None,
    }
}

/// Asks for a run of the campaign after a failed publish of `run`.
fn ask_for_run(run: &Run, bucket: Queue, refresh: bool, requester: &str) -> (r: ScheduleRequest)
    ensures
        r matches ScheduleRequest::Regular(request) && r == regular_run(
            *run,
            bucket,
            refresh,
            request.requester,
        ) && requester_text(request.requester) == requester@,
{
    ScheduleRequest::Regular(
        RunRequest {
            campaign: run.suite.clone(),
            codebase: run.codebase.clone(),
            bucket,
            change_set: Some(run.change_set.clone()),
            refresh,
            requester: Requester::Named(requester.to_owned()),
            command: None,
        },
    )
}

/// The codebase and the revision to look for the last control run of, after a
/// failed publish of `run`; nothing where the run has no main branch revision, and
/// so no control run.
pub fn control_run_of(run: &Run) -> (r: Option<(String, String)>)
    ensures
        r == (match run.main_branch_revision {
            Some(revision) => Some((run.codebase, revision)),
            None => None,
        }),
{
    match &run.main_branch_revision {
        Some(revision) => Some((run.codebase.clone(), revision.clone())),
        None => None,
    }
}

/// What to record of the failure `e` of publishing `run`, and the run to ask
/// for, in the given queue. `unchanged_run` holds result and revision of the last
/// control run that [`control_run_of`] asks for, if there is one.
pub fn handle_publish_failure(
    e: &PublishError,
    run: &Run,
    unchanged_run: &Option<(String, String)>,
    bucket: Queue,
) -> (r: FailurePlan)
    ensures
        r.code@ == publish_error_code(*e),
        ({
            let action = failure_action(
                publish_error_code(*e),
                run.result_code@,
                owned_pair_text(*unchanged_run),
            );
            &&& r.description@ == recorded_description(action, publish_error_description(*e))
            &&& asks_for(action, *run, bucket, r.schedule)
        }),
{
    let code = e.code().to_owned();
    let old_description = e.description().to_owned();
    let unchanged: Option<(&str, &str)> = match unchanged_run {
        Some(pair) => Some((pair.0.as_str(), pair.1.as_str())),
        None => None,
    };
    let action = classify_publish_failure_action(
        code.as_str(),
        run.result_code.as_str(),
        unchanged,
    );
    match action {
        PublishFailureAction::NoAction => FailurePlan {
            code,
            description: old_description,
            schedule: None,
        },
        PublishFailureAction::RewriteDescription { description } => FailurePlan {
            code,
            description,
            schedule: None,
        },
        PublishFailureAction::RescheduleRegular { description, requester } => FailurePlan {
            code,
            description: match description {
                Some(text) => text,
                None => old_description,
            },
            schedule: Some(ask_for_run(run, bucket, false, requester)),
        },
        PublishFailureAction::RescheduleRegularRefresh { description, requester } => FailurePlan {
            code,
            description,
            schedule: Some(ask_for_run(run, bucket, true, requester)),
        },
        PublishFailureAction::RescheduleControl {
            description,
            refresh,
            requester,
            explicit_revision,
        } => {
            let target = match explicit_revision {
                Some(revision) => Some(revision),
                None => run.main_branch_revision.clone(),
            };
            FailurePlan {
                code,
                description,
                schedule: match target {
                    Some(main_branch_revision) => Some(
                        ScheduleRequest::Control(
                            ControlRequest {
                                codebase: run.codebase.clone(),
                                main_branch_revision,
                                bucket,
                                refresh,
                                requester: Requester::Named(requester.to_owned()),
                            },
                        ),
                    ),
                    None => None,
                },
            }
        },
    }
}

/// The text of a pair of owned strings.
pub open spec fn owned_pair_text(pair: Option<(String, String)>) -> Option<(Seq<char>, Seq<char>)> {
    match pair {
        Some((a, b)) => Some((a@, b@)),
        None => None,
    }
}

/// Only a failure with a known recovery asks for a run; any other is recorded as
/// it was reported.
pub proof fn lemma_unknown_failure_is_left_alone(
    code: Seq<char>,
    run_result_code: Seq<char>,
    unchanged: Option<(Seq<char>, Seq<char>)>,
    description: Seq<char>,
)
    requires
        code != "merge-conflict"@,
        code != "diverged-branches"@,
        code != "missing-build-diff-self"@,
        code != "missing-build-diff-control"@,
    ensures
        failure_action(code, run_result_code, unchanged) == FailureActionView::NoAction,
        recorded_description(failure_action(code, run_result_code, unchanged), description)
            == description,
{
}

/// The run of a change that no longer applies is done again as it was: the same
/// change to the same codebase, without a refresh; the words for the failure stay.
pub proof fn lemma_conflicts_are_run_again(
    code: Seq<char>,
    run: Run,
    unchanged: Option<(Seq<char>, Seq<char>)>,
    bucket: Queue,
    schedule: Option<ScheduleRequest>,
    description: Seq<char>,
)
    requires
        code == "merge-conflict"@ || code == "diverged-branches"@,
        asks_for(failure_action(code, run.result_code@, unchanged), run, bucket, schedule),
    ensures
        schedule matches Some(ScheduleRequest::Regular(request)) && request.campaign == run.suite
            && request.codebase == run.codebase && request.change_set == Some(run.change_set)
            && request.bucket == bucket && !request.refresh && request.command is None,
        recorded_description(failure_action(code, run.result_code@, unchanged), description)
            == description,
{
}

/// A successful run that lost its build is done again from scratch; one that never
/// succeeded is not done again, and is said not to have.
pub proof fn lemma_lost_builds_are_made_again(
    run: Run,
    unchanged: Option<(Seq<char>, Seq<char>)>,
    bucket: Queue,
    schedule: Option<ScheduleRequest>,
)
    requires
        asks_for(
            failure_action("missing-build-diff-self"@, run.result_code@, unchanged),
            run,
            bucket,
            schedule,
        ),
    ensures
        run.result_code@ == "success"@ ==> {
            &&& schedule matches Some(ScheduleRequest::Regular(request))
            &&& request.campaign == run.suite
            &&& request.codebase == run.codebase
            &&& request.change_set == Some(run.change_set)
            &&& request.bucket == bucket
            &&& request.refresh
        },
        run.result_code@ != "success"@ ==> schedule is None,
        failure_action("missing-build-diff-self"@, run.result_code@, unchanged)
            is RewriteDescription <==> run.result_code@ != "success"@,
{
    lemma_failure_codes_are_apart();
}

/// A control run is asked for where there is none yet, at the revision that the run
/// was made on, or again, at its own revision, where it succeeded but its build is
/// gone; where it failed, nothing is asked for.
pub proof fn lemma_control_runs_are_asked_for(
    run: Run,
    unchanged: Option<(Seq<char>, Seq<char>)>,
    bucket: Queue,
    schedule: Option<ScheduleRequest>,
)
    requires
        asks_for(
            failure_action("missing-build-diff-control"@, run.result_code@, unchanged),
            run,
            bucket,
            schedule,
        ),
    ensures
        unchanged is None && run.main_branch_revision is Some ==> {
            &&& schedule matches Some(ScheduleRequest::Control(request))
            &&& request.codebase == run.codebase
            &&& request.main_branch_revision@ == run.main_branch_revision->0@
            &&& request.bucket == bucket
            &&& !request.refresh
        },
        unchanged is None && run.main_branch_revision is None ==> schedule is None,
        unchanged is Some && (unchanged->0).0 == "success"@ ==> {
            &&& schedule matches Some(ScheduleRequest::Control(request))
            &&& request.codebase == run.codebase
            &&& request.main_branch_revision@ == (unchanged->0).1
            &&& request.bucket == bucket
            &&& request.refresh
        },
        unchanged is Some && (unchanged->0).0 != "success"@ ==> schedule is None,
{
    lemma_failure_codes_are_apart();
}

/// Nothing is scheduled for a failure of which nothing is known.
pub proof fn lemma_unknown_failure_schedules_nothing(
    code: Seq<char>,
    run: Run,
    unchanged: Option<(Seq<char>, Seq<char>)>,
    bucket: Queue,
    schedule: Option<ScheduleRequest>,
)
    requires
        asks_for(failure_action(code, run.result_code@, unchanged), run, bucket, schedule),
        schedule is Some,
    ensures
        code == "merge-conflict"@ || code == "diverged-branches"@ || code
            == "missing-build-diff-self"@ || code == "missing-build-diff-control"@,
{
}

/// The codes of which something is known are different.
proof fn lemma_failure_codes_are_apart()
    ensures
        "merge-conflict"@ != "missing-build-diff-self"@,
        "merge-conflict"@ != "missing-build-diff-control"@,
        "diverged-branches"@ != "missing-build-diff-self"@,
        "diverged-branches"@ != "missing-build-diff-control"@,
        "missing-build-diff-self"@ != "missing-build-diff-control"@,
{
    reveal_strlit("merge-conflict");
    reveal_strlit("diverged-branches");
    reveal_strlit("missing-build-diff-self");
    reveal_strlit("missing-build-diff-control");
    assert("merge-conflict"@.len() == 14 && "diverged-branches"@.len() == 17);
    assert("missing-build-diff-self"@.len() == 23 && "missing-build-diff-control"@.len() == 26);
}

/// What is asked for says why it is asked for.
pub proof fn lemma_request_says_why(
    code: Seq<char>,
    run: Run,
    unchanged: Option<(Seq<char>, Seq<char>)>,
    bucket: Queue,
    schedule: Option<ScheduleRequest>,
)
    requires
        asks_for(failure_action(code, run.result_code@, unchanged), run, bucket, schedule),
        schedule is Some,
    ensures
        ({
            let requester = match schedule->0 {
                ScheduleRequest::Regular(request) => requester_text(request.requester),
                ScheduleRequest::Control(request) => requester_text(request.requester),
            };
            &&& code == "merge-conflict"@ ==> requester
                == "publisher (pre-creation merge conflict)"@
            &&& code == "diverged-branches"@ ==> requester == "publisher (diverged branches)"@
            &&& code == "missing-build-diff-self"@ ==> requester
                == "publisher (missing build artifacts - self)"@
            &&& code == "missing-build-diff-control"@ && unchanged is Some ==> requester
                == "publisher (missing build artifacts - control)"@
            &&& code == "missing-build-diff-control"@ && unchanged is None ==> requester
                == "publisher (missing control run for diff)"@
        }),
{
    lemma_failure_codes_are_apart();
    reveal_strlit("merge-conflict");
    reveal_strlit("diverged-branches");
    assert("merge-conflict"@.len() == 14 && "diverged-branches"@.len() == 17);
}

} // verus!
