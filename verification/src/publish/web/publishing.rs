//! Publishing the last run of a campaign by hand.
use crate::publish::direct::{
    DirectPublish, direct_target_text, is_direct_start, publish_and_store,
};
use crate::publish::existing::steps::CampaignFacts;
use crate::publish::run::{ResultBranch, Run};
use crate::publish::schedule::Requester;
use crate::publish::types::{Mode, mode_of};
use crate::text::{opt_text, str_eq};
use crate::text_map::{TextMap, holds_pairs, map_of_pairs};
use crate::urls::{normal_form, parsed_url};
use vstd::prelude::*;

verus! {

/// Whether a request may name a mode.
pub open spec fn is_request_mode(mode: Seq<char>) -> bool {
    mode == "push-derived"@ || mode == "push"@ || mode == "propose"@ || mode == "attempt-push"@
}

/// What to do with a role.
#[derive(Debug)]
pub struct RoleOrder {
    /// The role.
    pub role: String,
    /// How to publish it; nothing where it is not published.
    pub mode: Option<Mode>,
}

/// The word for how to publish a role: what the request says, or else what the
/// policy says, or else that it is passed over.
pub open spec fn order_word(
    requested: Option<String>,
    policy: Map<Seq<char>, (String, Option<i32>)>,
    role: Seq<char>,
) -> Seq<char> {
    match requested {
        Some(mode) => mode@,
        None => if policy.dom().contains(role) {
            policy[role].0@
        } else {
            "skip"@
        },
    }
}

/// How to publish a role for which the word is `word`.
pub open spec fn order_mode(word: Seq<char>) -> Option<Mode> {
    if word == "skip"@ || word == "build-only"@ {
        None
    } else {
        mode_of(word)
    }
}

/// The roles to publish: the one that the request names, or else those of all
/// branches of the run.
pub open spec fn order_roles(role: Option<String>, run: Run) -> Seq<String> {
    match role {
        Some(role) => seq![role],
        None => match run.result_branches {
            Some(branches) => branches@.map_values(|branch: ResultBranch| branch.role),
            None => Seq::empty(),
        },
    }
}

/// The roles to publish.
fn roles_to_publish(role: &Option<String>, run: &Run) -> (r: Vec<String>)
    ensures
        r@ == order_roles(*role, *run),
{
    let mut roles: Vec<String> = Vec::new();
    if let Some(role) = role {
        roles.push(role.clone());
        assert(roles@ =~= order_roles(Some(*role), *run));
        return roles;
    }
    match &run.result_branches {
        Some(branches) => {
            let ghost all = branches@.map_values(|branch: ResultBranch| branch.role);
            let mut i: usize = 0;
            while i < branches.len()
                invariant
                    i <= branches.len(),
                    all == branches@.map_values(|branch: ResultBranch| branch.role),
                    roles@ == all.take(i as int),
                decreases branches.len() - i,
            {
                roles.push(branches[i].role.clone());
                assert(all.take(i + 1) =~= all.take(i as int).push(branches@[i as int].role));
                i = i + 1;
            }
            assert(all.take(i as int) =~= all);
        },
        None => {
            assert(roles@ =~= order_roles(*role, *run));
        },
    }
    roles
}

/// What is known in the course of a request.
#[derive(Debug)]
pub struct PublishRequest {
    /// Campaign.
    pub campaign: String,
    /// Codebase.
    pub codebase: String,
    /// Mode that is asked for.
    pub mode: Option<String>,
    /// Role that is asked for.
    pub role: Option<String>,
    /// Whether the database failed.
    pub database_failed: bool,
    /// Answer to [`PublishStep::LoadRun`].
    pub run: Option<Option<Run>>,
    /// Answer to [`PublishStep::LoadPolicy`]: for each role mode and days.
    pub policy: Option<TextMap<(String, Option<i32>)>>,
    /// Whether the publishes were started.
    pub started: bool,
}

/// How a request ended.
#[derive(Debug)]
pub enum PublishEnd {
    /// The mode may not be asked for.
    InvalidMode(String),
    /// There is no run to publish.
    NoRun,
    /// The database failed.
    DatabaseError,
    /// None of the roles is to be published.
    NothingToDo,
    /// The publishes were started.
    Accepted,
}

impl PublishEnd {
    /// The status of the answer.
    pub fn http_status(&self) -> (r: u16)
        ensures
            r == (match *self {
                PublishEnd::InvalidMode(_) => 400u16,
                PublishEnd::NoRun => 400u16,
                PublishEnd::DatabaseError => 500u16,
                PublishEnd::NothingToDo => 200u16,
                PublishEnd::Accepted => 202u16,
            }),
    {
        match self {
            PublishEnd::InvalidMode(_) => 400,
            PublishEnd::NoRun => 400,
            PublishEnd::DatabaseError => 500,
            PublishEnd::NothingToDo => 200,
            PublishEnd::Accepted => 202,
        }
    }
}

/// What to find out or to do next.
#[derive(Debug)]
pub enum PublishStep {
    /// Load the last run that had an effect.
    LoadRun,
    /// Load the publish policy.
    LoadPolicy,
    /// Start a publish for each role.
    Start,
    /// Nothing: this is how it ended.
    Done(PublishEnd),
}

/// Whether none of the roles is to be published.
pub open spec fn nothing_ordered(
    roles: Seq<String>,
    requested: Option<String>,
    policy: Map<Seq<char>, (String, Option<i32>)>,
) -> bool {
    forall|i: int|
        0 <= i < roles.len() ==> order_mode(
            order_word(requested, policy, (#[trigger] roles[i])@),
        ) is None
}

/// The next step of a request.
pub open spec fn publish_next(f: PublishRequest) -> PublishStep {
    if f.mode is Some && !is_request_mode(f.mode->0@) {
        PublishStep::Done(PublishEnd::InvalidMode(f.mode->0))
    } else if f.database_failed {
        PublishStep::Done(PublishEnd::DatabaseError)
    } else {
        match (f.run, f.policy) {
            (None, _) => PublishStep::LoadRun,
            (Some(None), _) => PublishStep::Done(PublishEnd::NoRun),
            (Some(Some(_)), None) => PublishStep::LoadPolicy,
            (Some(Some(run)), Some(policy)) => if nothing_ordered(
                order_roles(f.role, run),
                f.mode,
                policy@,
            ) {
                PublishStep::Done(PublishEnd::NothingToDo)
            } else if !f.started {
                PublishStep::Start
            } else {
                PublishStep::Done(PublishEnd::Accepted)
            },
        }
    }
}

/// Whether orders are those for a run under a policy.
pub open spec fn are_orders(
    orders: Seq<RoleOrder>,
    roles: Seq<String>,
    requested: Option<String>,
    policy: Map<Seq<char>, (String, Option<i32>)>,
) -> bool {
    &&& orders.len() == roles.len()
    &&& forall|i: int|
        0 <= i < roles.len() ==> {
            &&& (#[trigger] orders[i]).role == roles[i]
            &&& orders[i].mode == order_mode(order_word(requested, policy, roles[i]@))
        }
}

/// Whether one of the roles is to be published.
fn any_ordered(orders: &Vec<RoleOrder>) -> (r: bool)
    ensures
        r == exists|i: int| 0 <= i < orders@.len() && (#[trigger] orders@[i]).mode is Some,
{
    let mut i: usize = 0;
    while i < orders.len()
        invariant
            i <= orders.len(),
            forall|j: int| 0 <= j < i ==> (#[trigger] orders@[j]).mode is None,
        decreases orders.len() - i,
    {
        if orders[i].mode.is_some() {
            assert(orders@[i as int].mode is Some);
            return true;
        }
        i = i + 1;
    }
    false
}

impl RoleOrder {
    /// Starts to publish the role of a run, where it is to be published. A
    /// proposal may be created, and the binary packages need not have been
    /// compared.
    pub fn start(
        &self,
        run: Run,
        rate_limit_bucket: Option<String>,
        requester: Option<String>,
        campaign: CampaignFacts,
    ) -> (r: Option<DirectPublish>)
        ensures
            r is Some == self.mode is Some,
            r matches Some(f) ==> f == (DirectPublish {
                run,
                mode: self.mode->0,
                role: self.role,
                rate_limit_bucket,
                allow_create_proposal: Some(true),
                require_binary_diff: false,
                requester: match requester {
                    Some(name) => Some(Requester::Named(name)),
                    None => None,
                },
                campaign,
                base_target: f.base_target,
                role_target: None,
                unchanged_run: None,
                derived_name: None,
                manager_known: None,
                outcome: None,
                stored: false,
                counted: false,
                announced: false,
            }) && opt_text(f.base_target) == normal_form(parsed_url(direct_target_text(run))),
            r matches Some(f) ==> f.requester is Some == requester is Some && is_direct_start(
                f,
                run,
                self.mode->0,
                self.role,
                rate_limit_bucket,
                Some(true),
                false,
                f.requester,
                campaign,
            ),
    {
        let requester = match requester {
            Some(name) => Some(Requester::Named(name)),
            None => None,
        };
        match self.mode {
            Some(mode) => Some(
                publish_and_store(
                    run,
                    mode,
                    self.role.clone(),
                    rate_limit_bucket,
                    Some(true),
                    false,
                    requester,
                    campaign,
                ),
            ),
            None => None,
        }
    }
}

/// Starts a request.
pub fn publish(campaign: String, codebase: String, mode: Option<String>, role: Option<String>) -> (r:
    PublishRequest)
    ensures
        r == (PublishRequest {
            campaign,
            codebase,
            mode,
            role,
            database_failed: false,
            run: None,
            policy: None,
            started: false,
        }),
{
    PublishRequest {
        campaign,
        codebase,
        mode,
        role,
        database_failed: false,
        run: None,
        policy: None,
        started: false,
    }
}

impl PublishRequest {
    /// The policy, once it is known, is one.
    pub open spec fn wf(&self) -> bool {
        self.policy matches Some(policy) ==> policy.wf()
    }

    /// What to find out or to do next.
    pub fn next(&self) -> (r: PublishStep)
        requires
            self.wf(),
        ensures
            r == publish_next(*self),
    {
        if let Some(mode) = &self.mode {
            let word = mode.as_str();
            if !(str_eq(word, "push-derived") || str_eq(word, "push") || str_eq(word, "propose")
                || str_eq(word, "attempt-push")) {
                return PublishStep::Done(PublishEnd::InvalidMode(mode.clone()));
            }
        }
        if self.database_failed {
            return PublishStep::Done(PublishEnd::DatabaseError);
        }
        match &self.run {
            None => {
                return PublishStep::LoadRun;
            },
            Some(None) => {
                return PublishStep::Done(PublishEnd::NoRun);
            },
            Some(Some(_)) => {},
        }
        if self.policy.is_none() {
            return PublishStep::LoadPolicy;
        }
        let orders = self.orders();
        proof {
            let roles = order_roles(self.role, self.run->0->0);
            if !nothing_ordered(roles, self.mode, self.policy->0@) {
                let i = choose|i: int|
                    0 <= i < roles.len() && order_mode(
                        order_word(self.mode, self.policy->0@, (#[trigger] roles[i])@),
                    ) is Some;
                assert(orders@[i].mode is Some);
            } else {
                assert forall|i: int| 0 <= i < orders@.len() implies (
                #[trigger] orders@[i]).mode is None by {
                    assert(order_mode(
                        order_word(self.mode, self.policy->0@, roles[i]@),
                    ) is None);
                }
            }
        }
        if !any_ordered(&orders) {
            PublishStep::Done(PublishEnd::NothingToDo)
        } else if !self.started {
            PublishStep::Start
        } else {
            PublishStep::Done(PublishEnd::Accepted)
        }
    }

    /// What to do with each role.
    pub fn orders(&self) -> (r: Vec<RoleOrder>)
        requires
            self.wf(),
            self.run is Some && self.run->0 is Some,
            self.policy is Some,
        ensures
            are_orders(
                r@,
                order_roles(self.role, self.run->0->0),
                self.mode,
                self.policy->0@,
            ),
    {
        let mut orders: Vec<RoleOrder> = Vec::new();
        if let (Some(Some(run)), Some(policy)) = (&self.run, &self.policy) {
            let roles = roles_to_publish(&self.role, run);
            let mut i: usize = 0;
            while i < roles.len()
                invariant
                    i <= roles.len(),
                    policy.wf(),
                    are_orders(orders@, roles@.take(i as int), self.mode, policy@),
                decreases roles.len() - i,
            {
                let role = &roles[i];
                let word: &str = match &self.mode {
                    Some(mode) => mode.as_str(),
                    None => match policy.get(role.as_str()) {
                        Some(entry) => entry.0.as_str(),
                        None => "skip",
                    },
                };
                let mode = if str_eq(word, "skip") || str_eq(word, "build-only") {
                    None
                } else {
                    Mode::parse(word)
                };
                orders.push(RoleOrder { role: role.clone(), mode });
                i = i + 1;
            }
            assert(roles@.take(i as int) =~= roles@);
        }
        orders
    }

    /// Notes down that the database failed.
    pub fn note_database_error(&mut self)
        ensures
            *final(self) == (PublishRequest { database_failed: true, ..*old(self) }),
    {
        self.database_failed = true;
    }

    /// Notes down the run.
    pub fn note_run(&mut self, run: Option<Run>)
        ensures
            *final(self) == (PublishRequest { run: Some(run), ..*old(self) }),
    {
        self.run = Some(run);
    }

    /// Notes down the policy; an empty one where there is none.
    pub fn note_policy(&mut self, policy: TextMap<(String, Option<i32>)>)
        ensures
            *final(self) == (PublishRequest { policy: Some(policy), ..*old(self) }),
    {
        self.policy = Some(policy);
    }

    /// Notes down that the publishes were started.
    pub fn note_started(&mut self)
        ensures
            *final(self) == (PublishRequest { started: true, ..*old(self) }),
    {
        self.started = true;
    }
}

/// What an answer says about the publishes that were started: the id of each,
/// under its role. Of two for one role it is the later one's.
pub fn publish_ids(ids: &Vec<(String, String)>) -> (r: TextMap<String>)
    ensures
        holds_pairs(r, ids@),
{
    map_of_pairs(ids)
}

/// A request is answered that its publishes were started only where there is one
/// to start, and that there is nothing to do only where there is none.
pub proof fn lemma_accepted_only_if_something_is_published(f: PublishRequest)
    ensures
        publish_next(f) == PublishStep::Done(PublishEnd::Accepted) || publish_next(f) is Start ==> {
            &&& f.run matches Some(Some(run))
            &&& f.policy matches Some(policy)
            &&& exists|i: int|
                0 <= i < order_roles(f.role, run).len() && order_mode(
                    order_word(f.mode, policy@, (#[trigger] order_roles(f.role, run)[i])@),
                ) is Some
        },
        publish_next(f) == PublishStep::Done(PublishEnd::NothingToDo) ==> {
            &&& f.run matches Some(Some(run))
            &&& f.policy matches Some(policy)
            &&& nothing_ordered(order_roles(f.role, run), f.mode, policy@)
        },
{
}

/// A role is never published in a mode that means that it is not: a word for one
/// of these modes has it passed over.
pub proof fn lemma_passed_over_roles_stay(word: Seq<char>)
    ensures
        order_mode(word) != Some(Mode::Skip),
        order_mode(word) != Some(Mode::BuildOnly),
{
}

/// Every role that is to be published gets one order, in the order of the roles: in
/// the mode that was asked for, else in the one that the policy gives for the role;
/// a role without a policy is left alone unless a mode was asked for.
pub proof fn lemma_ordered_as_asked_or_by_policy(
    orders: Seq<RoleOrder>,
    role: Option<String>,
    run: Run,
    requested: Option<String>,
    policy: Map<Seq<char>, (String, Option<i32>)>,
    i: int,
)
    requires
        are_orders(orders, order_roles(role, run), requested, policy),
        0 <= i < orders.len(),
    ensures
        role is Some ==> orders.len() == 1 && orders[i].role == role->0,
        role is None ==> run.result_branches is Some && orders.len()
            == run.result_branches->0@.len() && orders[i].role
            == run.result_branches->0@[i].role,
        orders[i].mode matches Some(mode) ==> {
            &&& mode != Mode::Skip
            &&& mode != Mode::BuildOnly
            &&& requested is Some ==> crate::publish::consider::names_mode(requested->0@, mode)
            &&& requested is None ==> policy.dom().contains(orders[i].role@)
                && crate::publish::consider::names_mode(policy[orders[i].role@].0@, mode)
        },
{
    reveal_strlit("skip");
    assert("skip"@.len() == 4);
    assert(orders[i].role == order_roles(role, run)[i]);
}

/// A role is ordered whenever a mode that publishes something was asked for, or,
/// where none was asked for, whenever its policy gives such a mode.
pub proof fn lemma_publishing_modes_are_ordered(
    orders: Seq<RoleOrder>,
    roles: Seq<String>,
    requested: Option<String>,
    policy: Map<Seq<char>, (String, Option<i32>)>,
    i: int,
    mode: Mode,
)
    requires
        are_orders(orders, roles, requested, policy),
        0 <= i < roles.len(),
        mode != Mode::Skip && mode != Mode::BuildOnly,
        requested is Some ==> crate::publish::consider::names_mode(requested->0@, mode),
        requested is None ==> policy.dom().contains(roles[i]@)
            && crate::publish::consider::names_mode(policy[roles[i]@].0@, mode),
    ensures
        orders.len() == roles.len(),
        orders[i].role == roles[i],
        orders[i].mode == Some(mode),
{
    crate::publish::types::lemma_mode_round_trip(mode);
    crate::publish::types::lemma_mode_round_trip(Mode::Skip);
    crate::publish::types::lemma_mode_round_trip(Mode::BuildOnly);
    assert(orders[i].mode == order_mode(order_word(requested, policy, roles[i]@)));
}

/// A request is refused for its mode only where that is no mode in which something
/// is published.
pub proof fn lemma_only_publishing_modes_can_be_asked_for(f: PublishRequest)
    ensures
        publish_next(f) matches PublishStep::Done(PublishEnd::InvalidMode(word)) ==> f.mode == Some(
            word,
        ) && forall|mode: Mode| #[trigger]
            crate::publish::consider::names_mode(word@, mode) ==> mode == Mode::Skip || mode
                == Mode::BuildOnly,
        f.mode is Some && (forall|mode: Mode| #[trigger]
            crate::publish::consider::names_mode(f.mode->0@, mode) ==> mode == Mode::Skip || mode
                == Mode::BuildOnly) ==> publish_next(f) == PublishStep::Done(
            PublishEnd::InvalidMode(f.mode->0),
        ),
{
    if f.mode is Some {
        let word = f.mode->0@;
        assert(word == "push-derived"@ ==> crate::publish::consider::names_mode(
            word,
            Mode::PushDerived,
        ));
        assert(word == "push"@ ==> crate::publish::consider::names_mode(word, Mode::Push));
        assert(word == "propose"@ ==> crate::publish::consider::names_mode(word, Mode::Propose));
        assert(word == "attempt-push"@ ==> crate::publish::consider::names_mode(
            word,
            Mode::AttemptPush,
        ));
    }
}

/// Each step of a request has its cause: the run and the policy are looked up once,
/// and the publish is started once, before the request is accepted.
pub proof fn lemma_request_steps_have_their_cause(f: PublishRequest)
    ensures
        publish_next(f) is LoadRun ==> f.run is None && !f.database_failed,
        publish_next(f) is LoadPolicy ==> f.run is Some && f.run->0 is Some && f.policy is None
            && !f.database_failed,
        publish_next(f) is Start ==> !f.started,
        publish_next(f) == PublishStep::Done(PublishEnd::Accepted) ==> f.started,
        publish_next(f) == PublishStep::Done(PublishEnd::DatabaseError) ==> f.database_failed,
        publish_next(f) == PublishStep::Done(PublishEnd::NoRun) ==> f.run is Some && f.run->0 is None,
        f.database_failed ==> publish_next(f) is Done && !(publish_next(f) == PublishStep::Done(
            PublishEnd::Accepted,
        )),
{
}

/// There is nothing to do exactly where no role at all is ordered
/// in a mode.
pub proof fn lemma_nothing_to_do_without_an_order(
    orders: Seq<RoleOrder>,
    roles: Seq<String>,
    requested: Option<String>,
    policy: Map<Seq<char>, (String, Option<i32>)>,
)
    requires
        are_orders(orders, roles, requested, policy),
    ensures
        nothing_ordered(roles, requested, policy) <==> forall|i: int|
            0 <= i < orders.len() ==> (#[trigger] orders[i]).mode is None,
{
    if nothing_ordered(roles, requested, policy) {
        assert forall|i: int| 0 <= i < orders.len() implies (
        #[trigger] orders[i]).mode is None by {
            assert(order_mode(order_word(requested, policy, roles[i]@)) is None);
        }
    } else {
        let i = choose|i: int|
            0 <= i < roles.len() && order_mode(
                order_word(requested, policy, (#[trigger] roles[i])@),
            ) is Some;
        assert(orders[i].mode is Some);
    }
}

} // verus!
