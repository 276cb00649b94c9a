//! Publish policies, as others read and write them.
use crate::text::{joined, opt_text, str_eq, texts};
use crate::text_map::TextMap;
use vstd::prelude::*;

verus! {

/// How the branch of a role is published.
#[derive(Debug)]
pub struct PerBranchPolicy {
    /// Mode, as a word.
    pub mode: String,
    /// Days between two attempts, at least.
    pub max_frequency_days: Option<i32>,
}

/// A publish policy.
#[derive(Debug)]
pub struct PolicyDocument {
    /// Bucket that proposals count towards.
    pub rate_limit_bucket: Option<String>,
    /// How each role is published.
    pub per_branch: TextMap<PerBranchPolicy>,
}

impl Default for PolicyDocument {
    fn default() -> (r: Self)
        ensures
            r.per_branch.wf(),
            r.rate_limit_bucket is None,
            r.per_branch@ == Map::<Seq<char>, PerBranchPolicy>::empty(),
            r.per_branch.keys() == Seq::<Seq<char>>::empty(),
    {
        PolicyDocument { rate_limit_bucket: None, per_branch: TextMap::new() }
    }
}

/// Whether three lists hold roles, and the modes and days of these roles in the
/// same order.
pub open spec fn are_parallel(
    roles: Seq<String>,
    modes: Seq<String>,
    days: Seq<Option<i32>>,
    entries: Map<Seq<char>, PerBranchPolicy>,
) -> bool {
    &&& modes.len() == roles.len()
    &&& days.len() == roles.len()
    &&& forall|i: int|
        #![trigger modes[i]]
        #![trigger days[i]]
        0 <= i < roles.len() ==> modes[i] == entries[roles[i]@].mode && days[i]
            == entries[roles[i]@].max_frequency_days
}

/// The entries of a policy as three lists of the same length: roles, modes and
/// days.
pub fn project_per_branch_policy(document: &PolicyDocument) -> (r: (
    Vec<String>,
    Vec<String>,
    Vec<Option<i32>>,
))
    requires
        document.per_branch.wf(),
    ensures
        texts(r.0@) == document.per_branch.keys(),
        are_parallel(r.0@, r.1@, r.2@, document.per_branch@),
{
    let mut roles: Vec<String> = Vec::new();
    let mut modes: Vec<String> = Vec::new();
    let mut days: Vec<Option<i32>> = Vec::new();
    let entries = &document.per_branch;
    let len: usize = entries.len();
    let mut i: usize = 0;
    while i < len
        invariant
            i <= len == entries.keys().len(),
            entries.wf(),
            *entries == document.per_branch,
            roles@.len() == i,
            forall|j: int| 0 <= j < i ==> (#[trigger] roles@[j])@ == entries.keys()[j],
            are_parallel(roles@, modes@, days@, entries@),
        decreases len - i,
    {
        let entry = entries.value_at(i);
        roles.push(entries.key_at(i).clone());
        modes.push(entry.mode.clone());
        days.push(entry.max_frequency_days);
        i = i + 1;
    }
    assert(texts(roles@) =~= entries.keys());
    (roles, modes, days)
}

/// An entry of a policy, as it is stored.
#[derive(Debug)]
pub struct PolicyRow {
    /// Name of the policy.
    pub name: String,
    /// Bucket of the policy.
    pub rate_limit_bucket: Option<String>,
    /// Role.
    pub role: String,
    /// Mode, as a word.
    pub mode: String,
    /// Days between two attempts, at least.
    pub frequency_days: Option<i32>,
}

/// The policies of a list of entries that is sorted by policy, one at a time.
#[derive(Debug)]
pub struct PolicyStream {
    /// The policy whose entries are being read.
    pub current: Option<(String, PolicyDocument)>,
    /// Whether no policy has been written yet.
    pub first: bool,
}

/// What an entry says of its role.
pub open spec fn row_policy(row: PolicyRow) -> PerBranchPolicy {
    PerBranchPolicy { mode: row.mode, max_frequency_days: row.frequency_days }
}

/// Whether an entry belongs to a policy.
pub open spec fn belongs_to(row: PolicyRow, current: Option<(String, PolicyDocument)>) -> bool {
    current matches Some((name, _)) && name@ == row.name@
}

impl PolicyStream {
    /// The policy that is being read is one.
    pub open spec fn wf(&self) -> bool {
        self.current matches Some((_, document)) ==> document.per_branch.wf()
    }

    /// Nothing read and nothing written yet.
    pub fn new() -> (r: Self)
        ensures
            r.wf(),
            r == (PolicyStream { current: None, first: true }),
    {
        PolicyStream { current: None, first: true }
    }

    /// Reads an entry, and hands out the policy before if this is the first entry
    /// of another one.
    pub fn read(&mut self, row: PolicyRow) -> (r: Option<(String, PolicyDocument)>)
        requires
            old(self).wf(),
        ensures
            final(self).wf(),
            final(self).first == old(self).first,
            final(self).current matches Some((name, document)) && name@ == row.name@ && (
            if belongs_to(row, old(self).current) {
                &&& r is None
                &&& document.rate_limit_bucket == ((old(self).current)->0).1.rate_limit_bucket
                &&& document.per_branch@ == ((old(self).current)->0).1.per_branch@.insert(
                    row.role@,
                    row_policy(row),
                )
            } else {
                &&& r == old(self).current
                &&& document.rate_limit_bucket == row.rate_limit_bucket
                &&& document.per_branch@ == Map::<Seq<char>, PerBranchPolicy>::empty().insert(
                    row.role@,
                    row_policy(row),
                )
            }),
    {
        let PolicyRow { name, rate_limit_bucket, role, mode, frequency_days } = row;
        let entry = PerBranchPolicy { mode, max_frequency_days: frequency_days };
        let before = self.current.take();
        match before {
            Some((current_name, document)) => {
                if str_eq(current_name.as_str(), name.as_str()) {
                    let mut document = document;
                    document.per_branch.insert(role, entry);
                    self.current = Some((current_name, document));
                    None
                } else {
                    let mut fresh = PolicyDocument {
                        rate_limit_bucket,
                        per_branch: TextMap::new(),
                    };
                    fresh.per_branch.insert(role, entry);
                    self.current = Some((name, fresh));
                    Some((current_name, document))
                }
            },
            None => {
                let mut fresh = PolicyDocument { rate_limit_bucket, per_branch: TextMap::new() };
                fresh.per_branch.insert(role, entry);
                self.current = Some((name, fresh));
                None
            },
        }
    }

    /// Hands out the policy after the last entry.
    pub fn finish(&mut self) -> (r: Option<(String, PolicyDocument)>)
        ensures
            r == old(self).current,
            *final(self) == (PolicyStream { current: None, ..*old(self) }),
    {
        self.current.take()
    }

    /// A policy as it stands in the answer, given its name and itself as JSON.
    pub fn frame(&mut self, name_json: &str, document_json: &str) -> (r: String)
        ensures
            r@ == framed(name_json@ + ":"@ + document_json@, old(self).first),
            *final(self) == (PolicyStream { first: false, ..*old(self) }),
    {
        let start = if self.first {
            String::new()
        } else {
            ",".to_owned()
        };
        self.first = false;
        let r = start.concat(name_json).concat(":").concat(document_json);
        assert(r@ =~= start@ + (name_json@ + ":"@ + document_json@));
        r
    }
}

/// An entry of an answer: with a comma before it unless it is the first.
pub open spec fn framed(entry: Seq<char>, first: bool) -> Seq<char> {
    if first {
        Seq::<char>::empty() + entry
    } else {
        ","@ + entry
    }
}

/// The entries of an answer, one after the other.
pub open spec fn all_framed(entries: Seq<Seq<char>>) -> Seq<char>
    decreases entries.len(),
{
    if entries.len() == 0 {
        Seq::empty()
    } else {
        all_framed(entries.drop_last()) + framed(entries.last(), entries.len() == 1)
    }
}

/// The entries of an answer have a comma between each two, and none elsewhere.
pub proof fn lemma_frames_are_joined(entries: Seq<Seq<char>>)
    ensures
        all_framed(entries) == joined(entries, ","@),
    decreases entries.len(),
{
    if entries.len() > 0 {
        lemma_frames_are_joined(entries.drop_last());
        if entries.len() == 1 {
            assert(all_framed(entries.drop_last()) =~= Seq::<char>::empty());
            assert(all_framed(entries) =~= entries[0]);
        } else {
            assert(all_framed(entries) =~= joined(entries.drop_last(), ","@) + ","@
                + entries.last());
        }
    }
}

/// What is known in the course of replacing all policies.
#[derive(Debug)]
pub struct PolicyReplacement {
    /// The policies that are to be.
    pub names: Vec<String>,
    /// How many of them are stored.
    pub position: usize,
    /// Whether one could not be stored.
    pub failed: bool,
    /// Whether the database failed otherwise.
    pub database_failed: bool,
    /// Whether the other policies are gone.
    pub pruned: bool,
    /// Whether all of this is final.
    pub committed: bool,
}

/// How the replacement of all policies ended.
#[derive(Debug)]
pub enum ReplacementEnd {
    /// As asked.
    Replaced,
    /// A policy could not be stored.
    UpdateFailed {
        /// Its name.
        name: String,
    },
    /// The database failed.
    DatabaseError,
}

/// What to do next.
#[derive(Debug)]
pub enum ReplacementStep {
    /// Store a policy.
    Store {
        /// Its position.
        position: usize,
    },
    /// Delete all policies but those that are to be.
    Prune,
    /// Make it final.
    Commit,
    /// Nothing: this is how it ended. Unless it went as asked, nothing is to be
    /// kept of it.
    Done(ReplacementEnd),
}

/// The next step of replacing all policies.
pub open spec fn replacement_next(f: PolicyReplacement) -> ReplacementStep {
    if f.database_failed {
        ReplacementStep::Done(ReplacementEnd::DatabaseError)
    } else if f.position < f.names@.len() {
        if f.failed {
            ReplacementStep::Done(
                ReplacementEnd::UpdateFailed { name: f.names@[f.position as int] },
            )
        } else {
            ReplacementStep::Store { position: f.position }
        }
    } else if !f.pruned {
        ReplacementStep::Prune
    } else if !f.committed {
        ReplacementStep::Commit
    } else {
        ReplacementStep::Done(ReplacementEnd::Replaced)
    }
}

/// Starts to replace all policies.
pub fn put_policies(names: Vec<String>) -> (r: PolicyReplacement)
    ensures
        r == (PolicyReplacement {
            names,
            position: 0,
            failed: false,
            database_failed: false,
            pruned: false,
            committed: false,
        }),
{
    PolicyReplacement {
        names,
        position: 0,
        failed: false,
        database_failed: false,
        pruned: false,
        committed: false,
    }
}

impl PolicyReplacement {
    /// What to do next.
    pub fn next(&self) -> (r: ReplacementStep)
        ensures
            r == replacement_next(*self),
    {
        if self.database_failed {
            ReplacementStep::Done(ReplacementEnd::DatabaseError)
        } else if self.position < self.names.len() {
            if self.failed {
                ReplacementStep::Done(
                    ReplacementEnd::UpdateFailed { name: self.names[self.position].clone() },
                )
            } else {
                ReplacementStep::Store { position: self.position }
            }
        } else if !self.pruned {
            ReplacementStep::Prune
        } else if !self.committed {
            ReplacementStep::Commit
        } else {
            ReplacementStep::Done(ReplacementEnd::Replaced)
        }
    }

    /// Notes down whether a policy could be stored.
    pub fn note_stored(&mut self, ok: bool)
        requires
            old(self).position < old(self).names.len(),
        ensures
            *final(self) == (if ok {
                PolicyReplacement { position: (old(self).position + 1) as usize, ..*old(self) }
            } else {
                PolicyReplacement { failed: true, ..*old(self) }
            }),
    {
        if ok {
            self.position = self.position + 1;
        } else {
            self.failed = true;
        }
    }

    /// Notes down whether the other policies could be deleted.
    pub fn note_pruned(&mut self, ok: bool)
        ensures
            *final(self) == (if ok {
                PolicyReplacement { pruned: true, ..*old(self) }
            } else {
                PolicyReplacement { database_failed: true, ..*old(self) }
            }),
    {
        if ok {
            self.pruned = true;
        } else {
            self.database_failed = true;
        }
    }

    /// Notes down whether it could be made final.
    pub fn note_committed(&mut self, ok: bool)
        ensures
            *final(self) == (if ok {
                PolicyReplacement { committed: true, ..*old(self) }
            } else {
                PolicyReplacement { database_failed: true, ..*old(self) }
            }),
    {
        if ok {
            self.committed = true;
        } else {
            self.database_failed = true;
        }
    }
}

impl ReplacementEnd {
    /// The status of the answer.
    pub fn http_status(&self) -> (r: u16)
        ensures
            r == (if *self is Replaced {
                200u16
            } else {
                500u16
            }),
    {
        match self {
            ReplacementEnd::Replaced => 200,
            _ => 500,
        }
    }

    /// What the answer says; nothing where all went as asked.
    pub fn message(&self) -> (r: Option<String>)
        ensures
            opt_text(r) == (match *self {
                ReplacementEnd::Replaced => None,
                ReplacementEnd::UpdateFailed { name } => Some(
                    "Failed to update policy "@ + name@,
                ),
                ReplacementEnd::DatabaseError => Some("Database error"@),
            }),
    {
        match self {
            ReplacementEnd::Replaced => None,
            ReplacementEnd::UpdateFailed { name } => Some(
                "Failed to update policy ".to_owned().concat(name.as_str()),
            ),
            ReplacementEnd::DatabaseError => Some("Database error".to_owned()),
        }
    }
}

/// Other policies are deleted only once all that are to be are stored, and
/// nothing is final before they are deleted.
pub proof fn lemma_replacement_is_all_or_nothing(f: PolicyReplacement)
    ensures
        replacement_next(f) is Prune || replacement_next(f) is Commit ==> f.position
            >= f.names@.len(),
        replacement_next(f) is Commit ==> f.pruned,
        replacement_next(f) == ReplacementStep::Done(ReplacementEnd::Replaced) ==> f.pruned
            && f.committed && f.position >= f.names@.len(),
{
}

/// How an attempt to delete a policy ended.
#[derive(Clone, Copy, Debug, PartialEq, Eq, Structural)]
pub enum PolicyDeletion {
    /// It is gone, or never was.
    Gone,
    /// A candidate needs it.
    InUse,
    /// The database failed.
    Failed,
}

/// The status of the answer to a request to delete a policy.
pub fn delete_policy_status(deletion: PolicyDeletion) -> (r: u16)
    ensures
        r == (match deletion {
            PolicyDeletion::Gone => 200u16,
            PolicyDeletion::InUse => 412u16,
            PolicyDeletion::Failed => 500u16,
        }),
{
    match deletion {
        PolicyDeletion::Gone => 200,
        PolicyDeletion::InUse => 412,
        PolicyDeletion::Failed => 500,
    }
}

/// The policies that are stored stand next to their roles: the same place in each
/// list is of the same role.
pub proof fn lemma_policies_stand_next_to_their_roles(
    roles: Seq<String>,
    modes: Seq<String>,
    days: Seq<Option<i32>>,
    entries: Map<Seq<char>, PerBranchPolicy>,
    i: int,
)
    requires
        are_parallel(roles, modes, days, entries),
        0 <= i < roles.len(),
    ensures
        roles.len() == modes.len() == days.len(),
        modes[i] == entries[roles[i]@].mode,
        days[i] == entries[roles[i]@].max_frequency_days,
{
}

/// A row belongs to the policy that is being read exactly where it names it, and
/// gives its own mode and pause.
pub proof fn lemma_rows_belong_by_name(
    row: PolicyRow,
    name: String,
    document: PolicyDocument,
)
    ensures
        !belongs_to(row, None),
        belongs_to(row, Some((name, document))) <==> row.name@ == name@,
        row_policy(row).mode == row.mode,
        row_policy(row).max_frequency_days == row.frequency_days,
{
}

/// Policies are stored one after the other, in their order; what failed is named; and
/// nothing else is done after a failure.
pub proof fn lemma_policies_are_stored_in_order(f: PolicyReplacement)
    ensures
        replacement_next(f) matches ReplacementStep::Store { position } ==> position == f.position
            && position < f.names@.len() && !f.failed && !f.database_failed,
        !f.failed && !f.database_failed && f.position < f.names@.len() ==> replacement_next(f)
            == (ReplacementStep::Store { position: f.position }),
        replacement_next(f) matches ReplacementStep::Done(ReplacementEnd::UpdateFailed { name })
            ==> f.failed && f.position < f.names@.len() && name == f.names@[f.position as int],
        f.failed && f.position < f.names@.len() ==> replacement_next(f) is Done
            && replacement_next(f) != ReplacementStep::Done(ReplacementEnd::Replaced),
        f.database_failed ==> replacement_next(f) == ReplacementStep::Done(
            ReplacementEnd::DatabaseError,
        ),
        replacement_next(f) == ReplacementStep::Done(ReplacementEnd::DatabaseError)
            ==> f.database_failed,
        !f.database_failed && f.position >= f.names@.len() && !f.pruned ==> replacement_next(
            f,
        ) is Prune,
        !f.database_failed && f.position >= f.names@.len() && f.pruned && !f.committed
            ==> replacement_next(f) is Commit,
        !f.database_failed && f.position >= f.names@.len() && f.pruned && f.committed
            ==> replacement_next(f) == ReplacementStep::Done(ReplacementEnd::Replaced),
{
}

} // verus!
