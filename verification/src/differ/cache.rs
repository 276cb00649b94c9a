//! Differences that are kept, and work that is not done twice.
use crate::differ::runs::{is_run_id, is_run_id_char};
use crate::text::str_eq;
use vstd::prelude::*;

verus! {

/// The name under which the output of a command for two runs is kept.
pub open spec fn cache_name(old_id: Seq<char>, new_id: Seq<char>, suffix: Seq<char>) -> Seq<char> {
    old_id + "_"@ + new_id + suffix
}

/// The name under which the output of diffoscope for two runs is kept.
pub fn diffoscope_cache_name(old_id: &str, new_id: &str) -> (r: String)
    ensures
        r@ == cache_name(old_id@, new_id@, ".json"@),
{
    old_id.to_owned().concat("_").concat(new_id).concat(".json")
}

/// The name under which the output of debdiff for two runs is kept.
pub fn debdiff_cache_name(old_id: &str, new_id: &str) -> (r: String)
    ensures
        r@ == cache_name(old_id@, new_id@, ""@),
{
    let r = old_id.to_owned().concat("_").concat(new_id);
    proof {
        reveal_strlit("");
        assert(r@ =~= cache_name(old_id@, new_id@, ""@));
    }
    r
}

/// A name that is made of ids of runs never leads out of the directory that it is
/// in: it is not empty, has no separator in it and does not start with a dot.
pub proof fn lemma_cache_name_stays_inside(
    old_id: Seq<char>,
    new_id: Seq<char>,
    suffix: Seq<char>,
)
    requires
        is_run_id(old_id),
        is_run_id(new_id),
        suffix == ""@ || suffix == ".json"@,
    ensures
        cache_name(old_id, new_id, suffix).len() > 0,
        cache_name(old_id, new_id, suffix)[0] != '.',
        !cache_name(old_id, new_id, suffix).contains('/'),
        !cache_name(old_id, new_id, suffix).contains('\\'),
{
    reveal_strlit("_");
    reveal_strlit("");
    reveal_strlit(".json");
    let name = cache_name(old_id, new_id, suffix);
    let k = old_id.len() as int;
    let m = new_id.len() as int;
    assert(is_run_id_char(old_id[0]));
    assert(name[0] == old_id[0]);
    assert forall|i: int| 0 <= i < name.len() implies #[trigger] name[i] != '/' && name[i]
        != '\\' by {
        if i < k {
            assert(name[i] == old_id[i]);
            assert(is_run_id_char(old_id[i]));
        } else if i == k {
            assert(name[i] == "_"@[0]);
        } else if i < k + 1 + m {
            assert(name[i] == new_id[i - k - 1]);
            assert(is_run_id_char(new_id[i - k - 1]));
        } else {
            assert(name[i] == suffix[i - k - 1 - m]);
        }
    }
}

/// The pairs of runs that are being compared.
#[derive(Debug)]
pub struct InFlight {
    keys: Vec<(String, String)>,
}

/// Two ids as text.
pub open spec fn key_text(key: (String, String)) -> (Seq<char>, Seq<char>) {
    (key.0@, key.1@)
}

impl View for InFlight {
    type V = Set<(Seq<char>, Seq<char>)>;

    closed spec fn view(&self) -> Set<(Seq<char>, Seq<char>)> {
        Set::new(|key: (Seq<char>, Seq<char>)| holds_key(self.keys@, key))
    }
}

/// Whether a list holds a key.
spec fn holds_key(keys: Seq<(String, String)>, key: (Seq<char>, Seq<char>)) -> bool {
    exists|i: int| 0 <= i < keys.len() && key_text(#[trigger] keys[i]) == key
}

impl Default for InFlight {
    fn default() -> (r: Self)
        ensures
            r@ == Set::<(Seq<char>, Seq<char>)>::empty(),
    {
        let r = InFlight { keys: Vec::new() };
        assert(r@ =~= Set::<(Seq<char>, Seq<char>)>::empty());
        r
    }
}

impl InFlight {
    /// The position of a key.
    fn position(&self, key: &(String, String)) -> (r: Option<usize>)
        ensures
            match r {
                Some(i) => i < self.keys@.len() && key_text(self.keys@[i as int]) == key_text(*key),
                None => !holds_key(self.keys@, key_text(*key)),
            },
    {
        let mut i: usize = 0;
        while i < self.keys.len()
            invariant
                i <= self.keys.len(),
                forall|j: int|
                    0 <= j < i ==> key_text(#[trigger] self.keys@[j]) != key_text(*key),
            decreases self.keys.len() - i,
        {
            if str_eq(self.keys[i].0.as_str(), key.0.as_str()) && str_eq(
                self.keys[i].1.as_str(),
                key.1.as_str(),
            ) {
                return Some(i);
            }
            i = i + 1;
        }
        None
    }

    /// Whether the caller is to do the work for a key, which is then being worked
    /// on; if not, somebody else is at it, whom the caller can wait for.
    pub fn acquire(&mut self, key: (String, String)) -> (r: bool)
        ensures
            r == !old(self)@.contains(key_text(key)),
            final(self)@ == old(self)@.insert(key_text(key)),
    {
        let ghost before = self.keys@;
        match self.position(&key) {
            Some(i) => {
                proof {
                    assert(holds_key(before, key_text(key)));
                    assert(self@ =~= self@.insert(key_text(key)));
                }
                false
            },
            None => {
                self.keys.push(key);
                proof {
                    assert forall|k: (Seq<char>, Seq<char>)| holds_key(self.keys@, k) == (holds_key(
                        before,
                        k,
                    ) || k == key_text(key)) by {
                        if holds_key(before, k) {
                            let i = choose|i: int|
                                0 <= i < before.len() && key_text(#[trigger] before[i]) == k;
                            assert(self.keys@[i] == before[i]);
                        }
                        if k == key_text(key) {
                            assert(key_text(self.keys@[before.len() as int]) == k);
                        }
                        if holds_key(self.keys@, k) {
                            let i = choose|i: int|
                                0 <= i < self.keys@.len() && key_text(#[trigger] self.keys@[i])
                                    == k;
                            if i < before.len() {
                                assert(key_text(before[i]) == k);
                            }
                        }
                    }
                    assert(self@ =~= old(self)@.insert(key_text(key)));
                }
                true
            },
        }
    }

    /// Ends the work for a key, however it went.
    pub fn finish(&mut self, key: &(String, String))
        ensures
            final(self)@ == old(self)@.remove(key_text(*key)),
    {
        let ghost all = self.keys@;
        let mut rest: Vec<(String, String)> = Vec::new();
        let mut i: usize = 0;
        while i < self.keys.len()
            invariant
                i <= self.keys.len(),
                self.keys@ == all,
                forall|k: (Seq<char>, Seq<char>)| #[trigger]
                    holds_key(rest@, k) == (holds_key(all.take(i as int), k) && k != key_text(
                        *key,
                    )),
            decreases self.keys.len() - i,
        {
            let entry = &self.keys[i];
            let same = str_eq(entry.0.as_str(), key.0.as_str()) && str_eq(
                entry.1.as_str(),
                key.1.as_str(),
            );
            let ghost before = rest@;
            if !same {
                rest.push((entry.0.clone(), entry.1.clone()));
            }
            proof {
                let now = all.take(i + 1);
                assert forall|k: (Seq<char>, Seq<char>)| #[trigger]
                    holds_key(rest@, k) == (holds_key(now, k) && k != key_text(*key)) by {
                    assert(holds_key(before, k) == (holds_key(all.take(i as int), k) && k
                        != key_text(*key)));
                    lemma_pushed_key(all.take(i as int), *entry, k);
                    assert(all.take(i as int).push(*entry) =~= now);
                    if !same {
                        lemma_pushed_key(before, *entry, k);
                    }
                }
            }
            i = i + 1;
        }
        assert(all.take(i as int) =~= all);
        self.keys = rest;
        assert(self@ =~= old(self)@.remove(key_text(*key)));
    }
}

/// A list with one more key holds that key and those that it held.
proof fn lemma_pushed_key(
    keys: Seq<(String, String)>,
    added: (String, String),
    key: (Seq<char>, Seq<char>),
)
    ensures
        holds_key(keys.push(added), key) == (holds_key(keys, key) || key == key_text(added)),
{
    let after = keys.push(added);
    if holds_key(keys, key) {
        let i = choose|i: int| 0 <= i < keys.len() && key_text(#[trigger] keys[i]) == key;
        assert(after[i] == keys[i]);
    }
    if key == key_text(added) {
        assert(key_text(after[keys.len() as int]) == key);
    }
    if holds_key(after, key) {
        let i = choose|i: int| 0 <= i < after.len() && key_text(#[trigger] after[i]) == key;
        if i < keys.len() {
            assert(key_text(keys[i]) == key);
        }
    }
}

/// What is known in the course of getting a difference.
#[derive(Clone, Copy, Debug, PartialEq, Eq, Structural)]
pub struct CacheLookup {
    /// Whether differences are kept.
    pub keeps: bool,
    /// Whether the difference was there at first.
    pub found: Option<bool>,
    /// Whether the caller is to do the work.
    pub acquired: Option<bool>,
    /// Whether somebody else was waited for.
    pub waited: bool,
    /// Whether the difference was there after the wait.
    pub found_after_wait: Option<bool>,
    /// Whether the caller is to do the work after the wait.
    pub acquired_after_wait: Option<bool>,
}

/// What to do next.
#[derive(Clone, Copy, Debug, PartialEq, Eq, Structural)]
pub enum CacheStep {
    /// See whether the difference is there.
    Read,
    /// See whether to do the work.
    Acquire,
    /// Wait for somebody else.
    Wait,
    /// See whether the difference is there now.
    ReadAgain,
    /// See whether to do the work now.
    AcquireAgain,
    /// Do the work.
    Generate {
        /// Whether others know that it is being done.
        guarded: bool,
    },
    /// Take the difference that is there.
    UseCached,
}

/// The next step of getting a difference.
pub open spec fn cache_next(f: CacheLookup) -> CacheStep {
    if f.keeps && f.found is None {
        CacheStep::Read
    } else if f.keeps && f.found == Some(true) {
        CacheStep::UseCached
    } else if f.acquired is None {
        CacheStep::Acquire
    } else if f.acquired == Some(true) {
        CacheStep::Generate { guarded: true }
    } else if !f.waited {
        CacheStep::Wait
    } else if f.keeps && f.found_after_wait is None {
        CacheStep::ReadAgain
    } else if f.keeps && f.found_after_wait == Some(true) {
        CacheStep::UseCached
    } else {
        match f.acquired_after_wait {
            None => CacheStep::AcquireAgain,
            Some(guarded) => CacheStep::Generate { guarded },
        }
    }
}

/// Starts to get a difference.
pub fn load_or_generate(keeps: bool) -> (r: CacheLookup)
    ensures
        r == (CacheLookup {
            keeps,
            found: None,
            acquired: None,
            waited: false,
            found_after_wait: None,
            acquired_after_wait: None,
        }),
{
    CacheLookup {
        keeps,
        found: None,
        acquired: None,
        waited: false,
        found_after_wait: None,
        acquired_after_wait: None,
    }
}

impl CacheLookup {
    /// What to do next.
    pub fn next(&self) -> (r: CacheStep)
        ensures
            r == cache_next(*self),
    {
        if self.keeps {
            match self.found {
                None => {
                    return CacheStep::Read;
                },
                Some(true) => {
                    return CacheStep::UseCached;
                },
                Some(false) => {},
            }
        }
        match self.acquired {
            None => {
                return CacheStep::Acquire;
            },
            Some(true) => {
                return CacheStep::Generate { guarded: true };
            },
            Some(false) => {},
        }
        if !self.waited {
            return CacheStep::Wait;
        }
        if self.keeps {
            match self.found_after_wait {
                None => {
                    return CacheStep::ReadAgain;
                },
                Some(true) => {
                    return CacheStep::UseCached;
                },
                Some(false) => {},
            }
        }
        match self.acquired_after_wait {
            None => CacheStep::AcquireAgain,
            Some(guarded) => CacheStep::Generate { guarded },
        }
    }

    /// Notes down the answer to a step that asks something, or that a wait is
    /// over.
    pub fn note(&mut self, answer: bool)
        ensures
            *final(self) == (match cache_next(*old(self)) {
                CacheStep::Read => CacheLookup { found: Some(answer), ..*old(self) },
                CacheStep::Acquire => CacheLookup { acquired: Some(answer), ..*old(self) },
                CacheStep::Wait => CacheLookup { waited: true, ..*old(self) },
                CacheStep::ReadAgain => CacheLookup {
                    found_after_wait: Some(answer),
                    ..*old(self)
                },
                CacheStep::AcquireAgain => CacheLookup {
                    acquired_after_wait: Some(answer),
                    ..*old(self)
                },
                _ => *old(self),
            }),
    {
        match self.next() {
            CacheStep::Read => {
                self.found = Some(answer);
            },
            CacheStep::Acquire => {
                self.acquired = Some(answer);
            },
            CacheStep::Wait => {
                self.waited = true;
            },
            CacheStep::ReadAgain => {
                self.found_after_wait = Some(answer);
            },
            CacheStep::AcquireAgain => {
                self.acquired_after_wait = Some(answer);
            },
            _ => {},
        }
    }
}

/// How many steps a lookup has behind it.
pub open spec fn lookup_progress(f: CacheLookup) -> int {
    (if f.found is Some {
        1int
    } else {
        0
    }) + (if f.acquired is Some {
        1int
    } else {
        0
    }) + (if f.waited {
        1int
    } else {
        0
    }) + (if f.found_after_wait is Some {
        1int
    } else {
        0
    }) + (if f.acquired_after_wait is Some {
        1int
    } else {
        0
    })
}

/// The work is done only where the difference is not there, without a wait only
/// by one at a time, and no lookup goes on for ever: each answer brings it one
/// step further, of five at most.
pub proof fn lemma_lookup_ends(f: CacheLookup)
    ensures
        cache_next(f) is Generate ==> !(f.keeps && f.found == Some(true)) && f.acquired is Some,
        cache_next(f) == (CacheStep::Generate { guarded: false }) ==> f.waited,
        cache_next(f) is UseCached ==> f.keeps,
        lookup_progress(f) <= 5,
        !(cache_next(f) is Generate || cache_next(f) is UseCached) ==> lookup_progress(f) < 5,
{
}

/// The output for two runs is kept under the id of the old one, then that of the new
/// one; runs that differ are kept apart, since no id holds what stands between them.
pub proof fn lemma_kept_under_old_then_new(
    old_id: Seq<char>,
    new_id: Seq<char>,
    suffix: Seq<char>,
    other_new_id: Seq<char>,
)
    ensures
        (old_id + "_"@).is_prefix_of(cache_name(old_id, new_id, suffix)),
        ("_"@ + new_id + suffix).is_suffix_of(cache_name(old_id, new_id, suffix)),
        cache_name(old_id, new_id, suffix).len() == old_id.len() + 1 + new_id.len() + suffix.len(),
        new_id != other_new_id ==> cache_name(old_id, new_id, suffix) != cache_name(
            old_id,
            other_new_id,
            suffix,
        ),
{
    reveal_strlit("_");
    assert("_"@.len() == 1);
    let name = cache_name(old_id, new_id, suffix);
    let start = old_id + "_"@;
    let end = "_"@ + new_id + suffix;
    assert(name.subrange(0, start.len() as int) =~= start);
    assert(name.subrange(name.len() - end.len(), name.len() as int) =~= end);
    let other = cache_name(old_id, other_new_id, suffix);
    if name == other {
        let k = old_id.len() as int + 1;
        assert(new_id.len() == other_new_id.len());
        assert(name.subrange(k, k + new_id.len()) =~= new_id);
        assert(other.subrange(k, k + new_id.len()) =~= other_new_id);
    }
}

/// A difference that is there is used, the work is done by whoever was given it, and
/// whoever was not waits first; each question is asked once.
pub proof fn lemma_lookup_steps_have_their_cause(f: CacheLookup)
    ensures
        cache_next(f) is Read <==> f.keeps && f.found is None,
        cache_next(f) is UseCached <==> f.keeps && f.found is Some && (f.found->0 || (f.acquired
            is Some && !f.acquired->0 && f.waited && f.found_after_wait is Some
            && f.found_after_wait->0)),
        cache_next(f) is Acquire ==> f.acquired is None && !(f.keeps && f.found == Some(true)),
        cache_next(f) is Wait ==> f.acquired == Some(false) && !f.waited,
        cache_next(f) is ReadAgain ==> f.keeps && f.waited && f.found_after_wait is None,
        cache_next(f) is AcquireAgain ==> f.waited && f.acquired == Some(false)
            && f.acquired_after_wait is None,
        cache_next(f) matches CacheStep::Generate { guarded } ==> {
            &&& guarded <==> f.acquired->0 || (f.acquired_after_wait is Some
                && f.acquired_after_wait->0)
            &&& f.acquired == Some(true) || (f.acquired == Some(false) && f.waited
                && f.acquired_after_wait is Some)
        },
        !f.keeps && f.acquired == Some(true) ==> cache_next(f) == (CacheStep::Generate {
            guarded: true,
        }),
        f.keeps && f.found == Some(false) && f.acquired == Some(true) ==> cache_next(f) == (
        CacheStep::Generate { guarded: true }),
{
    if let Some(b) = f.found {
        assert(f.found == Some(true) || f.found == Some(false)) by {
            assert(b == true || b == false);
        }
    }
    if let Some(b) = f.acquired {
        assert(f.acquired == Some(true) || f.acquired == Some(false)) by {
            assert(b == true || b == false);
        }
    }
    if let Some(b) = f.found_after_wait {
        assert(f.found_after_wait == Some(true) || f.found_after_wait == Some(false)) by {
            assert(b == true || b == false);
        }
    }
}

} // verus!
