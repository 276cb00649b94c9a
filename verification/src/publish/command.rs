//! Small rules of the worker process.
use crate::text::{chars_of, contains_part, occurs_in, texts};
use vstd::prelude::*;

verus! {

/// How many texts at the start of `args` set a variable.
pub open spec fn leading_env(args: Seq<Seq<char>>) -> nat
    decreases args.len(),
{
    if args.len() > 0 && args[0].contains('=') {
        1 + leading_env(args.drop_first())
    } else {
        0
    }
}

/// Whether `s` holds an equals sign.
fn has_equals(s: &str) -> (r: bool)
    ensures
        r == s@.contains('='),
{
    let chars = chars_of(s);
    let mut i: usize = 0;
    while i < chars.len()
        invariant
            i <= chars.len(),
            chars@ == s@,
            forall|j: int| 0 <= j < i ==> #[trigger] s@[j] != '=',
        decreases chars.len() - i,
    {
        if chars[i] == '=' {
            assert(s@[i as int] == '=');
            return true;
        }
        i = i + 1;
    }
    false
}

/// Takes the texts off the start of a command line that set a variable.
pub fn drop_env(args: &mut Vec<String>)
    ensures
        final(args)@ == old(args)@.skip(leading_env(texts(old(args)@)) as int),
        leading_env(texts(old(args)@)) <= old(args)@.len(),
{
    let mut i: usize = 0;
    let ghost all = args@;
    assert(texts(all).skip(0) =~= texts(all));
    while i < args.len() && has_equals(args[i].as_str())
        invariant
            args@ == all,
            i <= args@.len(),
            leading_env(texts(all)) == i + leading_env(texts(all).skip(i as int)),
        decreases args@.len() - i,
    {
        proof {
            let rest = texts(all).skip(i as int);
            assert(rest[0] == all[i as int]@);
            assert(rest.drop_first() =~= texts(all).skip(i + 1));
        }
        i = i + 1;
    }
    proof {
        let rest = texts(all).skip(i as int);
        if i < all.len() {
            assert(rest[0] == all[i as int]@);
        }
        assert(leading_env(rest) == 0);
    }
    let mut rest: Vec<String> = Vec::new();
    let mut k: usize = i;
    while k < args.len()
        invariant
            args@ == all,
            i <= k <= args@.len(),
            rest@ == all.subrange(i as int, k as int),
        decreases args@.len() - k,
    {
        rest.push(args[k].clone());
        assert(all.subrange(i as int, k + 1) =~= all.subrange(i as int, k as int).push(
            all[k as int],
        ));
        k = k + 1;
    }
    assert(all.subrange(i as int, k as int) =~= all.skip(i as int));
    *args = rest;
}

/// Why a branch cannot be opened.
#[derive(Debug)]
pub enum BranchOpenError {
    /// There is no such branch.
    Missing {
        /// Where it was looked for.
        url: String,
        /// What went wrong.
        description: String,
    },
    /// It cannot be reached.
    Unavailable {
        /// Where it was looked for.
        url: String,
        /// What went wrong.
        description: String,
    },
    /// Any other reason.
    Other {
        /// Where it was looked for.
        url: String,
        /// What went wrong.
        description: String,
    },
}

/// Whether the connection was closed before the branch could be opened.
pub open spec fn is_reset(e: BranchOpenError) -> bool {
    match e {
        BranchOpenError::Unavailable { url, description } => occurs_in(
            "Connection closed early"@,
            description@,
        ),
        _ => false,
    }
}

/// Whether the connection was closed before the branch could be opened.
fn was_reset(e: &BranchOpenError) -> (r: bool)
    ensures
        r == is_reset(*e),
{
    match e {
        BranchOpenError::Unavailable { url: _, description } => contains_part(
            description.as_str(),
            "Connection closed early",
        ),
        _ => false,
    }
}

/// Makes another attempt to open a branch where the connection was closed early
/// at the first; else it is the first that counts, and no other is made.
pub fn open_again_after<T, F: FnOnce() -> Result<T, BranchOpenError>>(
    first: Result<T, BranchOpenError>,
    again: F,
) -> (r: Result<T, BranchOpenError>)
    requires
        call_requires(again, ()),
    ensures
        if first is Err && is_reset(first->Err_0) {
            call_ensures(again, (), r)
        } else {
            r == first
        },
{
    match first {
        Ok(branch) => Ok(branch),
        Err(e) => if was_reset(&e) {
            again()
        } else {
            Err(e)
        },
    }
}

/// Opens a branch, with one more attempt where the connection was closed early at
/// the first. Whether that is so is seen at the first attempt, and
/// [`open_again_after`] says what follows from it; here it is said of some result
/// that a first attempt may have.
pub fn open_branch_retrying<T, F: FnMut() -> Result<T, BranchOpenError>>(open: F) -> (r: Result<
    T,
    BranchOpenError,
>)
    requires
        call_requires(open, ()),
    ensures
        exists|first: Result<T, BranchOpenError>| #[trigger]
            call_ensures(open, (), first) && (if first is Err && is_reset(first->Err_0) {
                call_ensures(open, (), r)
            } else {
                r == first
            }),
{
    let mut open = open;
    let first = open();
    open_again_after(first, open)
}

/// Exactly the leading arguments that set something are dropped: all of them have an
/// equals sign, and the one that follows them has none.
pub proof fn lemma_only_leading_settings_are_dropped(args: Seq<Seq<char>>)
    ensures
        leading_env(args) <= args.len(),
        forall|i: int| 0 <= i < leading_env(args) ==> (#[trigger] args[i]).contains('='),
        leading_env(args) < args.len() ==> !args[leading_env(args) as int].contains('='),
    decreases args.len(),
{
    if args.len() > 0 && args[0].contains('=') {
        let rest = args.drop_first();
        lemma_only_leading_settings_are_dropped(rest);
        assert forall|i: int| 0 <= i < leading_env(args) implies (#[trigger] args[i]).contains(
            '=',
        ) by {
            if i > 0 {
                assert(rest[i - 1] == args[i]);
            }
        }
        if leading_env(args) < args.len() {
            assert(args[leading_env(args) as int] == rest[leading_env(rest) as int]);
        }
    }
}

/// Opening is tried again only where the connection was closed early.
pub proof fn lemma_only_closed_connections_are_tried_again(e: BranchOpenError)
    ensures
        is_reset(e) ==> e is Unavailable,
        e is Missing || e is Other ==> !is_reset(e),
        e matches BranchOpenError::Unavailable { url, description } ==> (is_reset(e) <==> occurs_in(
            "Connection closed early"@,
            description@,
        )),
{
}

} // verus!
