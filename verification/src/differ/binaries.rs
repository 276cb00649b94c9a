//! Binary packages and how they are got.
use crate::differ::error::Error;
use crate::text::ends_with;
use vstd::prelude::*;

verus! {

/// Whether a file name is that of a binary package.
pub open spec fn is_binary_name(name: Seq<char>) -> bool {
    ".deb"@.is_suffix_of(name) || ".udeb"@.is_suffix_of(name)
}

/// Whether a file name is that of a binary package.
pub fn is_binary(name: &str) -> (r: bool)
    ensures
        r == is_binary_name(name@),
{
    ends_with(name, ".deb") || ends_with(name, ".udeb")
}

/// How an attempt to get the packages of a run ended.
#[derive(Debug)]
pub enum Retrieval {
    /// They are here.
    Done,
    /// It took too long.
    TimedOut,
    /// There are none.
    Missing,
    /// It failed; holds the rendered error.
    Failed(String),
}

/// Whether `r` is what an attempt to get the packages of a run comes to.
pub open spec fn is_retrieval_result(
    r: Result<(), Error>,
    run_id: Seq<char>,
    retrieval: Retrieval,
) -> bool {
    match retrieval {
        Retrieval::Done => r is Ok,
        Retrieval::TimedOut => r matches Err(Error::ArtifactRetrievalTimeout(id)) && id@ == run_id,
        Retrieval::Missing => r matches Err(Error::ArtifactsMissing(id)) && id@ == run_id,
        Retrieval::Failed(text) => r matches Err(
            Error::ArtifactRetrievalFailed { run_id: id, reason },
        ) && id@ == run_id && reason == text,
    }
}

/// What an attempt to get the packages of a run comes to.
pub fn classify_retrieval_result(run_id: &str, retrieval: Retrieval) -> (r: Result<(), Error>)
    ensures
        is_retrieval_result(r, run_id@, retrieval),
{
    match retrieval {
        Retrieval::Done => Ok(()),
        Retrieval::TimedOut => Err(Error::ArtifactRetrievalTimeout(run_id.to_owned())),
        Retrieval::Missing => Err(Error::ArtifactsMissing(run_id.to_owned())),
        Retrieval::Failed(reason) => Err(
            Error::ArtifactRetrievalFailed { run_id: run_id.to_owned(), reason },
        ),
    }
}

/// What the attempts to get the packages of two runs come to. Where both failed,
/// it is the first that counts.
pub fn fetch_result(old_id: &str, new_id: &str, old: Retrieval, new: Retrieval) -> (r: Result<
    (),
    Error,
>)
    ensures
        if old is Done {
            is_retrieval_result(r, new_id@, new)
        } else {
            is_retrieval_result(r, old_id@, old)
        },
{
    match classify_retrieval_result(old_id, old) {
        Ok(()) => classify_retrieval_result(new_id, new),
        Err(e) => Err(e),
    }
}

/// Whether both runs left packages, given how many there are; an error where one
/// did not.
pub fn check_found(old_id: &str, new_id: &str, old: usize, new: usize) -> (r: Result<(), Error>)
    ensures
        if old == 0 {
            r matches Err(Error::ArtifactsMissing(id)) && id@ == old_id@
        } else if new == 0 {
            r matches Err(Error::ArtifactsMissing(id)) && id@ == new_id@
        } else {
            r is Ok
        },
{
    if old == 0 {
        Err(Error::ArtifactsMissing(old_id.to_owned()))
    } else if new == 0 {
        Err(Error::ArtifactsMissing(new_id.to_owned()))
    } else {
        Ok(())
    }
}

/// A name that the system gave.
#[derive(Debug)]
pub enum SystemName {
    /// It is text.
    Text(String),
    /// It is no text; holds a rendering of it.
    Other(String),
}

/// A package that was found.
#[derive(Debug)]
pub struct FoundBinary {
    /// File name.
    pub name: SystemName,
    /// Path.
    pub path: SystemName,
}

/// What is wrong with a package, if anything: its file name or its path is no
/// text.
pub open spec fn binary_fault(found: FoundBinary) -> Option<Seq<char>> {
    match found.name {
        SystemName::Other(shown) => Some("invalid UTF-8 in filename "@ + shown@),
        SystemName::Text(_) => path_fault(found),
    }
}

/// What is wrong with the path of a package, if anything: it is no text.
pub open spec fn path_fault(found: FoundBinary) -> Option<Seq<char>> {
    match found.path {
        SystemName::Other(shown) => Some("invalid UTF-8 in path "@ + shown@),
        SystemName::Text(_) => None,
    }
}

/// Whether a fault is the first in a list.
pub open spec fn is_first_fault(faults: Seq<Option<Seq<char>>>, fault: Seq<char>) -> bool {
    exists|i: int|
        0 <= i < faults.len() && #[trigger] faults[i] == Some(fault) && forall|j: int|
            0 <= j < i ==> (#[trigger] faults[j]) is None
}

/// File names and paths of packages; what is wrong with the first where something
/// is.
pub fn os_pairs(found: &Vec<FoundBinary>) -> (r: Result<Vec<(String, String)>, String>)
    ensures
        ({
            let faults = found@.map_values(|f: FoundBinary| binary_fault(f));
            match r {
                Ok(pairs) => {
                    &&& pairs@.len() == found@.len()
                    &&& forall|i: int|
                        0 <= i < pairs@.len() ==> {
                            &&& SystemName::Text((#[trigger] pairs@[i]).0) == found@[i].name
                            &&& SystemName::Text(pairs@[i].1) == found@[i].path
                        }
                },
                Err(fault) => is_first_fault(faults, fault@),
            }
        }),
{
    let mut pairs: Vec<(String, String)> = Vec::new();
    let ghost faults = found@.map_values(|f: FoundBinary| binary_fault(f));
    let mut i: usize = 0;
    while i < found.len()
        invariant
            i <= found.len(),
            faults == found@.map_values(|f: FoundBinary| binary_fault(f)),
            pairs@.len() == i,
            forall|j: int|
                0 <= j < i ==> {
                    &&& SystemName::Text((#[trigger] pairs@[j]).0) == found@[j].name
                    &&& SystemName::Text(pairs@[j].1) == found@[j].path
                },
            forall|j: int| 0 <= j < i ==> (#[trigger] faults[j]) is None,
        decreases found.len() - i,
    {
        let entry = &found[i];
        assert(faults[i as int] == binary_fault(*entry));
        match (&entry.name, &entry.path) {
            (SystemName::Other(shown), _) => {
                return Err("invalid UTF-8 in filename ".to_owned().concat(shown.as_str()));
            },
            (_, SystemName::Other(shown)) => {
                return Err("invalid UTF-8 in path ".to_owned().concat(shown.as_str()));
            },
            (SystemName::Text(name), SystemName::Text(path)) => {
                pairs.push((name.clone(), path.clone()));
            },
        }
        i = i + 1;
    }
    Ok(pairs)
}

/// Paths of packages; what is wrong with the first where something is.
pub fn str_paths(found: &Vec<FoundBinary>) -> (r: Result<Vec<String>, String>)
    ensures
        ({
            let faults = found@.map_values(|f: FoundBinary| path_fault(f));
            match r {
                Ok(paths) => {
                    &&& paths@.len() == found@.len()
                    &&& forall|i: int|
                        0 <= i < paths@.len() ==> SystemName::Text(#[trigger] paths@[i])
                            == found@[i].path
                },
                Err(fault) => is_first_fault(faults, fault@),
            }
        }),
{
    let mut paths: Vec<String> = Vec::new();
    let ghost faults = found@.map_values(|f: FoundBinary| path_fault(f));
    let mut i: usize = 0;
    while i < found.len()
        invariant
            i <= found.len(),
            faults == found@.map_values(|f: FoundBinary| path_fault(f)),
            paths@.len() == i,
            forall|j: int|
                0 <= j < i ==> SystemName::Text(#[trigger] paths@[j]) == found@[j].path,
            forall|j: int| 0 <= j < i ==> (#[trigger] faults[j]) is None,
        decreases found.len() - i,
    {
        let entry = &found[i];
        assert(faults[i as int] == path_fault(*entry));
        match &entry.path {
            SystemName::Other(shown) => {
                return Err("invalid UTF-8 in path ".to_owned().concat(shown.as_str()));
            },
            SystemName::Text(path) => {
                paths.push(path.clone());
            },
        }
        i = i + 1;
    }
    Ok(paths)
}

/// A package is known by what its name ends in, whatever stands before it.
pub proof fn lemma_packages_end_in_deb(start: Seq<char>)
    ensures
        is_binary_name(start + ".deb"@),
        is_binary_name(start + ".udeb"@),
        !is_binary_name(start + ".dsc"@),
        !is_binary_name(start + ".changes"@),
{
    reveal_strlit(".deb");
    reveal_strlit(".udeb");
    reveal_strlit(".dsc");
    reveal_strlit(".changes");
    let deb = start + ".deb"@;
    let udeb = start + ".udeb"@;
    assert(deb.subrange(deb.len() - 4, deb.len() as int) =~= ".deb"@);
    assert(udeb.subrange(udeb.len() - 5, udeb.len() as int) =~= ".udeb"@);
    let dsc = start + ".dsc"@;
    let changes = start + ".changes"@;
    assert(dsc.last() == 'c');
    assert(changes.last() == 's');
    assert(".deb"@.last() == 'b' && ".udeb"@.last() == 'b');
    assert(forall|s: Seq<char>|
        s.len() > 0 && #[trigger] is_binary_name(s) ==> s.last() == 'b') by {
        assert forall|s: Seq<char>| s.len() > 0 && #[trigger] is_binary_name(s) implies s.last()
            == 'b' by {
            if ".deb"@.is_suffix_of(s) {
                assert(s.subrange(s.len() - 4, s.len() as int).last() == 'b');
            } else {
                assert(s.subrange(s.len() - 5, s.len() as int).last() == 'b');
            }
        }
    }
}

/// Only what was got is got; every failure names the run and what was said of it.
pub proof fn lemma_retrieval_is_told_as_it_went(
    r: Result<(), Error>,
    run_id: Seq<char>,
    retrieval: Retrieval,
)
    requires
        is_retrieval_result(r, run_id, retrieval),
    ensures
        r is Ok <==> retrieval is Done,
        retrieval is TimedOut ==> r->Err_0 is ArtifactRetrievalTimeout
            && r->Err_0->ArtifactRetrievalTimeout_0@ == run_id,
        retrieval is Missing ==> r->Err_0 is ArtifactsMissing && r->Err_0->ArtifactsMissing_0@
            == run_id,
        retrieval matches Retrieval::Failed(said) ==> r->Err_0 is ArtifactRetrievalFailed
            && r->Err_0->run_id@ == run_id && r->Err_0->ArtifactRetrievalFailed_reason == said,
{
}

/// A package has a fault exactly where its name or its path is no text; the name is
/// looked at first.
pub proof fn lemma_only_what_is_no_text_is_a_fault(found: FoundBinary)
    ensures
        binary_fault(found) is None <==> found.name is Text && found.path is Text,
        path_fault(found) is None <==> found.path is Text,
        found.name matches SystemName::Other(shown) ==> shown@.is_suffix_of(
            binary_fault(found)->0,
        ),
        found.path matches SystemName::Other(shown) ==> shown@.is_suffix_of(path_fault(found)->0),
        found.name is Text ==> binary_fault(found) == path_fault(found),
{
    if let SystemName::Other(shown) = found.name {
        let text = binary_fault(found)->0;
        assert(text.subrange(text.len() - shown@.len(), text.len() as int) =~= shown@);
    }
    if let SystemName::Other(shown) = found.path {
        let text = path_fault(found)->0;
        assert(text.subrange(text.len() - shown@.len(), text.len() as int) =~= shown@);
    }
}

} // verus!
