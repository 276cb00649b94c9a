//! The runs that are compared.
use crate::differ::error::Error;
use crate::text::{chars_of, decimal, decimal_of, opt_text, str_eq};
use vstd::prelude::*;

verus! {

/// A Debian version.
#[derive(Debug)]
pub struct BuildVersion {
    /// Epoch, if it has one.
    pub epoch: Option<u32>,
    /// Version of the software.
    pub upstream_version: String,
    /// Version of the package, if it has one.
    pub debian_revision: Option<String>,
}

/// A Debian version, as text.
pub struct VersionView {
    /// Epoch, if it has one.
    pub epoch: Option<u32>,
    /// Version of the software.
    pub upstream_version: Seq<char>,
    /// Version of the package, if it has one.
    pub debian_revision: Option<Seq<char>>,
}

impl View for BuildVersion {
    type V = VersionView;

    open spec fn view(&self) -> VersionView {
        VersionView {
            epoch: self.epoch,
            upstream_version: self.upstream_version@,
            debian_revision: opt_text(self.debian_revision),
        }
    }
}

/// A version in one piece.
pub open spec fn version_text(version: VersionView) -> Seq<char> {
    (match version.epoch {
        Some(epoch) => decimal(epoch as nat) + ":"@,
        None => Seq::empty(),
    }) + version.upstream_version + (match version.debian_revision {
        Some(revision) => "-"@ + revision,
        None => Seq::empty(),
    })
}

/// What `debversion::Version::from_str` makes of a text: the parts of the version
/// that it stands for, or nothing where it stands for none.
pub uninterp spec fn parsed_version(text: Seq<char>) -> Option<VersionView>;

/// The parts of a version.
pub open spec fn version_view(version: Option<BuildVersion>) -> Option<VersionView> {
    match version {
        Some(version) => Some(version@),
        None => None,
    }
}

/// Calls `debversion::Version::from_str` and hands out the fields of the version.
/// Of the result it is only claimed that it depends on the text alone.
#[verifier::external_body]
fn parse_version(text: &str) -> (r: Option<BuildVersion>)
    ensures
        version_view(r) == parsed_version(text@),
{
    let version = text.parse::<debversion::Version>().ok()?;
    Some(BuildVersion {
        epoch: version.epoch,
        upstream_version: version.upstream_version,
        debian_revision: version.debian_revision,
    })
}

impl BuildVersion {
    /// The version that a text stands for, if it stands for one.
    pub fn parse(text: &str) -> (r: Option<BuildVersion>)
        ensures
            version_view(r) == parsed_version(text@),
    {
        parse_version(text)
    }

    /// This version in one piece.
    pub fn to_text(&self) -> (r: String)
        ensures
            r@ == version_text(self@),
    {
        let start = match self.epoch {
            Some(epoch) => decimal_of(epoch as u64).concat(":"),
            None => String::new(),
        };
        let middle = start.concat(self.upstream_version.as_str());
        match &self.debian_revision {
            Some(revision) => {
                let r = middle.concat("-").concat(revision.as_str());
                assert(r@ =~= version_text(self@));
                r
            },
            None => {
                assert(middle@ =~= version_text(self@));
                middle
            },
        }
    }
}

/// A run that built packages.
#[derive(Debug)]
pub struct Run {
    /// Result code.
    pub result_code: String,
    /// Source package; nothing where none was built.
    pub build_source: Option<String>,
    /// Campaign.
    pub campaign: String,
    /// Run id.
    pub id: String,
    /// Version that was built; nothing where none was.
    pub build_version: Option<BuildVersion>,
}

/// The version of a run in one piece; empty where there is none.
pub open spec fn run_version(run: Run) -> Seq<char> {
    match run.build_version {
        Some(version) => version_text(version@),
        None => Seq::empty(),
    }
}

/// The source package of a run; empty where there is none.
pub open spec fn run_source(run: Run) -> Seq<char> {
    match run.build_source {
        Some(source) => source@,
        None => ""@,
    }
}

impl Run {
    /// The version in one piece; empty where there is none.
    pub fn build_version_str(&self) -> (r: String)
        ensures
            r@ == run_version(*self),
    {
        match &self.build_version {
            Some(version) => version.to_text(),
            None => String::new(),
        }
    }

    /// The source package; empty where there is none.
    pub fn build_source_str(&self) -> (r: &str)
        ensures
            r@ == run_source(*self),
    {
        match &self.build_source {
            Some(source) => source.as_str(),
            None => "",
        }
    }
}

/// The characters in the id of a run.
pub open spec fn is_run_id_char(c: char) -> bool {
    ||| '0' <= c <= '9'
    ||| 'A' <= c <= 'Z'
    ||| 'a' <= c <= 'z'
    ||| c == '-'
    ||| c == '_'
}

/// Whether a text can be the id of a run.
pub open spec fn is_run_id(id: Seq<char>) -> bool {
    &&& id.len() > 0
    &&& forall|i: int| 0 <= i < id.len() ==> is_run_id_char(#[trigger] id[i])
}

/// Whether a text can be the id of a run; an error where it cannot.
pub fn validate_run_id(id: &str) -> (r: Result<(), Error>)
    ensures
        r is Ok == is_run_id(id@),
        r matches Err(e) ==> (e matches Error::InvalidRunId(text) && text@ == id@),
{
    let chars = chars_of(id);
    if chars.len() == 0 {
        return Err(Error::InvalidRunId(id.to_owned()));
    }
    let mut i: usize = 0;
    while i < chars.len()
        invariant
            i <= chars.len(),
            chars@ == id@,
            forall|j: int| 0 <= j < i ==> is_run_id_char(#[trigger] id@[j]),
        decreases chars.len() - i,
    {
        let c = chars[i];
        if !(('0' <= c && c <= '9') || ('A' <= c && c <= 'Z') || ('a' <= c && c <= 'z') || c == '-'
            || c == '_') {
            assert(!is_run_id_char(id@[i as int]));
            return Err(Error::InvalidRunId(id.to_owned()));
        }
        i = i + 1;
    }
    Ok(())
}

/// Whether `r` is what asking for a run that succeeded comes to.
pub open spec fn is_successful_result(
    r: Result<Run, Error>,
    run_id: Seq<char>,
    run: Option<Run>,
) -> bool {
    match run {
        None => r matches Err(Error::RunNotFound(id)) && id@ == run_id,
        Some(found) => if found.result_code@ == "success"@ {
            r == Ok::<Run, Error>(found)
        } else {
            r matches Err(Error::RunNotSuccessful(id)) && id@ == run_id
        },
    }
}

/// A run, if there is one and it succeeded.
pub fn check_successful(run_id: &str, run: Option<Run>) -> (r: Result<Run, Error>)
    ensures
        is_successful_result(r, run_id@, run),
{
    match run {
        None => Err(Error::RunNotFound(run_id.to_owned())),
        Some(run) => if str_eq(run.result_code.as_str(), "success") {
            Ok(run)
        } else {
            Err(Error::RunNotSuccessful(run_id.to_owned()))
        },
    }
}

/// Two runs, if there are both and both succeeded. Where neither did, it is the
/// first that counts.
pub fn get_run_pair(old_id: &str, new_id: &str, old: Option<Run>, new: Option<Run>) -> (r: Result<
    (Run, Run),
    Error,
>)
    ensures
        match r {
            Ok((old_run, new_run)) => is_successful_result(Ok(old_run), old_id@, old)
                && is_successful_result(Ok(new_run), new_id@, new),
            Err(e) => is_successful_result(Err(e), old_id@, old) || (old is Some
                && old->0.result_code@ == "success"@ && is_successful_result(Err(e), new_id@, new)),
        },
{
    match check_successful(old_id, old) {
        Err(e) => Err(e),
        Ok(old_run) => match check_successful(new_id, new) {
            Err(e) => Err(e),
            Ok(new_run) => Ok((old_run, new_run)),
        },
    }
}

/// A version is written with its epoch before a colon and its revision behind a
/// hyphen, each only where it has one.
pub proof fn lemma_version_is_written_in_its_parts(version: VersionView)
    ensures
        version.epoch is None && version.debian_revision is None ==> version_text(version)
            == version.upstream_version,
        version.epoch is None ==> version.upstream_version.is_prefix_of(version_text(version)),
        version.debian_revision is None ==> version.upstream_version.is_suffix_of(
            version_text(version),
        ),
        version.epoch matches Some(epoch) ==> (decimal(epoch as nat) + ":"@
            + version.upstream_version).is_prefix_of(version_text(version)),
        version.debian_revision matches Some(revision) ==> (version.upstream_version + "-"@
            + revision).is_suffix_of(version_text(version)),
{
    let text = version_text(version);
    let upstream = version.upstream_version;
    match version.epoch {
        Some(epoch) => {
            let start = decimal(epoch as nat) + ":"@ + upstream;
            assert(text.subrange(0, start.len() as int) =~= start);
        },
        None => {
            assert(text.subrange(0, upstream.len() as int) =~= upstream);
        },
    }
    match version.debian_revision {
        Some(revision) => {
            let end = upstream + "-"@ + revision;
            assert(text.subrange(text.len() - end.len(), text.len() as int) =~= end);
        },
        None => {
            assert(text.subrange(text.len() - upstream.len(), text.len() as int) =~= upstream);
        },
    }
    if version.epoch is None && version.debian_revision is None {
        assert(text =~= upstream);
    }
}

/// What a run does not say of its build is empty; the rest is as it says.
pub proof fn lemma_run_says_what_it_built(run: Run)
    ensures
        run.build_version is None ==> run_version(run).len() == 0,
        run.build_version matches Some(version) ==> run_version(run) == version_text(version@),
        run.build_source is None ==> run_source(run).len() == 0,
        run.build_source matches Some(source) ==> run_source(run) == source@,
{
    reveal_strlit("");
}

/// An id of a run is not empty, and is made of letters, digits, hyphens and
/// underscores; ids can be put together, and parts of them are ids.
pub proof fn lemma_run_ids_are_plain(id: Seq<char>, other: Seq<char>, i: int)
    ensures
        !is_run_id(Seq::empty()),
        is_run_id(id) && is_run_id(other) ==> is_run_id(id + other),
        is_run_id(id + other) && id.len() > 0 ==> is_run_id(id),
        is_run_id(id) && 0 <= i < id.len() ==> id[i] != '/' && id[i] != '.' && id[i] != ' ' && id[i]
            != '%' && id[i] != '?',
        is_run_id(id) ==> !id.contains('/'),
{
    let both = id + other;
    if is_run_id(id) && is_run_id(other) {
        assert forall|j: int| 0 <= j < both.len() implies is_run_id_char(#[trigger] both[j]) by {
            if j < id.len() {
                assert(is_run_id_char(id[j]));
            } else {
                assert(is_run_id_char(other[j - id.len()]));
            }
        }
    }
    if is_run_id(both) {
        assert forall|j: int| 0 <= j < id.len() implies is_run_id_char(#[trigger] id[j]) by {
            assert(is_run_id_char(both[j]));
        }
    }
    if is_run_id(id) {
        if 0 <= i < id.len() {
            assert(is_run_id_char(id[i]));
        }
        if id.contains('/') {
            let j = choose|j: int| 0 <= j < id.len() && id[j] == '/';
            assert(is_run_id_char(id[j]));
        }
    }
}

/// A run is compared only where it is known and succeeded, and it is then that run;
/// else the id is named that was asked for.
pub proof fn lemma_only_successful_runs_are_compared(
    r: Result<Run, Error>,
    run_id: Seq<char>,
    run: Option<Run>,
)
    requires
        is_successful_result(r, run_id, run),
    ensures
        r is Ok <==> run is Some && run->0.result_code@ == "success"@,
        r is Ok ==> r->Ok_0 == run->0,
        run is None ==> r->Err_0 is RunNotFound && r->Err_0->RunNotFound_0@ == run_id,
        run is Some && r is Err ==> r->Err_0 is RunNotSuccessful && r->Err_0->RunNotSuccessful_0@
            == run_id,
{
}

} // verus!
