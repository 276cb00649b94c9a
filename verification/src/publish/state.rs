//! Records of the database that the publisher works on.
use crate::text::{
    before_first, contains_text, head_before, opt_str_eq, opt_text, str_eq, texts, trim_end_char,
    trim_start_char, trimmed_end, trimmed_start,
};
use crate::urls::{UrlParts, UrlView, normal_form, normalize_url, parse_url, parsed_url, url_view};
use vstd::prelude::*;
use vstd::utf8::{decode_utf8, encode_utf8, valid_utf8};

verus! {

/// The run that a merge proposal came from.
#[derive(Debug)]
pub struct MergeProposalRun {
    /// Run id.
    pub id: String,
    /// Campaign name.
    pub campaign: String,
    /// URL of the branch that the run worked on.
    pub branch_url: String,
    /// Command that produced the run.
    pub command: String,
    /// Value of the candidate that asked for the run.
    pub value: i64,
    /// Role of the result branch that became the proposal.
    pub role: String,
    /// Remote name of that branch; empty where none was recorded.
    pub remote_branch_name: String,
    /// Revision of that branch.
    pub revision: String,
    /// Codebase that the run belongs to.
    pub codebase: String,
    /// Change set id.
    pub change_set: String,
}

/// A result branch that has not been published yet.
#[derive(Debug)]
pub struct UnpublishedBranch {
    /// Role of the branch.
    pub role: String,
    /// Name of the remote branch.
    pub remote_name: Option<String>,
    /// Revision that the run started from.
    pub base_revision: Option<String>,
    /// Revision that the run arrived at.
    pub revision: Option<String>,
    /// How to publish it.
    pub publish_mode: Option<String>,
    /// Days between two attempts, at least.
    pub max_frequency_days: Option<i32>,
    /// Name of the branch.
    pub name: Option<String>,
}


/// Finds the codebase whose branch URL is among the given ones.
pub const GUESS_CODEBASE_QUERY_SQL: &'static str = "
SELECT
  name, branch_url
FROM
  codebase
WHERE
  TRIM(trailing '/' from branch_url) = ANY($1::text[])
ORDER BY length(branch_url) DESC
";

/// Loads the last run of a campaign on a codebase that had an effect. The columns
/// of types that the database defines are read as text, and times with their
/// zone.
pub const LAST_EFFECTIVE_RUN_SQL: &'static str = "
SELECT
    id, command,
    (start_time AT TIME ZONE 'UTC') AS start_time,
    (finish_time AT TIME ZONE 'UTC') AS finish_time,
    description,
    result_code,
    value, main_branch_revision, revision, context, result, suite,
    instigated_context, vcs_type::text AS vcs_type, branch_url, logfilenames,
    worker,
    array(SELECT row(role, remote_name, base_revision,
     revision) FROM new_result_branch WHERE run_id = id) AS result_branches,
    result_tags, target_branch_url, change_set AS change_set,
    failure_transient, failure_stage, failure_details, codebase
FROM
    last_effective_runs
WHERE codebase = $1 AND suite = $2
LIMIT 1
";

/// Loads a run, with the columns of [`LAST_EFFECTIVE_RUN_SQL`].
pub const RUN_SQL: &'static str = "
SELECT
    id, command,
    (start_time AT TIME ZONE 'UTC') AS start_time,
    (finish_time AT TIME ZONE 'UTC') AS finish_time,
    description,
    result_code,
    value, main_branch_revision, revision, context, result, suite,
    instigated_context, vcs_type::text AS vcs_type, branch_url, logfilenames,
    worker,
    array(SELECT row(role, remote_name, base_revision,
     revision) FROM new_result_branch WHERE run_id = id) AS result_branches,
    result_tags, target_branch_url, change_set AS change_set,
    failure_transient, failure_stage, failure_details, codebase
FROM
    run
WHERE id = $1
";

/// `list` with `s` at its end, unless it is in there already.
pub open spec fn with_text(list: Seq<Seq<char>>, s: Seq<char>) -> Seq<Seq<char>> {
    if list.contains(s) {
        list
    } else {
        list.push(s)
    }
}

/// Query and fragment as they stand in a URL.
pub open spec fn url_tail(view: UrlView) -> Seq<char> {
    (match view.query {
        Some(query) => "?"@ + query,
        None => Seq::empty(),
    }) + (match view.fragment {
        Some(fragment) => "#"@ + fragment,
        None => Seq::empty(),
    })
}

/// A URL with another scheme, up to the host.
pub open spec fn on_scheme(start: Seq<char>, view: UrlView) -> Seq<char> {
    start + view.host->0 + "/"@ + trimmed_start(view.path, '/') + url_tail(view)
}

/// `list` with a URL and with the other URLs under which forges commonly offer
/// the same repository, each unless it is in there already.
pub open spec fn with_variants(
    list: Seq<Seq<char>>,
    url: Seq<char>,
    view: Option<UrlView>,
) -> Seq<Seq<char>> {
    let own = with_text(list, url);
    match view {
        Some(view) => if view.host is None {
            own
        } else if view.scheme == "git+ssh"@ || view.scheme == "ssh"@ {
            with_text(own, on_scheme("https://"@, view))
        } else if view.scheme == "https"@ || view.scheme == "http"@ {
            with_text(
                with_text(own, on_scheme("git+ssh://git@"@, view)),
                on_scheme("ssh://git@"@, view),
            )
        } else {
            own
        },
        None => own,
    }
}

/// Puts `s` at the end of `list`, unless it is in there already.
fn push_text(list: &mut Vec<String>, s: String)
    ensures
        texts(final(list)@) == with_text(texts(old(list)@), s@),
{
    let known = contains_text(list, s.as_str());
    proof {
        assert(known == texts(list@).contains(s@)) by {
            if known {
                let i = choose|i: int| 0 <= i < list@.len() && (#[trigger] list@[i])@ == s@;
                assert(texts(list@)[i] == s@);
            }
            if texts(list@).contains(s@) {
                let i = choose|i: int| 0 <= i < texts(list@).len() && texts(list@)[i] == s@;
                assert(list@[i]@ == s@);
            }
        }
    }
    if !known {
        let ghost before = list@;
        list.push(s);
        assert(texts(list@) =~= texts(before).push(s@));
    }
}

/// Puts a URL into `list`, and with it the other URLs under which forges commonly
/// offer the same repository, when `parts` are those of the URL.
pub fn push_variants(list: &mut Vec<String>, url: &str, parts: &Option<UrlParts>)
    ensures
        texts(final(list)@) == with_variants(texts(old(list)@), url@, url_view(*parts)),
{
    push_text(list, url.to_owned());
    let parts = match parts {
        Some(parts) => parts,
        None => {
            return;
        },
    };
    let host = match &parts.host {
        Some(host) => host,
        None => {
            return;
        },
    };
    let path = trim_start_char(parts.path.as_str(), '/');
    let mut tail = String::new();
    if let Some(query) = &parts.query {
        tail.append("?");
        tail.append(query.as_str());
    }
    if let Some(fragment) = &parts.fragment {
        tail.append("#");
        tail.append(fragment.as_str());
    }
    let rest = host.clone().concat("/").concat(path.as_str()).concat(tail.as_str());
    let scheme = parts.scheme.as_str();
    proof {
        assert(tail@ =~= url_tail(parts@));
        assert("https://"@ + rest@ =~= on_scheme("https://"@, parts@));
        assert("git+ssh://git@"@ + rest@ =~= on_scheme("git+ssh://git@"@, parts@));
        assert("ssh://git@"@ + rest@ =~= on_scheme("ssh://git@"@, parts@));
    }
    if str_eq(scheme, "git+ssh") || str_eq(scheme, "ssh") {
        push_text(list, "https://".to_owned().concat(rest.as_str()));
    } else if str_eq(scheme, "https") || str_eq(scheme, "http") {
        push_text(list, "git+ssh://git@".to_owned().concat(rest.as_str()));
        push_text(list, "ssh://git@".to_owned().concat(rest.as_str()));
    }
}

/// Puts a URL into `list`, and with it the other URLs under which forges commonly
/// offer the same repository.
pub fn push_scheme_variants(list: &mut Vec<String>, url: &str)
    ensures
        texts(final(list)@) == with_variants(texts(old(list)@), url@, parsed_url(url@)),
{
    let parts = parse_url(url);
    push_variants(list, url, &parts);
}

/// A text without slashes at its end.
pub fn trim_trailing_slash(s: &str) -> (r: String)
    ensures
        r@ == trimmed_end(s@, '/'),
{
    trim_end_char(s, '/')
}

/// How to look for the codebase that a branch URL belongs to.
#[derive(Debug)]
pub struct GuessCodebaseQuery {
    /// The URL without slashes at its end.
    pub url_trimmed: String,
    /// The URLs to look for.
    pub candidates: Vec<String>,
    /// Name of the branch, if the URL holds one.
    pub branch: Option<String>,
}

/// The value of a hexadecimal digit.
pub open spec fn hex_value(b: u8) -> Option<u8> {
    if 48 <= b <= 57 {
        Some((b - 48) as u8)
    } else if 65 <= b <= 70 {
        Some((b - 55) as u8)
    } else if 97 <= b <= 102 {
        Some((b - 87) as u8)
    } else {
        None
    }
}

/// Bytes with each percent sign that two hexadecimal digits follow replaced by
/// the byte that the digits stand for.
pub open spec fn percent_decoded(bytes: Seq<u8>) -> Seq<u8>
    decreases bytes.len(),
{
    if bytes.len() == 0 {
        bytes
    } else if bytes.len() >= 3 && bytes[0] == 37 && hex_value(bytes[1]) is Some && hex_value(
        bytes[2],
    ) is Some {
        seq![(hex_value(bytes[1])->0 * 16 + hex_value(bytes[2])->0) as u8] + percent_decoded(
            bytes.skip(3),
        )
    } else {
        seq![bytes[0]] + percent_decoded(bytes.drop_first())
    }
}

/// The text that a part of a URL stands for; the part itself where it does not
/// stand for text.
pub open spec fn unescaped(text: Seq<char>) -> Seq<char> {
    let bytes = percent_decoded(encode_utf8(text));
    if valid_utf8(bytes) {
        decode_utf8(bytes)
    } else {
        text
    }
}

/// Calls `breezyshim::urlutils::unescape_utf8`: percent signs are resolved, and
/// the text is left alone where the bytes that come of it are no UTF-8.
#[verifier::external_body]
pub(crate) fn unescape_segment(text: &str) -> (r: String)
    ensures
        r@ == unescaped(text@),
{
    breezyshim::urlutils::unescape_utf8(text)
}

/// The URLs to look for, for a URL and the repository in it, both without slashes
/// at their ends.
pub open spec fn guess_candidates(url: Seq<char>, repository: Seq<char>) -> Seq<Seq<char>> {
    let own = with_variants(Seq::empty(), url, parsed_url(url));
    if repository != url {
        with_variants(own, repository, parsed_url(repository))
    } else {
        own
    }
}

/// The normal form of a branch URL without slashes at its end, from which its
/// parameters can be taken, where it is a URL.
pub fn guess_codebase_url(url: &str) -> (r: Option<String>)
    ensures
        opt_text(r) == normal_form(parsed_url(trimmed_end(url@, '/'))),
{
    normalize_url(trim_trailing_slash(url).as_str())
}

/// How to look for the codebase that a branch URL belongs to, when the URL is
/// made up of a repository and, where it has one, a branch parameter.
pub fn build_guess_codebase_query(url: &str, repository: &str, branch: Option<&str>) -> (r:
    GuessCodebaseQuery)
    ensures
        r.url_trimmed@ == trimmed_end(url@, '/'),
        texts(r.candidates@) == guess_candidates(
            trimmed_end(url@, '/'),
            trimmed_end(repository@, '/'),
        ),
        opt_text(r.branch) == (match branch {
            Some(branch) => Some(unescaped(branch@)),
            None => None,
        }),
{
    let url_trimmed = trim_trailing_slash(url);
    let repository_trimmed = trim_trailing_slash(repository);
    let mut candidates: Vec<String> = Vec::new();
    assert(texts(candidates@) =~= Seq::<Seq<char>>::empty());
    push_scheme_variants(&mut candidates, url_trimmed.as_str());
    if !str_eq(repository_trimmed.as_str(), url_trimmed.as_str()) {
        push_scheme_variants(&mut candidates, repository_trimmed.as_str());
    }
    let branch = match branch {
        Some(branch) => Some(unescape_segment(branch)),
        None => None,
    };
    GuessCodebaseQuery { url_trimmed, candidates, branch }
}

/// What to make of the codebase that was found.
#[derive(Debug)]
pub enum CodebaseGuess {
    /// There is none, or it cannot be told.
    Unknown,
    /// It is this one.
    Known(String),
    /// It is the one that was found if the branch with this URL is the one that
    /// was looked for.
    Compare {
        /// The URL.
        branch_url: String,
    },
}

/// What to make of the codebase that was found, given by its name and its branch
/// URL.
pub fn judge_codebase(url_trimmed: &str, found: Option<(String, String)>) -> (r: CodebaseGuess)
    ensures
        match found {
            None => r is Unknown,
            Some((name, branch_url)) => if url_trimmed@ == trimmed_end(branch_url@, '/') {
                r == CodebaseGuess::Known(name)
            } else {
                match normal_form(parsed_url(branch_url@)) {
                    None => r is Unknown,
                    Some(normal) => r matches CodebaseGuess::Compare { branch_url } && branch_url@
                        == normal,
                }
            },
        },
{
    match found {
        None => CodebaseGuess::Unknown,
        Some((name, branch_url)) => {
            if str_eq(url_trimmed, trim_trailing_slash(branch_url.as_str()).as_str()) {
                return CodebaseGuess::Known(name);
            }
            match normalize_url(branch_url.as_str()) {
                None => CodebaseGuess::Unknown,
                Some(normal) => CodebaseGuess::Compare { branch_url: normal },
            }
        },
    }
}

/// Whether the branch of a codebase, given by its URL and name, is the one that
/// was looked for.
pub fn is_looked_for(
    url: &str,
    branch: &Option<String>,
    found_url: &str,
    found_name: &Option<String>,
) -> (r: bool)
    ensures
        r == (trimmed_end(found_url@, '/') == trimmed_end(url@, '/') || opt_text(*found_name)
            == opt_text(*branch)),
{
    str_eq(trim_trailing_slash(found_url).as_str(), trim_trailing_slash(url).as_str()) || opt_str_eq(
        found_name,
        branch,
    )
}

/// Codebase and bucket of a proposal, given those of the runs that it can come
/// from; nothing where it can come from none or from several.
pub fn guess_proposal_info_from_revision(rows: Vec<(String, Option<String>)>) -> (r: (
    Option<String>,
    Option<String>,
))
    ensures
        r == (if rows@.len() == 1 {
            (Some(rows@[0].0), rows@[0].1)
        } else {
            (None, None)
        }),
{
    if rows.len() == 1 {
        (Some(rows[0].0.clone()), rows[0].1.clone())
    } else {
        (None, None)
    }
}

/// The campaign that a source branch belongs to: what stands before the first
/// slash in its name.
pub fn source_branch_campaign(source_branch_name: &str) -> (r: String)
    ensures
        r@ == before_first(source_branch_name@, '/'),
{
    head_before(source_branch_name, '/')
}

/// The open proposal of a branch, given its revision and URL as they are stored;
/// nothing where that URL is none.
pub fn get_open_merge_proposal(row: Option<(String, String)>) -> (r: Option<(String, String)>)
    ensures
        match row {
            None => r is None,
            Some((revision, url)) => match normal_form(parsed_url(url@)) {
                None => r is None,
                Some(normal) => r matches Some(found) && found.0 == revision && found.1@ == normal,
            },
        },
{
    match row {
        None => None,
        Some((revision, url)) => match normalize_url(url.as_str()) {
            None => None,
            Some(normal) => Some((revision, normal)),
        },
    }
}

/// Which runs are ready to be published: the approved ones of a change set that
/// is ready or being published, with a branch that is to be published, those of a
/// change set that is being published first, and of these the most valuable and
/// latest.
pub fn publish_ready_conditions(one_run: bool) -> (r: String)
    ensures
        r@ == (if one_run {
            "id = $1"@
        } else {
            "True"@
        })
            + " AND publish_status = 'approved' AND change_set_state IN ('ready', 'publishing') AND exists (select from unnest(unpublished_branches) where mode in ('propose', 'attempt-push', 'push-derived', 'push')) ORDER BY change_set_state = 'publishing' DESC, value DESC NULLS LAST, finish_time DESC"@,
{
    let start = if one_run {
        "id = $1".to_owned()
    } else {
        "True".to_owned()
    };
    start.concat(
        " AND publish_status = 'approved' AND change_set_state IN ('ready', 'publishing') AND exists (select from unnest(unpublished_branches) where mode in ('propose', 'attempt-push', 'push-derived', 'push')) ORDER BY change_set_state = 'publishing' DESC, value DESC NULLS LAST, finish_time DESC",
    )
}

/// Nothing occurs twice in a list.
pub open spec fn all_different(list: Seq<Seq<char>>) -> bool {
    forall|i: int, j: int|
        0 <= i < list.len() && 0 <= j < list.len() && #[trigger] list[i] == #[trigger] list[j]
            ==> i == j
}

/// The URLs to look for are all different.
pub proof fn lemma_candidates_are_different(url: Seq<char>, repository: Seq<char>)
    ensures
        all_different(guess_candidates(url, repository)),
        guess_candidates(url, repository).contains(url),
        guess_candidates(url, repository).contains(repository),
{
    let own = with_variants(Seq::empty(), url, parsed_url(url));
    lemma_variants_are_different(Seq::empty(), url, parsed_url(url));
    lemma_variants_are_different(own, repository, parsed_url(repository));
}

/// Adding the variants of a URL keeps a list free of duplicates, and what is in
/// it in it.
proof fn lemma_variants_are_different(list: Seq<Seq<char>>, url: Seq<char>, view: Option<UrlView>)
    requires
        all_different(list),
    ensures
        all_different(with_variants(list, url, view)),
        with_variants(list, url, view).contains(url),
        forall|s: Seq<char>| list.contains(s) ==> #[trigger] with_variants(list, url, view).contains(
            s,
        ),
{
    let own = with_text(list, url);
    lemma_text_is_different(list, url);
    if view is Some && view->0.host is Some {
        lemma_text_is_different(own, on_scheme("https://"@, view->0));
        let ssh = with_text(own, on_scheme("git+ssh://git@"@, view->0));
        lemma_text_is_different(own, on_scheme("git+ssh://git@"@, view->0));
        lemma_text_is_different(ssh, on_scheme("ssh://git@"@, view->0));
    }
}

/// Adding a text keeps a list free of duplicates, and what is in it in it.
proof fn lemma_text_is_different(list: Seq<Seq<char>>, s: Seq<char>)
    requires
        all_different(list),
    ensures
        all_different(with_text(list, s)),
        with_text(list, s).contains(s),
        forall|t: Seq<char>| list.contains(t) ==> #[trigger] with_text(list, s).contains(t),
{
    let after = with_text(list, s);
    if !list.contains(s) {
        assert(after[list.len() as int] == s);
        assert forall|t: Seq<char>| list.contains(t) implies #[trigger] after.contains(t) by {
            let i = choose|i: int| 0 <= i < list.len() && list[i] == t;
            assert(after[i] == t);
        }
        assert forall|i: int, j: int|
            0 <= i < after.len() && 0 <= j < after.len() && #[trigger] after[i]
                == #[trigger] after[j] implies i == j by {
            if i < list.len() && j < list.len() {
                assert(list[i] == list[j]);
            } else if i < list.len() {
                assert(list[i] == s);
            } else if j < list.len() {
                assert(list[j] == s);
            }
        }
    }
}

/// A repository that is reached over SSH is also looked for over HTTPS, and one that
/// is reached over HTTP also over SSH; host, path and what follows it stay the same.
pub proof fn lemma_repository_is_looked_for_both_ways(
    list: Seq<Seq<char>>,
    url: Seq<char>,
    view: UrlView,
)
    requires
        view.host is Some,
    ensures
        view.scheme == "ssh"@ || view.scheme == "git+ssh"@ ==> with_variants(
            list,
            url,
            Some(view),
        ).contains(
            "https://"@ + view.host->0 + "/"@ + trimmed_start(view.path, '/') + url_tail(view),
        ),
        view.scheme == "https"@ || view.scheme == "http"@ ==> {
            &&& with_variants(list, url, Some(view)).contains(
                "ssh://git@"@ + view.host->0 + "/"@ + trimmed_start(view.path, '/') + url_tail(view),
            )
            &&& with_variants(list, url, Some(view)).contains(
                "git+ssh://git@"@ + view.host->0 + "/"@ + trimmed_start(view.path, '/') + url_tail(
                    view,
                ),
            )
        },
{
    reveal_strlit("ssh");
    reveal_strlit("git+ssh");
    reveal_strlit("https");
    reveal_strlit("http");
    assert("ssh"@.len() == 3 && "git+ssh"@.len() == 7 && "https"@.len() == 5 && "http"@.len() == 4);
    let own = with_text(list, url);
    let https = on_scheme("https://"@, view);
    let git = on_scheme("git+ssh://git@"@, view);
    let ssh = on_scheme("ssh://git@"@, view);
    lemma_text_is_there(own, https);
    lemma_text_is_there(own, git);
    lemma_text_is_there(with_text(own, git), ssh);
}

/// Besides what was in the list, the URL and its forms under other schemes, nothing
/// is looked for, and what was in the list stays in its place.
pub proof fn lemma_only_forms_of_the_url_are_looked_for(
    list: Seq<Seq<char>>,
    url: Seq<char>,
    view: Option<UrlView>,
    s: Seq<char>,
)
    ensures
        list.is_prefix_of(with_variants(list, url, view)),
        with_variants(list, url, view).len() <= list.len() + 3,
        with_variants(list, url, view).contains(s) ==> {
            ||| list.contains(s)
            ||| s == url
            ||| view is Some && view->0.host is Some && exists|start: Seq<char>|
                s == #[trigger] (start + view->0.host->0 + "/"@ + trimmed_start(view->0.path, '/')
                    + url_tail(view->0))
        },
        view is None || view->0.host is None ==> with_variants(list, url, view).len() <= list.len()
            + 1,
{
    let own = with_text(list, url);
    lemma_text_is_there(list, url);
    lemma_text_is_last(list, url, s);
    if view is Some && view->0.host is Some {
        let https = on_scheme("https://"@, view->0);
        let git = on_scheme("git+ssh://git@"@, view->0);
        let ssh = on_scheme("ssh://git@"@, view->0);
        lemma_text_is_there(own, https);
        lemma_text_is_last(own, https, s);
        lemma_text_is_there(own, git);
        lemma_text_is_last(own, git, s);
        lemma_text_is_there(with_text(own, git), ssh);
        lemma_text_is_last(with_text(own, git), ssh, s);
        lemma_prefix_of_prefix(list, own, with_text(own, https));
        lemma_prefix_of_prefix(list, own, with_text(own, git));
        lemma_prefix_of_prefix(list, with_text(own, git), with_text(with_text(own, git), ssh));
    }
}

/// A text that is added is there, and so is the list it was added to.
proof fn lemma_text_is_there(list: Seq<Seq<char>>, s: Seq<char>)
    ensures
        with_text(list, s).contains(s),
        list.is_prefix_of(with_text(list, s)),
        with_text(list, s).len() <= list.len() + 1,
        forall|t: Seq<char>| #[trigger] list.contains(t) ==> with_text(list, s).contains(t),
{
    let after = with_text(list, s);
    if !list.contains(s) {
        assert(after[list.len() as int] == s);
        assert forall|t: Seq<char>| #[trigger] list.contains(t) implies after.contains(t) by {
            let i = choose|i: int| 0 <= i < list.len() && list[i] == t;
            assert(after[i] == t);
        }
    }
    assert(after.subrange(0, list.len() as int) =~= list);
}

/// Adding a text adds no other one.
proof fn lemma_text_is_last(list: Seq<Seq<char>>, s: Seq<char>, t: Seq<char>)
    ensures
        with_text(list, s).contains(t) ==> list.contains(t) || t == s,
{
    if with_text(list, s).contains(t) && !list.contains(s) {
        let i = choose|i: int| 0 <= i < list.push(s).len() && list.push(s)[i] == t;
        if i < list.len() {
            assert(list[i] == t);
        }
    }
}

/// The start of a start is a start.
proof fn lemma_prefix_of_prefix(a: Seq<Seq<char>>, b: Seq<Seq<char>>, c: Seq<Seq<char>>)
    requires
        a.is_prefix_of(b),
        b.is_prefix_of(c),
    ensures
        a.is_prefix_of(c),
{
    assert(c.subrange(0, a.len() as int) =~= a) by {
        assert forall|i: int| 0 <= i < a.len() implies c[i] == a[i] by {
            assert(b.subrange(0, a.len() as int)[i] == b[i]);
            assert(c.subrange(0, b.len() as int)[i] == c[i]);
        }
    }
}

/// What follows the path of a URL is its query, then its fragment, each behind its
/// own mark, and nothing where there is neither.
pub proof fn lemma_tail_is_query_then_fragment(view: UrlView)
    ensures
        view.query is None && view.fragment is None ==> url_tail(view).len() == 0,
        view.fragment is Some ==> ("#"@ + view.fragment->0).is_suffix_of(url_tail(view)),
        view.query is Some ==> ("?"@ + view.query->0).is_prefix_of(url_tail(view)),
        view.query is Some && view.fragment is None ==> url_tail(view) == "?"@ + view.query->0,
        view.query is None && view.fragment is Some ==> url_tail(view) == "#"@ + view.fragment->0,
{
    let tail = url_tail(view);
    if let Some(fragment) = view.fragment {
        let end = "#"@ + fragment;
        assert(tail.subrange(tail.len() - end.len(), tail.len() as int) =~= end);
    }
    if let Some(query) = view.query {
        let start = "?"@ + query;
        assert(tail.subrange(0, start.len() as int) =~= start);
    }
}

} // verus!
