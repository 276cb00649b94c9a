//! Names and URLs of branches.
use crate::publish::run::Run;
use crate::text::{opt_str_eq, opt_text, starts_with, str_eq, trim_end_char, trimmed_end};
use crate::text_map::TextMap;
use crate::urls::{UrlView, normal_form, normalize_url, parse_url, parsed_url};
use vstd::prelude::*;
use vstd::utf8::encode_utf8;

verus! {

/// The name that a campaign gives its branches.
pub open spec fn campaign_branch(branch_name: Option<Seq<char>>, name: Option<Seq<char>>) -> Seq<
    char,
> {
    match (branch_name, name) {
        (Some(branch_name), _) => branch_name,
        (None, Some(name)) => name,
        (None, None) => Seq::empty(),
    }
}

/// The name of a published branch: that of the campaign, with the role where a
/// run has several branches, and with the codebase where the hosting URL is
/// shared.
pub open spec fn derived_name(
    campaign: Seq<char>,
    one_branch: bool,
    role: Seq<char>,
    codebase: Seq<char>,
    shared: bool,
) -> Seq<char> {
    let base = if one_branch {
        campaign
    } else {
        campaign + "/"@ + role
    };
    if shared {
        base + "/"@ + codebase
    } else {
        base
    }
}

/// The name under which the branch of a run is published.
pub fn derived_branch_name(
    branch_name: Option<&str>,
    campaign_name: Option<&str>,
    run: &Run,
    role: &str,
    cotenants: Option<bool>,
) -> (r: String)
    ensures
        r@ == derived_name(
            campaign_branch(
                match branch_name {
                    Some(name) => Some(name@),
                    None => None,
                },
                match campaign_name {
                    Some(name) => Some(name@),
                    None => None,
                },
            ),
            run.result_branches is Some && run.result_branches->0@.len() == 1,
            role@,
            run.codebase@,
            cotenants == Some(true),
        ),
{
    let campaign = match branch_name {
        Some(name) => name.to_owned(),
        None => match campaign_name {
            Some(name) => name.to_owned(),
            None => String::new(),
        },
    };
    let count: usize = match &run.result_branches {
        Some(branches) => branches.len(),
        None => 0,
    };
    let base = if count == 1 {
        campaign
    } else {
        campaign.concat("/").concat(role)
    };
    match cotenants {
        Some(true) => base.concat("/").concat(run.codebase.as_str()),
        _ => base,
    }
}

/// The normal form of a branch URL, from which its parameters can be taken, where
/// it is a URL.
pub fn cotenant_base(branch_url: &str) -> (r: Option<String>)
    ensures
        opt_text(r) == normal_form(parsed_url(branch_url@)),
{
    normalize_url(branch_url)
}

/// The URL under which codebases are looked up that share the branch URL
/// `branch_url`: what its [`cotenant_base`] is without parameters, where it has
/// one, and else that URL itself, without slashes at its end.
pub fn cotenant_url(branch_url: &str, without_parameters: Option<&str>) -> (r: String)
    ensures
        r@ == trimmed_end(
            match without_parameters {
                Some(url) => url@,
                None => branch_url@,
            },
            '/',
        ),
{
    match without_parameters {
        Some(url) => trim_end_char(url, '/'),
        None => trim_end_char(branch_url, '/'),
    }
}

/// Whether a codebase shares its hosting URL with another, when the codebases
/// with that URL are those of the given names; nothing where there are none.
pub fn has_cotenants(codebase: &str, names: &Vec<String>) -> (r: Option<bool>)
    ensures
        r == (if names@.len() == 0 {
            None
        } else if names@.len() == 1 {
            Some(names@[0]@ != codebase@)
        } else {
            Some(true)
        }),
{
    if names.len() == 0 {
        None
    } else if names.len() == 1 {
        Some(!str_eq(names[0].as_str(), codebase))
    } else {
        Some(true)
    }
}

/// Whether a byte stands for itself in a URL.
pub open spec fn is_unreserved(b: u8) -> bool {
    ||| 48 <= b <= 57
    ||| 65 <= b <= 90
    ||| 97 <= b <= 122
    ||| b == 45
    ||| b == 46
    ||| b == 95
    ||| b == 126
}

/// The hexadecimal digit `d`.
pub open spec fn hex_digit(d: int) -> char {
    if d < 10 {
        (48 + d) as char
    } else {
        (55 + d) as char
    }
}

/// Bytes as they stand in a URL: those that do not stand for themselves as a
/// percent sign and two hexadecimal digits.
pub open spec fn percent_escaped(bytes: Seq<u8>) -> Seq<char>
    decreases bytes.len(),
{
    if bytes.len() == 0 {
        Seq::empty()
    } else {
        percent_escaped(bytes.drop_last()) + (if is_unreserved(bytes.last()) {
            seq![bytes.last() as char]
        } else {
            seq!['%', hex_digit(bytes.last() as int / 16), hex_digit(bytes.last() as int % 16)]
        })
    }
}

/// Calls `breezyshim::urlutils::escape_utf8` with no characters marked as safe:
/// the bytes of the text, letters, digits and `-_.~` as they are, the others
/// escaped.
#[verifier::external_body]
pub(crate) fn escape_segment(text: &str) -> (r: String)
    ensures
        r@ == percent_escaped(encode_utf8(text@)),
{
    breezyshim::urlutils::escape_utf8(text, Some(""))
}

/// How to get the URL of a role's branch.
#[derive(Debug)]
pub enum RoleBranchUrl {
    /// It is this one.
    AsIs(String),
    /// Set the parameter `branch` of a URL.
    SetBranch {
        /// The URL.
        url: String,
        /// The value.
        branch: String,
    },
}

/// How to get the URL of a role's branch: the repository's URL where the branch
/// has no name, and else that URL, without slashes at its end, with the name as a
/// parameter.
pub fn role_branch_url(url: &str, remote_branch_name: Option<&str>) -> (r: RoleBranchUrl)
    ensures
        match (remote_branch_name, normal_form(parsed_url(trimmed_end(url@, '/')))) {
            (Some(name), Some(base)) => r matches RoleBranchUrl::SetBranch { url, branch } && url@
                == base && branch@ == percent_escaped(encode_utf8(name@)),
            _ => r matches RoleBranchUrl::AsIs(same) && same@ == url@,
        },
{
    match remote_branch_name {
        None => RoleBranchUrl::AsIs(url.to_owned()),
        Some(name) => match normalize_url(trim_end_char(url, '/').as_str()) {
            None => RoleBranchUrl::AsIs(url.to_owned()),
            Some(base) => RoleBranchUrl::SetBranch { url: base, branch: escape_segment(name) },
        },
    }
}

/// The name of the branch in the parameters of a URL, where they hold one.
pub fn branch_parameter(parameters: &TextMap<String>) -> (r: Option<String>)
    requires
        parameters.wf(),
    ensures
        r == (if parameters@.dom().contains("branch"@) {
            Some(parameters@["branch"@])
        } else {
            None
        }),
{
    match parameters.get("branch") {
        Some(branch) => Some(branch.clone()),
        None => None,
    }
}

/// The parameters of the URL of a role's branch, from those of the repository.
pub fn with_branch(parameters: TextMap<String>, branch: String) -> (r: TextMap<String>)
    requires
        parameters.wf(),
    ensures
        r.wf(),
        r@ == parameters@.insert("branch"@, branch),
{
    let mut r = parameters;
    r.insert("branch".to_owned(), branch);
    r
}

/// Whether redirects are followed from a URL: those of the web.
pub open spec fn follows_redirects(url: Option<UrlView>) -> bool {
    url is Some && "http"@.is_prefix_of(url->0.scheme)
}

/// Whether redirects are followed from a URL.
pub fn may_redirect(url: &str) -> (r: bool)
    ensures
        r == follows_redirects(parsed_url(url@)),
{
    match parse_url(url) {
        Some(parts) => starts_with(parts.scheme.as_str(), "http"),
        None => false,
    }
}

/// Where a URL leads, when the web leads from it to `found`; the URL itself where
/// it leads nowhere, or to no URL.
pub open spec fn redirected(url: Seq<char>, found: Option<Seq<char>>) -> Seq<char> {
    match found {
        Some(found) => match normal_form(parsed_url(found)) {
            Some(other) => other,
            None => url,
        },
        None => url,
    }
}

/// Where a URL leads.
pub fn resolve_redirects(url: &str, found: Option<&str>) -> (r: String)
    ensures
        r@ == redirected(
            url@,
            match found {
                Some(found) => Some(found@),
                None => None,
            },
        ),
{
    match found {
        Some(found) => match normalize_url(found) {
            Some(other) => other,
            None => url.to_owned(),
        },
        None => url.to_owned(),
    }
}

/// What is known in the course of comparing two branches.
#[derive(Debug)]
pub struct BranchComparison {
    /// One branch.
    pub url_a: Option<String>,
    /// The other.
    pub url_b: Option<String>,
    /// Normal form of the first without slashes at its end, where that is a URL.
    pub plain_a: Option<String>,
    /// Normal form of the second without slashes at its end, where that is a URL.
    pub plain_b: Option<String>,
    /// Answer to [`BranchStep::Resolve`]: where the repositories are.
    pub resolved: Option<(String, String)>,
    /// Answer to [`BranchStep::OpenFirst`]; empty inside where there is no such
    /// branch.
    pub name_a: Option<Option<Option<String>>>,
    /// Answer to [`BranchStep::OpenSecond`]; empty inside where there is no such
    /// branch.
    pub name_b: Option<Option<Option<String>>>,
}

/// What to find out next.
#[derive(Debug)]
pub enum BranchStep {
    /// Take the parameters off both URLs, and see where the rest leads.
    Resolve {
        /// One URL.
        a: String,
        /// The other.
        b: String,
    },
    /// Open the first branch.
    OpenFirst {
        /// Where it is.
        url: String,
    },
    /// Open the second branch.
    OpenSecond {
        /// Where it is.
        url: String,
    },
    /// Nothing: this is whether they are the same.
    Done(bool),
}

/// The next step of comparing two branches.
pub open spec fn branches_next(f: BranchComparison) -> BranchStep {
    match (f.url_a, f.url_b) {
        (None, None) => BranchStep::Done(true),
        (None, Some(_)) => BranchStep::Done(false),
        (Some(_), None) => BranchStep::Done(false),
        (Some(a), Some(b)) => if a@ == b@ {
            BranchStep::Done(true)
        } else {
            match (f.plain_a, f.plain_b, f.resolved) {
                (None, _, _) => BranchStep::Done(false),
                (_, None, _) => BranchStep::Done(false),
                (Some(plain_a), Some(plain_b), None) => BranchStep::Resolve {
                    a: plain_a,
                    b: plain_b,
                },
                (_, _, Some((at_a, at_b))) => if trimmed_end(at_a@, '/') != trimmed_end(
                    at_b@,
                    '/',
                ) {
                    BranchStep::Done(false)
                } else {
                    match (f.name_a, f.name_b) {
                        (None, _) => BranchStep::OpenFirst { url: a },
                        (Some(None), _) => BranchStep::Done(false),
                        (_, None) => BranchStep::OpenSecond { url: b },
                        (_, Some(None)) => BranchStep::Done(false),
                        (Some(Some(name_a)), Some(Some(name_b))) => BranchStep::Done(
                            opt_text(name_a) == opt_text(name_b),
                        ),
                    }
                },
            }
        },
    }
}

/// The normal form of a URL without slashes at its end.
pub open spec fn plain_form(url: Option<String>) -> Option<Seq<char>> {
    match url {
        Some(url) => normal_form(parsed_url(trimmed_end(url@, '/'))),
        None => None,
    }
}

/// The normal form of a URL without slashes at its end.
fn plain(url: &Option<String>) -> (r: Option<String>)
    ensures
        opt_text(r) == plain_form(*url),
{
    match url {
        Some(url) => normalize_url(trim_end_char(url.as_str(), '/').as_str()),
        None => None,
    }
}

/// Starts to compare two branches.
pub fn branches_match(url_a: Option<String>, url_b: Option<String>) -> (r: BranchComparison)
    ensures
        r == (BranchComparison {
            url_a,
            url_b,
            plain_a: r.plain_a,
            plain_b: r.plain_b,
            resolved: None,
            name_a: None,
            name_b: None,
        }),
        opt_text(r.plain_a) == plain_form(url_a),
        opt_text(r.plain_b) == plain_form(url_b),
{
    let plain_a = plain(&url_a);
    let plain_b = plain(&url_b);
    BranchComparison {
        url_a,
        url_b,
        plain_a,
        plain_b,
        resolved: None,
        name_a: None,
        name_b: None,
    }
}

impl BranchComparison {
    /// What to find out next.
    pub fn next(&self) -> (r: BranchStep)
        ensures
            r == branches_next(*self),
    {
        let (a, b) = match (&self.url_a, &self.url_b) {
            (None, None) => {
                return BranchStep::Done(true);
            },
            (Some(a), Some(b)) => (a, b),
            _ => {
                return BranchStep::Done(false);
            },
        };
        if str_eq(a.as_str(), b.as_str()) {
            return BranchStep::Done(true);
        }
        let (plain_a, plain_b) = match (&self.plain_a, &self.plain_b) {
            (Some(plain_a), Some(plain_b)) => (plain_a, plain_b),
            _ => {
                return BranchStep::Done(false);
            },
        };
        let resolved = match &self.resolved {
            None => {
                return BranchStep::Resolve { a: plain_a.clone(), b: plain_b.clone() };
            },
            Some(resolved) => resolved,
        };
        let at_a = trim_end_char(resolved.0.as_str(), '/');
        let at_b = trim_end_char(resolved.1.as_str(), '/');
        if !str_eq(at_a.as_str(), at_b.as_str()) {
            return BranchStep::Done(false);
        }
        let name_a = match &self.name_a {
            None => {
                return BranchStep::OpenFirst { url: a.clone() };
            },
            Some(None) => {
                return BranchStep::Done(false);
            },
            Some(Some(name)) => name,
        };
        match &self.name_b {
            None => BranchStep::OpenSecond { url: b.clone() },
            Some(None) => BranchStep::Done(false),
            Some(Some(name_b)) => BranchStep::Done(opt_str_eq(name_a, name_b)),
        }
    }

    /// Notes down where the repositories are.
    pub fn note_resolved(&mut self, a: String, b: String)
        ensures
            *final(self) == (BranchComparison { resolved: Some((a, b)), ..*old(self) }),
    {
        self.resolved = Some((a, b));
    }

    /// Notes down the name of the first branch, if there is such a branch.
    pub fn note_first(&mut self, name: Option<Option<String>>)
        ensures
            *final(self) == (BranchComparison { name_a: Some(name), ..*old(self) }),
    {
        self.name_a = Some(name);
    }

    /// Notes down the name of the second branch, if there is such a branch.
    pub fn note_second(&mut self, name: Option<Option<String>>)
        ensures
            *final(self) == (BranchComparison { name_b: Some(name), ..*old(self) }),
    {
        self.name_b = Some(name);
    }
}

/// A URL always stands for the same branch as itself; and two different URLs are
/// said to stand for the same one only after both branches were opened.
pub proof fn lemma_same_url_same_branch(f: BranchComparison)
    ensures
        f.url_a == f.url_b ==> branches_next(f) == BranchStep::Done(true),
        opt_text(f.url_a) != opt_text(f.url_b) && branches_next(f) == BranchStep::Done(true)
            ==> f.name_a is Some && f.name_a->0 is Some && f.name_b is Some && f.name_b->0 is Some,
{
}

/// A branch of ours is named after its campaign; the roles of one run, and the
/// codebases that share a repository, get names of their own.
pub proof fn lemma_names_of_branches_are_apart(
    campaign: Seq<char>,
    one_branch: bool,
    role: Seq<char>,
    other_role: Seq<char>,
    codebase: Seq<char>,
    other_codebase: Seq<char>,
    shared: bool,
)
    ensures
        campaign.is_prefix_of(derived_name(campaign, one_branch, role, codebase, shared)),
        derived_name(campaign, true, role, codebase, false) == campaign,
        derived_name(campaign, true, role, codebase, shared) == derived_name(
            campaign,
            true,
            other_role,
            codebase,
            shared,
        ),
        role != other_role ==> derived_name(campaign, false, role, codebase, shared)
            != derived_name(campaign, false, other_role, codebase, shared),
        codebase != other_codebase ==> derived_name(campaign, one_branch, role, codebase, true)
            != derived_name(campaign, one_branch, role, other_codebase, true),
        role.is_suffix_of(derived_name(campaign, false, role, codebase, false)),
        codebase.is_suffix_of(derived_name(campaign, one_branch, role, codebase, true)),
        derived_name(campaign, one_branch, role, codebase, false) == derived_name(
            campaign,
            one_branch,
            role,
            other_codebase,
            false,
        ),
{
    reveal_strlit("/");
    assert("/"@.len() == 1);
    let base = if one_branch {
        campaign
    } else {
        campaign + "/"@ + role
    };
    let name = derived_name(campaign, one_branch, role, codebase, shared);
    assert(name.subrange(0, campaign.len() as int) =~= campaign);
    let own = campaign + "/"@ + role;
    assert(own.subrange(own.len() - role.len(), own.len() as int) =~= role);
    let full = base + "/"@ + codebase;
    assert(full.subrange(full.len() - codebase.len(), full.len() as int) =~= codebase);
    let k = campaign.len() as int + 1;
    let m = k + role.len();
    let mine = derived_name(campaign, false, role, codebase, shared);
    let theirs = derived_name(campaign, false, other_role, codebase, shared);
    if mine == theirs {
        if shared {
            assert(mine =~= campaign + "/"@ + role + "/"@ + codebase);
            assert(theirs =~= campaign + "/"@ + other_role + "/"@ + codebase);
            assert(mine.len() == k + role.len() + 1 + codebase.len());
            assert(theirs.len() == k + other_role.len() + 1 + codebase.len());
        } else {
            assert(mine.len() == k + role.len());
            assert(theirs.len() == k + other_role.len());
        }
        assert(role.len() == other_role.len());
        assert(mine.subrange(k, m) =~= role);
        assert(theirs.subrange(k, m) =~= other_role);
    }
    let here = derived_name(campaign, one_branch, role, codebase, true);
    let there = derived_name(campaign, one_branch, role, other_codebase, true);
    if here == there {
        assert(codebase.len() == other_codebase.len());
        assert(here.skip(base.len() as int + 1) =~= codebase);
        assert(there.skip(base.len() as int + 1) =~= other_codebase);
    }
}

/// The name that a campaign gives for its branches counts before its own name.
pub proof fn lemma_given_branch_name_counts_first(
    branch_name: Option<Seq<char>>,
    name: Option<Seq<char>>,
)
    ensures
        branch_name is Some ==> campaign_branch(branch_name, name) == branch_name->0,
        branch_name is None && name is Some ==> campaign_branch(branch_name, name) == name->0,
        branch_name is None && name is None ==> campaign_branch(branch_name, name).len() == 0,
{
}

/// A URL is left as it is unless another one was found that can be used.
pub proof fn lemma_redirect_needs_a_url(url: Seq<char>, found: Option<Seq<char>>)
    ensures
        found is None ==> redirected(url, found) == url,
        found is Some && normal_form(parsed_url(found->0)) is None ==> redirected(url, found) == url,
        found is Some && normal_form(parsed_url(found->0)) is Some ==> Some(redirected(url, found))
            == normal_form(parsed_url(found->0)),
{
}

/// Two URLs are of one branch only where they are the same, or lead to one place and
/// the branches there go by one name; each is opened under its own URL, and only when
/// they lead to one place.
pub proof fn lemma_same_branch_needs_same_place_and_name(f: BranchComparison)
    requires
        f.url_a is Some && f.url_b is Some,
        f.url_a->0@ != f.url_b->0@,
    ensures
        branches_next(f) == BranchStep::Done(true) ==> {
            &&& f.resolved is Some
            &&& trimmed_end((f.resolved->0).0@, '/') == trimmed_end((f.resolved->0).1@, '/')
            &&& f.name_a is Some && f.name_a->0 is Some
            &&& f.name_b is Some && f.name_b->0 is Some
            &&& opt_text(f.name_a->0->0) == opt_text(f.name_b->0->0)
        },
        branches_next(f) matches BranchStep::Resolve { a, b } ==> f.plain_a == Some(a) && f.plain_b
            == Some(b) && f.resolved is None,
        branches_next(f) matches BranchStep::OpenFirst { url } ==> f.url_a == Some(url)
            && f.name_a is None,
        branches_next(f) matches BranchStep::OpenSecond { url } ==> f.url_b == Some(url)
            && f.name_b is None,
        branches_next(f) is OpenFirst || branches_next(f) is OpenSecond ==> {
            &&& f.resolved is Some
            &&& trimmed_end((f.resolved->0).0@, '/') == trimmed_end((f.resolved->0).1@, '/')
        },
{
}

/// Two URLs that lead to one place, where the branches go by one name, are of one
/// branch.
pub proof fn lemma_same_place_and_name_is_same_branch(f: BranchComparison)
    requires
        f.url_a is Some && f.url_b is Some,
        f.plain_a is Some && f.plain_b is Some,
        f.resolved is Some,
        trimmed_end((f.resolved->0).0@, '/') == trimmed_end((f.resolved->0).1@, '/'),
        f.name_a is Some && f.name_a->0 is Some,
        f.name_b is Some && f.name_b->0 is Some,
    ensures
        opt_text(f.name_a->0->0) == opt_text(f.name_b->0->0) ==> branches_next(f)
            == BranchStep::Done(true),
        f.url_a->0@ != f.url_b->0@ && opt_text(f.name_a->0->0) != opt_text(f.name_b->0->0)
            ==> branches_next(f) == BranchStep::Done(false),
{
}

/// Only what is fetched over HTTP can be led elsewhere.
pub proof fn lemma_only_http_is_led_elsewhere(url: Option<UrlView>)
    ensures
        follows_redirects(url) ==> url is Some && "http"@.is_prefix_of(url->0.scheme),
        url is Some && (url->0.scheme == "http"@ || url->0.scheme == "https"@)
            ==> follows_redirects(url),
{
    reveal_strlit("http");
    reveal_strlit("https");
    assert("https"@.subrange(0, 4) =~= "http"@);
    assert("http"@.subrange(0, 4) =~= "http"@);
}

} // verus!
