//! Answering requests for a difference.
use crate::differ::diffoscope::boring::{filter_boring, shown_top};
use crate::differ::diffoscope::tree::{
    DiffoscopeOutput, TreeView, base_name, filter_irrelevant, tree_view,
};
use crate::differ::error::Error;
use crate::differ::negotiate::form_texts;
use crate::differ::runs::{Run, is_run_id, run_source, run_version, validate_run_id};
use crate::text::{before_last, decode_text, join, joined, str_eq, texts};
use vstd::prelude::*;
use vstd::utf8::{decode_utf8, valid_utf8};

verus! {

/// What a run is called in a difference.
pub open spec fn run_label(run: Run) -> Seq<char> {
    run_source(run) + " version "@ + run_version(run) + " ("@ + run.campaign@ + ")"@
}

/// What a run is called in a difference.
pub fn label_run(run: &Run) -> (r: String)
    ensures
        r@ == run_label(*run),
{
    run.build_source_str().to_owned().concat(" version ").concat(
        run.build_version_str().as_str(),
    ).concat(" (").concat(run.campaign.as_str()).concat(")")
}

/// The title of a difference.
pub open spec fn diff_title(run: Run, filtered: bool) -> Seq<char> {
    let title = "diffoscope for "@ + run.campaign@ + " applied to "@ + run_source(run);
    if filtered {
        title + " (filtered)"@
    } else {
        title
    }
}

/// The title of a difference.
pub fn title_of(run: &Run, filtered: bool) -> (r: String)
    ensures
        r@ == diff_title(*run, filtered),
{
    let title = "diffoscope for ".to_owned().concat(run.campaign.as_str()).concat(
        " applied to ",
    ).concat(run.build_source_str());
    if filtered {
        title.concat(" (filtered)")
    } else {
        title
    }
}

/// A tree as it is shown: named after the runs, and without what nobody wants to
/// see where that is asked for.
pub open spec fn shown_tree(tree: TreeView, old_run: Run, new_run: Run, filtered: bool) -> TreeView {
    let details = if filtered {
        shown_top(
            tree.details,
            run_version(old_run),
            run_version(new_run),
            before_last(run_version(new_run), '~'),
        )
    } else {
        tree.details
    };
    TreeView {
        source1: base_name(run_label(old_run)),
        source2: base_name(run_label(new_run)),
        details,
        ..tree
    }
}

/// Makes a tree what is shown of it.
pub fn prepare_tree(diff: &mut DiffoscopeOutput, old_run: &Run, new_run: &Run, filtered: bool)
    ensures
        tree_view(*final(diff)) == shown_tree(tree_view(*old(diff)), *old_run, *new_run, filtered),
{
    diff.source1 = label_run(old_run);
    diff.source2 = label_run(new_run);
    filter_irrelevant(diff);
    if filtered {
        let old_version = old_run.build_version_str();
        let new_version = new_run.build_version_str();
        filter_boring(
            diff,
            old_version.as_str(),
            new_version.as_str(),
            old_run.campaign.as_str(),
            new_run.campaign.as_str(),
        );
    }
}

/// The forms in which there is a difference of contents, the favourite last.
pub fn diffoscope_forms() -> (r: Vec<&'static str>)
    ensures
        form_texts(r@) == seq![
            "text/plain"@,
            "text/html"@,
            "application/json"@,
            "text/markdown"@,
        ],
{
    let mut r: Vec<&'static str> = Vec::new();
    r.push("text/plain");
    r.push("text/html");
    r.push("application/json");
    r.push("text/markdown");
    assert(form_texts(r@) =~= seq![
        "text/plain"@,
        "text/html"@,
        "application/json"@,
        "text/markdown"@,
    ]);
    r
}

/// The forms in which there is a difference of packages, the favourite last.
pub fn debdiff_forms() -> (r: Vec<&'static str>)
    ensures
        form_texts(r@) == seq!["text/x-diff"@, "text/plain"@, "text/markdown"@, "text/html"@],
{
    let mut r: Vec<&'static str> = Vec::new();
    r.push("text/x-diff");
    r.push("text/plain");
    r.push("text/markdown");
    r.push("text/html");
    assert(form_texts(r@) =~= seq![
        "text/x-diff"@,
        "text/plain"@,
        "text/markdown"@,
        "text/html"@,
    ]);
    r
}

/// Whether a request can be looked into: its ids can be those of runs, and the
/// client takes one of the forms that there are. Gives the position of the form.
pub fn check_request(
    old_id: &str,
    new_id: &str,
    forms: &Vec<&'static str>,
    chosen: Option<usize>,
) -> (r: Result<usize, Error>)
    ensures
        match r {
            Ok(form) => is_run_id(old_id@) && is_run_id(new_id@) && chosen == Some(form),
            Err(Error::InvalidRunId(id)) => if is_run_id(old_id@) {
                !is_run_id(new_id@) && id@ == new_id@
            } else {
                id@ == old_id@
            },
            Err(Error::ContentNegotiationFailed { offered }) => is_run_id(old_id@) && is_run_id(
                new_id@,
            ) && chosen is None && offered@ == joined(form_texts(forms@), ", "@),
            Err(_) => false,
        },
{
    if let Err(e) = validate_run_id(old_id) {
        return Err(e);
    }
    if let Err(e) = validate_run_id(new_id) {
        return Err(e);
    }
    match chosen {
        Some(form) => Ok(form),
        None => {
            let mut offered: Vec<String> = Vec::new();
            let mut i: usize = 0;
            while i < forms.len()
                invariant
                    i <= forms.len(),
                    texts(offered@) == form_texts(forms@).take(i as int),
                decreases forms.len() - i,
            {
                let form: &'static str = forms[i];
                let ghost before = offered@;
                offered.push(form.to_owned());
                proof {
                    let all = form_texts(forms@);
                    assert(texts(offered@) =~= texts(before).push(form@));
                    assert(all.take(i + 1) =~= all.take(i as int).push(form@));
                }
                i = i + 1;
            }
            assert(form_texts(forms@).take(i as int) =~= form_texts(forms@));
            Err(Error::ContentNegotiationFailed { offered: join(&offered, ", ") })
        },
    }
}

/// How a difference of packages is written.
#[derive(Clone, Copy, Debug, PartialEq, Eq, Structural)]
pub enum DebdiffForm {
    /// As it is.
    Plain,
    /// As Markdown.
    Markdown,
    /// As HTML.
    Html,
}

/// How a difference of packages is written in a form; nothing where there is no
/// such form.
pub fn debdiff_form(content_type: &str) -> (r: Option<DebdiffForm>)
    ensures
        r == (if content_type@ == "text/x-diff"@ || content_type@ == "text/plain"@ {
            Some(DebdiffForm::Plain)
        } else if content_type@ == "text/markdown"@ {
            Some(DebdiffForm::Markdown)
        } else if content_type@ == "text/html"@ {
            Some(DebdiffForm::Html)
        } else {
            None
        }),
{
    if str_eq(content_type, "text/x-diff") || str_eq(content_type, "text/plain") {
        Some(DebdiffForm::Plain)
    } else if str_eq(content_type, "text/markdown") {
        Some(DebdiffForm::Markdown)
    } else if str_eq(content_type, "text/html") {
        Some(DebdiffForm::Html)
    } else {
        None
    }
}

/// How a difference of contents is written.
#[derive(Clone, Copy, Debug, PartialEq, Eq, Structural)]
pub enum DiffoscopeForm {
    /// As the tree that it is.
    Json,
    /// As HTML.
    Html,
    /// As Markdown.
    Markdown,
    /// As text.
    Text,
}

/// How a difference of contents is written in a form; nothing where there is no
/// such form.
pub fn diffoscope_form(content_type: &str) -> (r: Option<DiffoscopeForm>)
    ensures
        r == (if content_type@ == "application/json"@ {
            Some(DiffoscopeForm::Json)
        } else if content_type@ == "text/html"@ {
            Some(DiffoscopeForm::Html)
        } else if content_type@ == "text/markdown"@ {
            Some(DiffoscopeForm::Markdown)
        } else if content_type@ == "text/plain"@ {
            Some(DiffoscopeForm::Text)
        } else {
            None
        }),
{
    if str_eq(content_type, "application/json") {
        Some(DiffoscopeForm::Json)
    } else if str_eq(content_type, "text/html") {
        Some(DiffoscopeForm::Html)
    } else if str_eq(content_type, "text/markdown") {
        Some(DiffoscopeForm::Markdown)
    } else if str_eq(content_type, "text/plain") {
        Some(DiffoscopeForm::Text)
    } else {
        None
    }
}

/// Whether a difference of packages that is kept can be sent as it is.
pub fn can_stream(form: DebdiffForm, filtered: bool) -> (r: bool)
    ensures
        r == (form == DebdiffForm::Plain && !filtered),
{
    form == DebdiffForm::Plain && !filtered
}

/// The content type of an answer that is sent as it is.
pub fn typed_content_type(content_type: &str) -> (r: String)
    ensures
        r@ == content_type@,
{
    content_type.to_owned()
}

/// The content type of an answer that is text.
pub fn typed_text_content_type(content_type: &str) -> (r: String)
    ensures
        r@ == content_type@ + "; charset=utf-8"@,
{
    content_type.to_owned().concat("; charset=utf-8")
}

/// The content type of an answer in a form of a difference of packages.
pub fn debdiff_content_type(form: DebdiffForm) -> (r: String)
    ensures
        r@ == (match form {
            DebdiffForm::Plain => "text/plain"@,
            DebdiffForm::Markdown => "text/markdown"@ + "; charset=utf-8"@,
            DebdiffForm::Html => "text/html"@ + "; charset=utf-8"@,
        }),
{
    match form {
        DebdiffForm::Plain => typed_content_type("text/plain"),
        DebdiffForm::Markdown => typed_text_content_type("text/markdown"),
        DebdiffForm::Html => typed_text_content_type("text/html"),
    }
}

/// A difference of packages as text; an error where it is none.
pub fn debdiff_text(bytes: &Vec<u8>, error: &str) -> (r: Result<String, Error>)
    ensures
        match r {
            Ok(text) => valid_utf8(bytes@) && text@ == decode_utf8(bytes@),
            Err(e) => !valid_utf8(bytes@) && (e matches Error::DiffCommandError {
                command,
                reason,
            } && command@ == "debdiff"@ && reason@ == "debdiff output is not UTF-8: "@ + error@),
        },
{
    match decode_text(bytes.as_slice()) {
        Some(text) => Ok(text),
        None => Err(
            Error::DiffCommandError {
                command: "debdiff",
                reason: "debdiff output is not UTF-8: ".to_owned().concat(error),
            },
        ),
    }
}

/// What is shown of a comparison names the old run first and the new one second, and
/// is otherwise the comparison as it was made, unless it is filtered.
pub proof fn lemma_shown_under_the_labels_of_the_runs(
    tree: TreeView,
    old_run: Run,
    new_run: Run,
    filtered: bool,
)
    ensures
        shown_tree(tree, old_run, new_run, filtered).source1 == base_name(run_label(old_run)),
        shown_tree(tree, old_run, new_run, filtered).source2 == base_name(run_label(new_run)),
        shown_tree(tree, old_run, new_run, false).details == tree.details,
        shown_tree(tree, old_run, new_run, filtered) == (TreeView {
            source1: shown_tree(tree, old_run, new_run, filtered).source1,
            source2: shown_tree(tree, old_run, new_run, filtered).source2,
            details: shown_tree(tree, old_run, new_run, filtered).details,
            ..tree
        }),
{
}

/// A label names the source, then the version, then the campaign of a run; a title
/// names the campaign and the source, and says so where something was left out.
pub proof fn lemma_labels_name_their_run(run: Run)
    ensures
        (run_source(run) + " version "@ + run_version(run)).is_prefix_of(run_label(run)),
        (" ("@ + run.campaign@ + ")"@).is_suffix_of(run_label(run)),
        diff_title(run, false).is_prefix_of(diff_title(run, true)),
        " (filtered)"@.is_suffix_of(diff_title(run, true)),
        diff_title(run, true).len() > diff_title(run, false).len(),
        run_source(run).is_suffix_of(diff_title(run, false)),
        ("diffoscope for "@ + run.campaign@ + " applied to "@).is_prefix_of(
            diff_title(run, false),
        ),
{
    reveal_strlit(" (filtered)");
    assert(" (filtered)"@.len() == 11);
    let label = run_label(run);
    let start = run_source(run) + " version "@ + run_version(run);
    let end = " ("@ + run.campaign@ + ")"@;
    assert(label.subrange(0, start.len() as int) =~= start);
    assert(label.subrange(label.len() - end.len(), label.len() as int) =~= end);
    let plain = diff_title(run, false);
    let marked = diff_title(run, true);
    assert(marked.subrange(0, plain.len() as int) =~= plain);
    assert(marked.subrange(marked.len() - 11, marked.len() as int) =~= " (filtered)"@);
    let source = run_source(run);
    assert(plain.subrange(plain.len() - source.len(), plain.len() as int) =~= source);
    let head = "diffoscope for "@ + run.campaign@ + " applied to "@;
    assert(plain.subrange(0, head.len() as int) =~= head);
}

} // verus!
