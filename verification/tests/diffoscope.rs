use janitor_services::differ::diffoscope::boring::{filter_boring, filter_boring_detail};
use janitor_services::differ::diffoscope::command::{
    diffoscope_args, diffoscope_exit, with_binaries, DiffoscopeExit,
};
use janitor_services::differ::diffoscope::pairs::{run_diffoscope, PairStep};
use janitor_services::differ::diffoscope::tree::{file_name, filter_irrelevant, DiffoscopeOutput};
use janitor_services::differ::diffoscope::udiff::{
    filter_boring_udiff, filter_hunk, filter_hunks, Hunk, HunkLine,
};
use janitor_services::differ::error::DiffoscopeError;
use janitor_services::differ::requests::prepare_tree;
use janitor_services::differ::runs::{BuildVersion, Run};

fn node(
    source1: &str,
    source2: &str,
    unified_diff: Option<&str>,
    details: Vec<DiffoscopeOutput>,
) -> DiffoscopeOutput {
    DiffoscopeOutput {
        diffoscope_json_version: None,
        source1: source1.to_string(),
        source2: source2.to_string(),
        comments: vec![],
        unified_diff: unified_diff.map(str::to_string),
        details,
    }
}

fn root(source1: &str, source2: &str, details: Vec<DiffoscopeOutput>) -> DiffoscopeOutput {
    DiffoscopeOutput {
        diffoscope_json_version: Some(1),
        ..node(source1, source2, None, details)
    }
}

fn leaf(source: &str) -> DiffoscopeOutput {
    node(
        source,
        source,
        None,
        vec![node(
            "leaf",
            "leaf",
            Some("@@ -1,1 +1,1 @@\n-a\n+b\n"),
            vec![],
        )],
    )
}

#[test]
fn filter_irrelevant_strips_directory() {
    let mut diff = root("/tmp/old/build_1.0.deb", "/tmp/new/build_1.1.deb", vec![]);
    filter_irrelevant(&mut diff);
    assert_eq!(diff.source1, "build_1.0.deb");
    assert_eq!(diff.source2, "build_1.1.deb");
}

#[test]
fn file_name_is_the_last_component() {
    assert_eq!(file_name("/a/b").as_deref(), Some("b"));
    assert_eq!(file_name("a/b/./").as_deref(), Some("b"));
    assert_eq!(file_name("a/.."), None);
    assert_eq!(file_name("/"), None);
    assert_eq!(file_name("plain").as_deref(), Some("plain"));
}

#[test]
fn filter_boring_udiff_rewrites_versions() {
    let udiff = "@@ -1,2 +1,2 @@\n context\n-pkg_1.0.0.deb\n+pkg_1.1.0.deb\n";
    let out = filter_boring_udiff(udiff, "1.0.0", "1.1.0", "X.Y.Z").unwrap();
    assert_eq!(
        out,
        "@@ -1,2 +1,2 @@\n context\n-pkg_X.Y.Z.deb\n+pkg_X.Y.Z.deb\n"
    );
}

#[test]
fn filter_boring_udiff_leaves_unrelated_lines() {
    let udiff = "@@ -1,3 +1,3 @@\n line a\n-foo\n+bar\n line b\n";
    let out = filter_boring_udiff(udiff, "1.0.0", "1.1.0", "X.Y.Z").unwrap();
    assert_eq!(out, udiff);
}

#[test]
fn filter_boring_udiff_refuses_what_is_no_diff() {
    assert!(filter_boring_udiff("@@ nonsense\n", "1", "2", "3").is_err());
}

#[test]
fn hunks_keep_their_shape() {
    let hunk = Hunk {
        orig_pos: 1,
        orig_range: 2,
        mod_pos: 1,
        mod_range: 2,
        tail: None,
        lines: vec![
            HunkLine::ContextLine(b"1.0\n".to_vec()),
            HunkLine::RemoveLine(b"a 1.0\n".to_vec()),
            HunkLine::InsertLine(b"a 1.1\n".to_vec()),
        ],
    };
    let filtered = filter_hunk(&hunk, "1.0", "1.1", "X");
    assert_eq!(filtered.lines.len(), 3);
    assert!(matches!(&filtered.lines[0], HunkLine::ContextLine(line) if line == b"1.0\n"));
    assert!(matches!(&filtered.lines[1], HunkLine::RemoveLine(line) if line == b"a X\n"));
    assert!(matches!(&filtered.lines[2], HunkLine::InsertLine(line) if line == b"a X\n"));
    assert_eq!(
        filter_hunks(&vec![hunk], "1.0", "1.1", "X"),
        "@@ -1,2 +1,2 @@\n 1.0\n-a X\n+a X\n"
    );
}

#[test]
fn bytes_that_are_no_text_are_shown_as_such() {
    let hunk = Hunk {
        orig_pos: 1,
        orig_range: 1,
        mod_pos: 1,
        mod_range: 0,
        tail: None,
        lines: vec![HunkLine::RemoveLine(vec![0xff, 0x0a])],
    };
    assert_eq!(
        filter_hunks(&vec![hunk], "1", "2", "3"),
        "@@ -1 +1,0 @@\n-\u{fffd}\n"
    );
}

#[test]
fn filter_boring_drops_date_version_distribution() {
    let mut diff = root(
        "a.changes",
        "b.changes",
        vec![
            leaf("Date"),
            leaf("Version"),
            leaf("Distribution"),
            leaf("Description"),
        ],
    );
    filter_boring(&mut diff, "1.0", "1.1", "old", "new");
    assert_eq!(diff.details.len(), 1);
    assert_eq!(diff.details[0].source1, "Description");
}

#[test]
fn filter_boring_drops_buildinfo() {
    let stub = || node("stub", "stub", Some("@@ -1,1 +1,1 @@\n-a\n+b\n"), vec![]);
    let buildinfo = node(
        "pkg_1.0_amd64.buildinfo",
        "pkg_1.1_amd64.buildinfo",
        None,
        vec![stub()],
    );
    let deb = node("pkg_1.0_amd64.deb", "pkg_1.1_amd64.deb", None, vec![stub()]);
    let mut diff = root("a.changes", "b.changes", vec![buildinfo, deb]);
    filter_boring(&mut diff, "1.0", "1.1", "_", "_");
    assert_eq!(diff.details.len(), 1);
    assert_eq!(diff.details[0].source1, "pkg_1.1_amd64.deb");
    assert_eq!(diff.details[0].source2, "pkg_1.1_amd64.deb");
}

#[test]
fn filter_boring_strips_tilde_suffix_for_display_version() {
    let mut diff = root(
        "a.changes",
        "b.changes",
        vec![node(
            "pkg_1.0.0_all.deb",
            "pkg_1.1.0~bpo12+1_all.deb",
            Some("@@ -1,1 +1,1 @@\n-1.0.0\n+1.1.0~bpo12+1\n"),
            vec![],
        )],
    );
    filter_boring(&mut diff, "1.0.0", "1.1.0~bpo12+1", "_", "_");
    assert_eq!(diff.details.len(), 1);
    assert_eq!(diff.details[0].source1, "pkg_1.1.0_all.deb");
    assert_eq!(diff.details[0].source2, "pkg_1.1.0_all.deb");
}

#[test]
fn nothing_empty_is_left() {
    let empty = node("x", "x", Some(""), vec![node("y", "y", None, vec![])]);
    assert!(filter_boring_detail(&empty, "1", "2", "3").is_none());
    let mut diff = root(
        "a",
        "b",
        vec![node("p", "p", None, vec![node("q", "q", None, vec![])])],
    );
    filter_boring(&mut diff, "1", "2", "_", "_");
    assert!(diff.details.is_empty());
}

#[test]
fn shown_trees_are_named_after_the_runs() {
    let run = |version: &str| Run {
        result_code: "success".to_string(),
        build_source: Some("pkg".to_string()),
        campaign: "fixes".to_string(),
        id: "r".to_string(),
        build_version: BuildVersion::parse(version),
    };
    let mut diff = root("old version", "new version", vec![leaf("Date")]);
    prepare_tree(&mut diff, &run("1.0"), &run("1.1"), false);
    assert_eq!(diff.source1, "pkg version 1.0 (fixes)");
    assert_eq!(diff.source2, "pkg version 1.1 (fixes)");
    assert_eq!(diff.details.len(), 1);
    prepare_tree(&mut diff, &run("1.0"), &run("1.1"), true);
    assert!(diff.details.is_empty());
}

#[test]
fn packages_are_compared_pair_by_pair() {
    let binary = |name: &str| (name.to_string(), format!("/tmp/{}", name));
    let mut f = run_diffoscope(
        vec![binary("a1.deb"), binary("b1.deb"), binary("c1.deb")],
        vec![binary("a2.deb"), binary("b2.deb")],
    );
    assert!(matches!(f.next(), PairStep::Compare { old_path, new_path }
        if old_path == "/tmp/a1.deb" && new_path == "/tmp/a2.deb"));
    f.note_compared(Ok(None));
    assert!(matches!(f.next(), PairStep::Compare { old_path, .. } if old_path == "/tmp/b1.deb"));
    f.note_compared(Ok(Some(root("/tmp/b1.deb", "/tmp/b2.deb", vec![leaf("x")]))));
    assert!(matches!(f.next(), PairStep::Done));
    let tree = f.finish().unwrap();
    assert_eq!(tree.diffoscope_json_version, Some(1));
    assert_eq!(tree.source1, "old version");
    assert_eq!(tree.source2, "new version");
    assert_eq!(tree.details.len(), 1);
    assert_eq!(tree.details[0].source1, "b1.deb");
    assert_eq!(tree.details[0].source2, "b2.deb");
    assert_eq!(tree.details[0].diffoscope_json_version, None);
}

#[test]
fn a_pair_that_cannot_be_compared_ends_it() {
    let binary = |name: &str| (name.to_string(), name.to_string());
    let mut f = run_diffoscope(vec![binary("a"), binary("b")], vec![binary("a"), binary("b")]);
    f.note_compared(Err(DiffoscopeError::Timeout));
    assert!(matches!(f.next(), PairStep::Done));
    assert!(matches!(f.finish(), Err(DiffoscopeError::Timeout)));
}

#[test]
fn command_lines_are_split_like_a_shell_does() {
    assert_eq!(
        diffoscope_args(Some("diffoscope --exclude 'a b'"), "x.deb", "y.deb").unwrap(),
        vec![
            "diffoscope",
            "--exclude",
            "a b",
            "--json=-",
            "--exclude-directory-metadata=yes",
            "x.deb",
            "y.deb"
        ]
    );
    assert_eq!(diffoscope_args(None, "x", "y").unwrap()[0], "diffoscope");
    let error = diffoscope_args(Some("diffoscope 'a"), "x", "y").unwrap_err();
    assert!(matches!(error, DiffoscopeError::Other(text)
        if text == "Failed to parse command: diffoscope 'a"));
    assert_eq!(with_binaries(vec![], "x", "y").len(), 4);
}

#[test]
fn exit_codes_of_diffoscope() {
    assert!(matches!(diffoscope_exit(Some(0), &vec![]), DiffoscopeExit::Same));
    assert!(matches!(
        diffoscope_exit(Some(1), &vec![]),
        DiffoscopeExit::Different
    ));
    assert!(matches!(diffoscope_exit(Some(2), &b"oops".to_vec()),
        DiffoscopeExit::Failed(DiffoscopeError::Other(text))
            if text == "diffoscope exited with code 2: oops"));
    assert!(matches!(diffoscope_exit(None, &b"oo\xffps".to_vec()),
        DiffoscopeExit::Failed(DiffoscopeError::Other(text))
            if text == "diffoscope killed by signal: oo\u{fffd}ps"));
}

#[test]
fn nodes_that_show_nothing_are_left_out_at_any_depth() {
    let shown = node("kept", "kept", Some("@@ -1,1 +1,1 @@\n-a\n+b\n"), vec![]);
    let empty = node("gone", "gone", None, vec![]);
    let hollow = node("hollow", "hollow", None, vec![node("x", "x", None, vec![])]);
    let middle = node("middle", "middle", None, vec![empty, hollow, shown]);
    let mut diff = root("a", "b", vec![middle, node("top", "top", None, vec![])]);
    filter_boring(&mut diff, "1", "2", "_", "_");
    assert_eq!(diff.details.len(), 1);
    assert_eq!(diff.details[0].details.len(), 1);
    assert_eq!(diff.details[0].details[0].source1, "kept");
}
