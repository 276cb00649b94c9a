use janitor_services::differ::binaries::{
    check_found, classify_retrieval_result, fetch_result, is_binary, os_pairs, str_paths,
    FoundBinary, Retrieval, SystemName,
};
use janitor_services::differ::cache::{
    debdiff_cache_name, diffoscope_cache_name, load_or_generate, CacheStep, InFlight,
};
use janitor_services::differ::error::{DiffoscopeError, Error};
use janitor_services::differ::negotiate::{
    accept_ranges, match_range, negotiate, parse_accept, split_mime, AcceptRange,
};
use janitor_services::differ::precache::{
    candidate_pairs, precache, precache_all_status, PrecacheStep, ResultMessage,
};
use janitor_services::differ::requests::{
    can_stream, check_request, debdiff_content_type, debdiff_form, debdiff_forms, debdiff_text,
    diffoscope_form, diffoscope_forms, label_run, title_of, typed_content_type,
    typed_text_content_type, DebdiffForm, DiffoscopeForm,
};
use janitor_services::differ::runs::{
    check_successful, get_run_pair, validate_run_id, BuildVersion, Run,
};

fn run_with(build_version: Option<BuildVersion>, build_source: Option<String>) -> Run {
    Run {
        result_code: "success".to_string(),
        build_source,
        campaign: "lintian-fixes".to_string(),
        id: "run-1".to_string(),
        build_version,
    }
}

fn weights(ranges: &Vec<AcceptRange>) -> Vec<u32> {
    ranges
        .iter()
        .map(|range| {
            let quality: f32 = match &range.quality {
                Some(text) => text.parse().unwrap_or(1.0),
                None => 1.0,
            };
            let score = quality * range.specificity as f32;
            if score > 0.0 {
                score.to_bits()
            } else {
                0
            }
        })
        .collect()
}

fn chosen(accept: Option<&str>, supported: &[&'static str]) -> Option<&'static str> {
    let ranges = accept_ranges(accept);
    negotiate(&ranges, &weights(&ranges), &supported.to_vec()).map(|i| supported[i])
}

#[test]
fn is_binary_matches_deb_and_udeb() {
    assert!(is_binary("pkg_1.0_amd64.deb"));
    assert!(is_binary("pkg_1.0_amd64.udeb"));
    assert!(!is_binary("pkg_1.0.dsc"));
    assert!(!is_binary("pkg_1.0.tar.gz"));
    assert!(!is_binary("pkg_1.0.changes"));
}

#[test]
fn build_version_str_renders_or_empty() {
    let v = BuildVersion::parse("1.2.3-4~jan+lint1").unwrap();
    assert_eq!(
        run_with(Some(v), None).build_version_str(),
        "1.2.3-4~jan+lint1"
    );
    assert_eq!(run_with(None, None).build_version_str(), "");
}

#[test]
fn version_is_taken_apart() {
    let v = BuildVersion::parse("2:1.0-3").unwrap();
    assert_eq!(v.epoch, Some(2));
    assert_eq!(v.upstream_version, "1.0");
    assert_eq!(v.debian_revision.as_deref(), Some("3"));
    assert_eq!(v.to_text(), "2:1.0-3");
    assert!(BuildVersion::parse("not a version").is_none());
}

#[test]
fn build_source_str_borrows_or_empty() {
    assert_eq!(run_with(None, None).build_source_str(), "");
    assert_eq!(
        run_with(None, Some("dokujclient".into())).build_source_str(),
        "dokujclient"
    );
}

#[test]
fn negotiate_prefers_specific() {
    assert_eq!(
        chosen(
            Some("text/html, text/plain;q=0.5"),
            &["text/plain", "text/html"]
        ),
        Some("text/html"),
    );
}

#[test]
fn negotiate_wildcard_picks_last_supported() {
    assert_eq!(
        chosen(Some("*/*"), &["text/plain", "text/html"]),
        Some("text/html"),
    );
}

#[test]
fn negotiate_diffoscope_default_is_markdown() {
    assert_eq!(
        chosen(
            Some("*/*"),
            &[
                "text/plain",
                "text/html",
                "application/json",
                "text/markdown"
            ]
        ),
        Some("text/markdown"),
    );
    assert_eq!(chosen(None, &diffoscope_forms()), Some("text/markdown"));
    assert_eq!(chosen(None, &debdiff_forms()), Some("text/html"));
}

#[test]
fn negotiate_returns_none_on_mismatch() {
    assert_eq!(chosen(Some("image/png"), &["text/plain", "text/html"]), None);
}

#[test]
fn negotiate_respects_quality() {
    assert_eq!(
        chosen(
            Some("text/plain;q=0.5, text/html"),
            &["text/plain", "text/html"]
        ),
        Some("text/html"),
    );
}

#[test]
fn negotiate_weighs_specificity_and_quality_together() {
    // 0.5 * 3 beats 1 * 1, and a quality of zero rules a form out.
    assert_eq!(
        chosen(
            Some("text/plain;q=0.5, */*"),
            &["text/plain", "text/html"]
        ),
        Some("text/plain"),
    );
    assert_eq!(chosen(Some("text/plain;q=0"), &["text/plain"]), None);
    // A malformed quality counts as one.
    assert_eq!(
        chosen(Some("text/plain;q=often"), &["text/plain"]),
        Some("text/plain")
    );
}

#[test]
fn accept_header_is_taken_apart() {
    let ranges = parse_accept("TEXT/Html;level=1;q=0.4 , bogus, text/*, */*;q=2");
    assert_eq!(ranges.len(), 3);
    assert_eq!(ranges[0].kind, "TEXT");
    assert_eq!(ranges[0].subkind, "Html");
    assert_eq!(ranges[0].quality.as_deref(), Some("0.4"));
    assert_eq!(ranges[0].specificity, 3);
    assert_eq!(ranges[1].specificity, 2);
    assert_eq!(ranges[1].quality, None);
    assert_eq!(ranges[2].specificity, 1);
    assert!(match_range(&ranges[0], "text", "html"));
    assert!(!match_range(&ranges[0], "text", "plain"));
    assert!(match_range(&ranges[1], "text", "plain"));
    assert!(!match_range(&ranges[1], "image", "png"));
    assert!(match_range(&ranges[2], "image", "png"));
    assert_eq!(
        split_mime("a/b/c"),
        Some(("a".to_string(), "b/c".to_string()))
    );
    assert_eq!(split_mime("ab"), None);
}

#[test]
fn typed_response_omits_charset() {
    assert_eq!(typed_content_type("text/plain"), "text/plain");
}

#[test]
fn typed_text_response_adds_charset() {
    assert_eq!(
        typed_text_content_type("text/markdown"),
        "text/markdown; charset=utf-8",
    );
}

#[test]
fn diffoscope_forms_are_told_apart() {
    assert_eq!(diffoscope_form("application/json"), Some(DiffoscopeForm::Json));
    assert_eq!(diffoscope_form("text/html"), Some(DiffoscopeForm::Html));
    assert_eq!(diffoscope_form("text/markdown"), Some(DiffoscopeForm::Markdown));
    assert_eq!(diffoscope_form("text/plain"), Some(DiffoscopeForm::Text));
    assert_eq!(diffoscope_form("text/x-diff"), None);
}

#[test]
fn debdiff_forms_and_types() {
    assert_eq!(debdiff_form("text/x-diff"), Some(DebdiffForm::Plain));
    assert_eq!(debdiff_form("text/plain"), Some(DebdiffForm::Plain));
    assert_eq!(debdiff_form("text/markdown"), Some(DebdiffForm::Markdown));
    assert_eq!(debdiff_form("text/html"), Some(DebdiffForm::Html));
    assert_eq!(debdiff_form("application/json"), None);
    assert_eq!(debdiff_content_type(DebdiffForm::Plain), "text/plain");
    assert_eq!(
        debdiff_content_type(DebdiffForm::Html),
        "text/html; charset=utf-8"
    );
    assert!(can_stream(DebdiffForm::Plain, false));
    assert!(!can_stream(DebdiffForm::Plain, true));
    assert!(!can_stream(DebdiffForm::Html, false));
}

#[test]
fn error_status_and_body_for_each_variant() {
    let cases: Vec<(Error, u16, &str, Option<&str>)> = vec![
        (
            Error::RunNotFound("r1".into()),
            404,
            "run-not-found",
            Some("r1"),
        ),
        (
            Error::RunNotSuccessful("r2".into()),
            422,
            "run-not-successful",
            Some("r2"),
        ),
        (
            Error::ArtifactsMissing("r3".into()),
            404,
            "artifacts-missing",
            Some("r3"),
        ),
        (
            Error::ArtifactRetrievalTimeout("r4".into()),
            504,
            "artifact-retrieval-timeout",
            Some("r4"),
        ),
        (
            Error::ArtifactRetrievalFailed {
                run_id: "r5".into(),
                reason: "network down".into(),
            },
            502,
            "artifact-retrieval-failed",
            Some("r5"),
        ),
        (
            Error::DiffCommandTimeout("diffoscope"),
            504,
            "diff-command-timeout",
            None,
        ),
        (
            Error::DiffCommandMemoryError("diffoscope"),
            507,
            "diff-command-memory-error",
            None,
        ),
        (
            Error::ContentNegotiationFailed {
                offered: "text/plain".into(),
            },
            406,
            "not-acceptable",
            None,
        ),
        (
            Error::InvalidRunId("../etc/passwd".into()),
            400,
            "invalid-run-id",
            None,
        ),
    ];
    for (err, want_status, want_reason, want_run_id) in cases {
        assert_eq!(err.status(), want_status, "status for {}", want_reason);
        assert_eq!(err.reason(), want_reason);
        assert!(!err.to_text().is_empty(), "message for {}", want_reason);
        assert_eq!(
            err.unavailable_run_id(),
            want_run_id,
            "unavailable_run_id header for {}",
            want_reason,
        );
        assert!(err.status() >= 400 && err.status() < 600);
    }
}

#[test]
fn other_errors_have_a_status() {
    let failed = Error::DiffCommandError {
        command: "debdiff",
        reason: "broken".into(),
    };
    assert_eq!(failed.status(), 400);
    assert_eq!(failed.reason(), "diff-command-error");
    assert_eq!(Error::Io("x".into()).status(), 500);
    assert_eq!(Error::Json("x".into()).reason(), "internal-error");
    assert_eq!(Error::Artifacts("x".into()).status(), 502);
    assert_eq!(Error::Diffoscope(DiffoscopeError::Timeout).status(), 504);
    let memory = DiffoscopeError::Io {
        text: "no room".into(),
        out_of_memory: true,
    };
    assert_eq!(Error::Diffoscope(memory).status(), 507);
    assert_eq!(
        Error::Diffoscope(DiffoscopeError::Py("x".into())).reason(),
        "diffoscope-error"
    );
}

#[test]
fn database_error_maps_pool_timeout_to_503() {
    let err = Error::Database {
        text: "pool timed out".into(),
        pool_timed_out: true,
        code: None,
    };
    assert_eq!(err.status(), 503);
}

#[test]
fn database_short_of_resources_maps_to_503() {
    let short = Error::Database {
        text: "too many connections".into(),
        pool_timed_out: false,
        code: Some("53300".into()),
    };
    assert_eq!(short.status(), 503);
    let broken = Error::Database {
        text: "syntax error".into(),
        pool_timed_out: false,
        code: Some("42601".into()),
    };
    assert_eq!(broken.status(), 500);
}

#[test]
fn check_successful_distinguishes_missing_from_failed() {
    let missing = check_successful("r1", None).unwrap_err();
    assert!(matches!(missing, Error::RunNotFound(id) if id == "r1"));

    let failed = check_successful(
        "r2",
        Some(Run {
            result_code: "failed".to_string(),
            build_source: None,
            campaign: "c".to_string(),
            id: "r2".to_string(),
            build_version: None,
        }),
    )
    .unwrap_err();
    assert!(matches!(failed, Error::RunNotSuccessful(id) if id == "r2"));
}

#[test]
fn run_pair_names_the_first_fault() {
    let both = get_run_pair("a", "b", Some(run_with(None, None)), Some(run_with(None, None)));
    assert!(both.is_ok());
    let first = get_run_pair("a", "b", None, None).unwrap_err();
    assert!(matches!(first, Error::RunNotFound(id) if id == "a"));
    let second = get_run_pair("a", "b", Some(run_with(None, None)), None).unwrap_err();
    assert!(matches!(second, Error::RunNotFound(id) if id == "b"));
}

#[test]
fn validate_run_id_accepts_and_rejects() {
    // Accepts real-world run ids.
    for ok in ["run-1", "abcdef1234567890", "b1c2d3-e4f5", "log_id_42", "A"] {
        assert!(validate_run_id(ok).is_ok(), "should accept {:?}", ok);
    }
    // Rejects anything that could escape the cache dir or is empty.
    for bad in [
        "", "..", ".hidden", "a/b", "a\\b", "a b", "foo.json", "foo;bar",
    ] {
        let err = validate_run_id(bad).unwrap_err();
        assert!(
            matches!(err, Error::InvalidRunId(_)),
            "should reject {:?}",
            bad
        );
    }
}

#[test]
fn cache_names_are_made_of_both_ids() {
    assert_eq!(diffoscope_cache_name("a", "b"), "a_b.json");
    assert_eq!(debdiff_cache_name("a", "b"), "a_b");
}

#[test]
fn inflight_dedupes_and_wakes_waiters() {
    let mut inflight = InFlight::default();
    let key = ("a".to_string(), "b".to_string());
    assert!(inflight.acquire(key.clone()));
    assert!(!inflight.acquire(key.clone()));
    assert!(inflight.acquire(("b".to_string(), "a".to_string())));
    inflight.finish(&key);
    assert!(inflight.acquire(key));
    assert!(!inflight.acquire(("b".to_string(), "a".to_string())));
}

#[test]
fn lookup_waits_and_looks_again() {
    let mut lookup = load_or_generate(true);
    assert_eq!(lookup.next(), CacheStep::Read);
    lookup.note(false);
    assert_eq!(lookup.next(), CacheStep::Acquire);
    lookup.note(false);
    assert_eq!(lookup.next(), CacheStep::Wait);
    lookup.note(true);
    assert_eq!(lookup.next(), CacheStep::ReadAgain);
    lookup.note(false);
    assert_eq!(lookup.next(), CacheStep::AcquireAgain);
    lookup.note(false);
    assert_eq!(lookup.next(), CacheStep::Generate { guarded: false });
}

#[test]
fn lookup_uses_what_is_there() {
    let mut lookup = load_or_generate(true);
    lookup.note(true);
    assert_eq!(lookup.next(), CacheStep::UseCached);
    let mut nothing_kept = load_or_generate(false);
    assert_eq!(nothing_kept.next(), CacheStep::Acquire);
    nothing_kept.note(true);
    assert_eq!(nothing_kept.next(), CacheStep::Generate { guarded: true });
}

#[test]
fn precache_runs_what_is_missing() {
    let mut f = precache("a", "b", true, true).unwrap();
    assert_eq!(f.next(), PrecacheStep::LookForDebdiff);
    f.note(true);
    assert_eq!(f.next(), PrecacheStep::LookForDiffoscope);
    f.note(false);
    assert_eq!(f.next(), PrecacheStep::Fetch);
    f.note(true);
    assert_eq!(f.next(), PrecacheStep::RunDiffoscope);
    f.note(true);
    assert_eq!(f.next(), PrecacheStep::Done);
}

#[test]
fn precache_with_everything_there_is_done() {
    let mut f = precache("a", "b", true, false).unwrap();
    f.note(true);
    assert_eq!(f.next(), PrecacheStep::Done);
    let error = precache("a", "../b", true, true).unwrap_err();
    assert!(matches!(error, Error::InvalidRunId(id) if id == "../b"));
    assert_eq!(precache_all_status(0), 200);
    assert_eq!(precache_all_status(3), 202);
}

#[test]
fn control_runs_are_compared_with_what_came_of_them() {
    let mut message = ResultMessage {
        code: "success".into(),
        log_id: "new".into(),
        revision: "r1".into(),
        main_branch_revision: "r1".into(),
        codebase: "c".into(),
    };
    assert_eq!(ResultMessage::channel(), "result");
    assert!(message.is_success());
    assert!(message.is_control_run());
    let found = vec!["x".to_string(), "y".to_string()];
    assert_eq!(
        candidate_pairs(&message, &found),
        vec![
            ("new".to_string(), "x".to_string()),
            ("new".to_string(), "y".to_string())
        ]
    );
    message.revision = "r2".into();
    assert!(!message.is_control_run());
    assert_eq!(
        candidate_pairs(&message, &found)[0],
        ("x".to_string(), "new".to_string())
    );
}

#[test]
fn requests_are_checked_in_order() {
    let forms = debdiff_forms();
    let id = check_request("..", "", &forms, None).unwrap_err();
    assert!(matches!(id, Error::InvalidRunId(text) if text == ".."));
    let other = check_request("a", "", &forms, Some(0)).unwrap_err();
    assert!(matches!(other, Error::InvalidRunId(text) if text.is_empty()));
    let form = check_request("a", "b", &forms, None).unwrap_err();
    assert!(matches!(form, Error::ContentNegotiationFailed { offered }
        if offered == "text/x-diff, text/plain, text/markdown, text/html"));
    assert_eq!(check_request("a", "b", &forms, Some(2)).unwrap(), 2);
}

#[test]
fn runs_are_labelled() {
    let run = run_with(
        BuildVersion::parse("1.0-1"),
        Some("dokujclient".to_string()),
    );
    assert_eq!(label_run(&run), "dokujclient version 1.0-1 (lintian-fixes)");
    assert_eq!(
        title_of(&run, false),
        "diffoscope for lintian-fixes applied to dokujclient"
    );
    assert_eq!(
        title_of(&run, true),
        "diffoscope for lintian-fixes applied to dokujclient (filtered)"
    );
}

#[test]
fn debdiff_output_must_be_text() {
    assert_eq!(debdiff_text(&b"abc".to_vec(), "").unwrap(), "abc");
    let error = debdiff_text(&vec![0xffu8], "invalid utf-8").unwrap_err();
    assert!(matches!(error, Error::DiffCommandError { command, reason }
        if command == "debdiff" && reason == "debdiff output is not UTF-8: invalid utf-8"));
}

#[test]
fn retrieval_failures_are_told_apart() {
    assert!(classify_retrieval_result("r", Retrieval::Done).is_ok());
    let late = classify_retrieval_result("r", Retrieval::TimedOut).unwrap_err();
    assert!(matches!(late, Error::ArtifactRetrievalTimeout(id) if id == "r"));
    let gone = fetch_result("a", "b", Retrieval::Done, Retrieval::Missing).unwrap_err();
    assert!(matches!(gone, Error::ArtifactsMissing(id) if id == "b"));
    let failed = fetch_result(
        "a",
        "b",
        Retrieval::Failed("network down".into()),
        Retrieval::Missing,
    )
    .unwrap_err();
    assert!(matches!(failed, Error::ArtifactRetrievalFailed { run_id, reason }
        if run_id == "a" && reason == "network down"));
    assert!(check_found("a", "b", 1, 1).is_ok());
    let none = check_found("a", "b", 1, 0).unwrap_err();
    assert!(matches!(none, Error::ArtifactsMissing(id) if id == "b"));
}

#[test]
fn names_must_be_text() {
    let good = || FoundBinary {
        name: SystemName::Text("a.deb".into()),
        path: SystemName::Text("/tmp/a.deb".into()),
    };
    let bad = FoundBinary {
        name: SystemName::Other("\"\\xFF\"".into()),
        path: SystemName::Other("\"/tmp/\\xFF\"".into()),
    };
    assert_eq!(
        os_pairs(&vec![good()]).unwrap(),
        vec![("a.deb".to_string(), "/tmp/a.deb".to_string())]
    );
    let found = vec![good(), bad];
    assert_eq!(
        os_pairs(&found).unwrap_err(),
        "invalid UTF-8 in filename \"\\xFF\""
    );
    assert_eq!(
        str_paths(&found).unwrap_err(),
        "invalid UTF-8 in path \"/tmp/\\xFF\""
    );
    assert_eq!(str_paths(&vec![good()]).unwrap(), vec!["/tmp/a.deb"]);
}
