use janitor_services::upload::backfill::BackfillSummary;
use janitor_services::upload::config::{required_locations, Config, UploadConfig};
use janitor_services::upload::error::{join_result, ConfigError, TaskEnd, UploadError};
use janitor_services::upload::message::{
    should_process_message, BuildResultMessage, BuildTarget, BuildTargetDetails,
};
use janitor_services::upload::process::{
    find_changes_files, is_target_changes, relaxed_mode, upload_build_result, upload_result,
    PackageOutcome, UploadStep,
};

fn cfg(distributions: Vec<String>) -> UploadConfig {
    UploadConfig {
        dput_host: Some("test-host".into()),
        debsign_keyid: None,
        source_only: false,
        distributions,
    }
}

fn msg(target: Option<&str>, distribution: Option<&str>) -> BuildResultMessage {
    BuildResultMessage {
        log_id: "test-123".to_string(),
        target: BuildTarget {
            name: target.map(str::to_string),
            details: distribution.map(|d| BuildTargetDetails {
                build_distribution: d.to_string(),
            }),
        },
    }
}

fn names(list: &[&str]) -> Vec<String> {
    list.iter().map(|name| name.to_string()).collect()
}

#[test]
fn distribution_allow_list_matches_configured_entries() {
    let config = cfg(vec!["unstable".to_string(), "experimental".to_string()]);
    assert!(config.should_upload_distribution("unstable"));
    assert!(config.should_upload_distribution("experimental"));
    assert!(!config.should_upload_distribution("stable"));
}

#[test]
fn empty_allow_list_accepts_any_distribution() {
    let config = cfg(vec![]);
    assert!(config.should_upload_distribution("unstable"));
    assert!(config.should_upload_distribution("stable"));
}

#[test]
fn debian_target_is_accepted() {
    assert!(should_process_message(
        &cfg(vec![]),
        &msg(Some("debian"), Some("unstable"))
    ));
}

#[test]
fn non_debian_target_is_rejected() {
    assert!(!should_process_message(
        &cfg(vec![]),
        &msg(Some("generic"), Some("unstable"))
    ));
}

#[test]
fn empty_target_is_rejected() {
    assert!(!should_process_message(&cfg(vec![]), &msg(None, None)));
}

#[test]
fn debian_target_without_details_is_rejected() {
    assert!(!should_process_message(
        &cfg(vec![]),
        &msg(Some("debian"), None)
    ));
}

#[test]
fn distribution_allow_list_is_enforced() {
    let cfg = cfg(vec!["unstable".to_string()]);
    assert!(should_process_message(
        &cfg,
        &msg(Some("debian"), Some("unstable"))
    ));
    assert!(!should_process_message(
        &cfg,
        &msg(Some("debian"), Some("stable"))
    ));
}

#[test]
fn subscribes_to_result_channel() {
    assert_eq!(BuildResultMessage::channel(), "result");
}

#[test]
fn find_changes_files_lists_all_or_source_only() {
    let files = names(&[
        "test_1.0-1_amd64.changes",
        "test_1.0-1_source.changes",
        "test_1.0-1.dsc",
    ]);

    // Finding all changes files
    let changes_files = find_changes_files(&files, false).unwrap();
    assert_eq!(changes_files.len(), 2);

    // Finding only source changes
    let source_changes = find_changes_files(&files, true).unwrap();
    assert_eq!(source_changes.len(), 1);
    assert!(files[source_changes[0]].ends_with("_source.changes"));
}

#[test]
fn find_changes_files_returns_no_changes_when_dir_has_no_changes() {
    let err = find_changes_files(&names(&["foo.dsc"]), false).unwrap_err();
    assert!(matches!(err, UploadError::NoChangesFiles));
}

#[test]
fn find_changes_files_source_only_skips_binary_changes() {
    let err = find_changes_files(&names(&["foo_1.0-1_amd64.changes"]), true).unwrap_err();
    assert!(matches!(err, UploadError::NoChangesFiles));
}

#[test]
fn changes_files_are_known_by_their_ending() {
    assert!(is_target_changes("a_source.changes", true));
    assert!(!is_target_changes("a_amd64.changes", true));
    assert!(is_target_changes("a_amd64.changes", false));
    assert!(!is_target_changes("a.dsc", false));
}

#[test]
fn modes_are_relaxed_as_far_as_the_mask_allows() {
    assert_eq!(relaxed_mode(0o022), 0o644);
    assert_eq!(relaxed_mode(0o027), 0o640);
    assert_eq!(relaxed_mode(0), 0o644);
}

#[test]
fn uploads_are_added_up() {
    assert!(upload_result(&vec![PackageOutcome::Uploaded, PackageOutcome::Uploaded]).is_ok());
    let partly = upload_result(&vec![
        PackageOutcome::Uploaded,
        PackageOutcome::SignFailed,
        PackageOutcome::UploadFailed,
    ])
    .unwrap_err();
    assert!(matches!(
        partly,
        UploadError::PartialUpload {
            successful: 1,
            total: 3
        }
    ));
    let none = upload_result(&vec![PackageOutcome::UploadFailed]).unwrap_err();
    assert!(matches!(none, UploadError::NoPackagesUploaded));
}

#[test]
fn backfill_is_summed_up() {
    let summary = BackfillSummary::of(&vec![false, true, true]);
    assert_eq!(summary.total_builds, 3);
    assert_eq!(summary.failed_uploads, 2);
    assert_eq!(summary.to_text(), "3 total, 2 failed");
}

#[test]
fn locations_are_required() {
    let config = Config {
        artifact_location: Some("gs://a".into()),
        redis_location: Some("redis://r".into()),
        database_location: None,
    };
    let service = required_locations(&config, false).unwrap();
    assert_eq!(service.redis, "redis://r");
    assert_eq!(service.artifacts, "gs://a");
    assert_eq!(service.database, None);
    assert!(matches!(
        required_locations(&config, true).unwrap_err(),
        UploadError::MissingConfig("database_location")
    ));
    let nothing = Config {
        artifact_location: None,
        redis_location: None,
        database_location: None,
    };
    assert!(matches!(
        required_locations(&nothing, false).unwrap_err(),
        UploadError::MissingConfig(_)
    ));
    assert_eq!(config.artifact_location(), Some("gs://a"));
}

#[test]
fn tasks_end_one_way_or_the_other() {
    assert!(join_result("web", TaskEnd::Returned(Ok(()))).is_ok());
    let failed = join_result("web", TaskEnd::Returned(Err(UploadError::NoChangesFiles)));
    assert!(matches!(failed, Err(UploadError::NoChangesFiles)));
    let panicked = join_result("web", TaskEnd::Panicked("oops".into())).unwrap_err();
    assert!(matches!(&panicked, UploadError::TaskPanic { name: "web", source } if source == "oops"));
}

#[test]
fn upload_errors_have_texts() {
    let config = ConfigError {
        path: "janitor.conf".into(),
        message: "no such file".into(),
    };
    assert_eq!(
        config.to_text(),
        "failed to load config from janitor.conf: no such file"
    );
    let texts = vec![
        (
            UploadError::DebsignFailure("x".into()),
            "Failed to sign package: x",
        ),
        (
            UploadError::DputFailure("x".into()),
            "Failed to upload package: x",
        ),
        (
            UploadError::NoPackagesUploaded,
            "no packages uploaded for run",
        ),
        (
            UploadError::PartialUpload {
                successful: 1,
                total: 3,
            },
            "partial upload: 1/3 packages uploaded",
        ),
        (
            UploadError::ArtifactsMissing("r".into()),
            "Artifacts missing for run r",
        ),
        (
            UploadError::NoChangesFiles,
            "No changes files found in artifacts",
        ),
        (UploadError::DatabaseConnect("x".into()), "x"),
        (UploadError::Janitor("x".into()), "x"),
        (UploadError::Redis("x".into()), "Redis error: x"),
        (UploadError::Io("x".into()), "IO error: x"),
        (UploadError::Config("x".into()), "Configuration error: x"),
        (
            UploadError::MissingConfig("redis_location"),
            "no redis_location configured",
        ),
        (
            UploadError::TaskPanic {
                name: "web",
                source: "oops".into(),
            },
            "web task panicked: oops",
        ),
        (
            UploadError::ConfigLoad(config),
            "failed to load config from janitor.conf: no such file",
        ),
    ];
    for (error, text) in texts {
        assert_eq!(error.to_text(), text);
    }
}

#[test]
fn packages_are_signed_before_they_are_uploaded() {
    let mut flow = upload_build_result(3);
    assert_eq!(flow.next(), UploadStep::Sign { position: 0 });
    flow.note_signed(true);
    assert_eq!(flow.next(), UploadStep::Upload { position: 0 });
    flow.note_uploaded(true);
    assert_eq!(flow.next(), UploadStep::Sign { position: 1 });
    flow.note_signed(false);
    assert_eq!(flow.next(), UploadStep::Sign { position: 2 });
    flow.note_signed(true);
    flow.note_uploaded(false);
    assert_eq!(flow.next(), UploadStep::Done);
    assert_eq!(
        flow.outcomes,
        vec![
            PackageOutcome::Uploaded,
            PackageOutcome::SignFailed,
            PackageOutcome::UploadFailed,
        ]
    );
    assert_eq!(upload_build_result(0).next(), UploadStep::Done);
}
