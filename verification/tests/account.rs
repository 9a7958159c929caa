//! What the command line shows of the account, and the profiles of an engine.

use zeron_core::auth::service::Auth;
use zeron_core::auth::session::{
    persist_invalidation, ManifestRead, PersistedSessionState, SessionManifest,
};
use zeron_core::auth::types::{error, AuthConfig, AuthState, AuthUser, StoredSession};
use zeron_core::cli::{
    account_status, engine_lock_error, login_report, login_start, logout_report, reported_scope,
    status_lines, LoginStart,
};
use zeron_core::profile::{
    load_or_create_local_profile_id, local_profile_published, sanitize_path_id, EngineProfile,
    LocalProfileStep, ProfilePublish, ProfileRead,
};
use zeron_core::proto::profile::ProfileScope;

fn user() -> AuthUser {
    AuthUser {
        id: "user-1".into(),
        email: "user@example.com".into(),
        name: None,
    }
}

#[test]
fn signed_out_local_status_is_healthy() {
    let status = account_status(ProfileScope::Local, &AuthState::SignedOut);
    assert_eq!(status.mode, "local only");
    assert_eq!(status.auth, "signed out (optional in local-only mode)");
    assert!(status.healthy);
}

#[test]
fn synced_status_still_requires_a_complete_account() {
    assert!(
        !account_status(
            ProfileScope::Synced,
            &AuthState::NeedsOrganization { user: user() },
        )
        .healthy
    );
    assert!(
        account_status(
            ProfileScope::Synced,
            &AuthState::SignedIn {
                user: user(),
                org_id: Some("org-1".into()),
            },
        )
        .healthy
    );
    assert!(!account_status(ProfileScope::Synced, &AuthState::SignedOut).healthy);
}

#[test]
fn login_and_logout_lock_out_a_running_engine() {
    for verb in ["sign in", "sign out"] {
        let failure = engine_lock_error(verb, "lock held");
        assert!(failure.message().contains("while an engine is running"));
        assert!(failure.message().contains("stop it first"));
        assert!(failure.message().contains(verb));
        assert!(failure.message().starts_with("lock held\n"));
    }
}

#[test]
fn a_login_starts_by_how_things_stand() {
    let signed_in = AuthState::SignedIn { user: user(), org_id: Some("org-1".into()) };
    assert!(matches!(login_start(true, &AuthState::SignedOut, true), LoginStart::SignIn));
    assert!(matches!(
        login_start(true, &AuthState::SignedOut, false),
        LoginStart::NeedsTerminal
    ));
    assert!(matches!(login_start(true, &signed_in, true), LoginStart::Say(_)));
    assert!(matches!(login_start(false, &AuthState::SignedOut, true), LoginStart::Say(_)));
    let report = login_report(&signed_in).join("\n");
    assert!(report.contains("user@example.com"), "unexpected: {report}");
}

#[test]
fn a_logout_reports_its_failure() {
    let signed_in = AuthState::SignedIn { user: user(), org_id: None };
    let failure = logout_report(true, &signed_in, "/data/session.json", Err(error("no disk")))
        .expect_err("not cleared");
    assert_eq!(
        failure.message(),
        "could not durably sign out user@example.com: no disk"
    );
    let failure = logout_report(true, &AuthState::SignedOut, "/data/session.json", Err(error("no disk")))
        .expect_err("not cleared");
    assert_eq!(
        failure.message(),
        "could not durably clear the stale auth session: no disk"
    );
    assert!(logout_report(true, &signed_in, "/data/session.json", Ok(())).is_ok());
}

#[test]
fn a_live_engine_speaks_for_its_scope() {
    assert_eq!(
        reported_scope(Some(ProfileScope::Synced), ProfileScope::Local),
        ProfileScope::Synced
    );
    assert_eq!(reported_scope(None, ProfileScope::Local), ProfileScope::Local);
    let account = account_status(ProfileScope::Local, &AuthState::SignedOut);
    let lines = status_lines("/data", "https://edge", &account, Some(42), true, 7171).join("\n");
    assert!(lines.contains("42"), "unexpected: {lines}");
    assert!(lines.contains("7171"), "unexpected: {lines}");
    assert!(lines.contains("/data"), "unexpected: {lines}");
}

fn local_id(read: ProfileRead) -> String {
    match load_or_create_local_profile_id("/data/local-profile.json", read) {
        LocalProfileStep::Done(result) => result.expect("id"),
        LocalProfileStep::Create(id) => {
            local_profile_published("/data/local-profile.json", id, ProfilePublish::Linked)
                .expect("published")
        }
    }
}

#[test]
fn local_profile_id_is_stable_and_not_the_dev_identity() {
    let created = match load_or_create_local_profile_id("/p", ProfileRead::Missing) {
        LocalProfileStep::Create(id) => id,
        other => panic!("unexpected step: {other:?}"),
    };
    let first = EngineProfile::local(
        "/data",
        local_profile_published("/p", created, ProfilePublish::Linked).expect("published"),
    );
    let second = EngineProfile::local("/data", local_id(ProfileRead::Id(created)));
    assert!(!first.user_id().is_empty());
    assert_ne!(first.user_id(), "dev-user");
    assert_eq!(first.user_id(), second.user_id());
    assert!(uuid::Uuid::parse_str(first.user_id()).is_ok());
    assert_eq!(uuid::Uuid::from_u128(created).get_version_num(), 4);
    assert_eq!(&first.user_id()[14..15], "4");
}

#[test]
fn local_profiles_in_different_data_dirs_have_different_ids() {
    let first = EngineProfile::local("/one", local_id(ProfileRead::Missing));
    let second = EngineProfile::local("/two", local_id(ProfileRead::Missing));
    assert_ne!(first.user_id(), second.user_id());
}

/// The path of a directory of a profile.
fn rooted(profile: &EngineProfile, directories: &[String]) -> String {
    let mut path = std::path::PathBuf::from(profile.device_root());
    for directory in directories {
        path.push(directory);
    }
    path.display().to_string()
}

#[test]
fn local_profile_resolves_isolated_store_and_upload_roots() {
    let profile = EngineProfile::local("/data", local_id(ProfileRead::Missing));
    assert_eq!(profile.scope(), ProfileScope::Local);
    assert_eq!(rooted(&profile, profile.store_root()), "/data/profiles/local");
    assert_eq!(rooted(&profile, profile.uploads_root()), "/data/profiles/local/uploads");
}

#[test]
fn synced_profile_uses_account_scoped_roots() {
    let profile = EngineProfile::synced("/data", "org/example", "user@example.com");
    assert_eq!(profile.scope(), ProfileScope::Synced);
    assert_eq!(
        rooted(&profile, profile.store_root()),
        "/data/orgs/org_example/user_example_com"
    );
    assert_eq!(
        rooted(&profile, profile.uploads_root()),
        "/data/orgs/org_example/user_example_com/uploads"
    );
}

#[test]
fn development_profile_uses_account_scoped_roots() {
    let profile = EngineProfile::development("/data", "dev-org", "dev-user");
    assert_eq!(profile.scope(), ProfileScope::Development);
    assert_eq!(rooted(&profile, profile.store_root()), "/data/orgs/dev-org/dev-user");
    assert_eq!(profile.device_root(), "/data");
    assert_eq!(sanitize_path_id("../a b.é"), "___a_b__");
}

#[test]
fn another_process_may_create_the_profile_first() {
    let winner = local_profile_published(
        "/p",
        1,
        ProfilePublish::AlreadyExists(ProfileRead::Id(0x0123_4567_89ab_cdef_0123_4567_89ab_cdef)),
    )
    .expect("the winner's id");
    assert_eq!(winner, "01234567-89ab-cdef-0123-456789abcdef");
    assert!(local_profile_published("/p", 1, ProfilePublish::NotWritten(error("full"))).is_err());
    assert!(local_profile_published("/p", 1, ProfilePublish::NotLinked(error("no"))).is_err());
    for bad in [ProfileRead::Unreadable("denied".into()), ProfileRead::Malformed("x".into())] {
        match load_or_create_local_profile_id("/p", bad) {
            LocalProfileStep::Done(result) => assert!(result.is_err()),
            other => panic!("unexpected step: {other:?}"),
        }
    }
}

#[test]
fn local_and_account_stores_lie_apart() {
    let local = EngineProfile::local("/data", local_id(ProfileRead::Missing));
    let synced = EngineProfile::synced("/data", "profiles", "local");
    let other = EngineProfile::synced("/data", "profiles", "local2");
    let inside = |a: &EngineProfile, b: &EngineProfile| {
        rooted(a, a.uploads_root()).starts_with(&(rooted(b, b.store_root()) + "/"))
    };
    assert!(inside(&local, &local) && inside(&synced, &synced));
    assert!(!inside(&local, &synced) && !inside(&synced, &local));
    assert!(!inside(&other, &synced) && !inside(&synced, &other));
}

fn engine_auth(manifest: &ManifestRead, session: Option<StoredSession>) -> Auth {
    let mut config = AuthConfig::new("http://127.0.0.1:1".into(), "/data".into());
    config.workos_client_id = Some("client_test".into());
    Auth::new(config, manifest, session)
}

#[test]
fn logout_makes_the_next_engine_start_local() {
    let session = || StoredSession {
        refresh_token: "refresh-1".into(),
        user: user(),
        org_id: Some("org-1".into()),
    };
    let mut before = engine_auth(&ManifestRead::Missing, Some(session()));
    assert!(before.loaded_workos_session());

    let state = before.state();
    let signed_out = before.sign_out(persist_invalidation(Ok(())));
    logout_report(true, &state, "/data/session.json", signed_out).expect("signed out");

    // Even a session file that could not be removed stays behind the fence.
    let fence = ManifestRead::Read(Some(SessionManifest {
        state: PersistedSessionState::SignedOut,
        version: 1,
    }));
    let after = engine_auth(&fence, Some(session()));
    assert!(!after.loaded_workos_session());
    assert_eq!(after.state(), AuthState::SignedOut);
}

#[test]
fn logout_reports_a_durable_invalidation_failure() {
    let mut auth = engine_auth(&ManifestRead::Unreadable, None);
    let state = auth.state();
    let signed_out = auth.sign_out(persist_invalidation(Err("is a directory".into())));
    let failure = logout_report(true, &state, "/data/session.json", signed_out)
        .expect_err("not cleared");
    let error = failure.message();
    assert!(
        error.contains("could not durably clear the stale auth session"),
        "unexpected error: {error}"
    );
    assert!(
        error.contains("could not durably invalidate auth session"),
        "unexpected error: {error}"
    );
}
