//! Sign-in, sessions and workspaces, driven over a disk and an edge held in memory.

use base64::Engine as _;
use zeron_core::auth::access::{background_wait, jwt_payload, AccessEntry, Clock, JwtClaims};
use zeron_core::auth::loopback::{
    callback_outcome, callback_response, head_complete, page, read_callback, read_callback_bytes, CallbackOutcome,
    CallbackRequest,
};
use zeron_core::auth::orgs::{
    begin_create_org, begin_delete_org, choose_fallback, default_org_name, org_created, selected,
    wants_default_org, CreateOrgStep, DeleteOrgStep,
};
use zeron_core::auth::refresh::{
    begin_refresh, read_reply, RefreshFailurePolicy, RefreshResponse, RefreshStep, RefreshTokens,
};
use zeron_core::auth::requests::{
    classify_response, edge_endpoint, full_name, member_path, members_path, org_path,
    read_exchange, EdgeResponse, Exchange, ExchangeResponse,
};
use zeron_core::auth::service::{Auth, RefreshLoopAction, TokenSourcing};
use zeron_core::auth::session::{
    manifest_text, persist_active_session, persist_invalidation, persist_next, startup_session,
    ManifestRead, PersistStep, PersistedSessionState, SessionManifest, ACTIVE_SESSION_MANIFEST,
    SIGNED_OUT_SESSION_MANIFEST,
};
use zeron_core::auth::types::{
    default_role, error, AuthConfig, AuthState, AuthUser, AuthedRequestError, DeleteOrgOutcome, EngineError,
    OrgMembership, SignInResult, StoredSession,
};
use zeron_core::encoding::base64url_decode;

const NOW: Clock = Clock { monotonic: 1_000_000_000_000, wall: 1_700_000_000_000_000_000 };

/// What an edge answers: a status and a body, or a response cut short.
struct Answer {
    status: u16,
    body: &'static str,
    truncated: bool,
}

fn answer(status: u16, body: &'static str) -> Answer {
    Answer { status, body, truncated: false }
}

/// The session files of a device.
struct TestDisk {
    manifest: ManifestRead,
    session: Option<StoredSession>,
    /// The number of writes that still succeed.
    writes_left: usize,
    /// The session file cannot be replaced.
    session_blocked: bool,
}

impl TestDisk {
    fn new() -> Self {
        TestDisk {
            manifest: ManifestRead::Missing,
            session: None,
            writes_left: usize::MAX,
            session_blocked: false,
        }
    }

    fn spend(&mut self) -> Result<(), String> {
        if self.writes_left == 0 {
            return Err("injected active publication failure".into());
        }
        self.writes_left -= 1;
        Ok(())
    }

    fn write_manifest(&mut self, text: &str) -> Result<(), String> {
        self.spend()?;
        let value: serde_json::Value = serde_json::from_str(text).expect("manifest parses");
        let state = match value["state"].as_str() {
            Some("active") => PersistedSessionState::Active,
            Some("signedOut") => PersistedSessionState::SignedOut,
            other => panic!("unknown manifest state: {other:?}"),
        };
        let version = value["version"].as_u64().expect("version") as u8;
        self.manifest = ManifestRead::Read(Some(SessionManifest { state, version }));
        Ok(())
    }

    fn write_session(&mut self, session: &StoredSession) -> Result<(), String> {
        self.spend()?;
        if self.session_blocked {
            return Err("is a directory".into());
        }
        self.session = Some(session.clone());
        Ok(())
    }

    /// Publishes a session the way the library says.
    fn publish(&mut self, session: &StoredSession) -> Result<(), EngineError> {
        let mut step = persist_active_session(Ok(()));
        loop {
            let outcome = match &step {
                PersistStep::Fence | PersistStep::Publish => {
                    self.write_manifest(manifest_text(&step).expect("manifest write"))
                }
                PersistStep::Credentials => self.write_session(session),
                PersistStep::Done => return Ok(()),
                PersistStep::Failed(_) => Ok(()),
            };
            if let PersistStep::Failed(e) = step {
                return Err(e);
            }
            step = persist_next(step, outcome);
        }
    }

    /// Fences the session and removes its file.
    fn invalidate(&mut self) -> Result<(), EngineError> {
        let fence = self.write_manifest(SIGNED_OUT_SESSION_MANIFEST);
        let fenced = fence.is_ok();
        let result = persist_invalidation(fence);
        if fenced && !self.session_blocked {
            self.session = None;
        }
        result
    }

    fn is_active(&self) -> bool {
        self.manifest
            == ManifestRead::Read(Some(SessionManifest {
                state: PersistedSessionState::Active,
                version: 1,
            }))
    }

    fn is_signed_out(&self) -> bool {
        self.manifest
            == ManifestRead::Read(Some(SessionManifest {
                state: PersistedSessionState::SignedOut,
                version: 1,
            }))
    }

    fn restart(&self) -> Auth {
        Auth::new(config(), &self.manifest, self.session.as_ref().cloned())
    }
}

fn config() -> AuthConfig {
    let mut config = AuthConfig::new("http://127.0.0.1:9".into(), "/data".into());
    config.workos_client_id = Some("client_1".into());
    config
}

fn user() -> AuthUser {
    AuthUser {
        id: "user_1".into(),
        email: "user@example.com".into(),
        name: Some("Example User".into()),
    }
}

fn jwt_for_org(org_id: &str) -> String {
    let payload = format!("{{\"iat\":1700000000,\"exp\":4100000000,\"org_id\":\"{org_id}\"}}");
    format!(
        "header.{}.signature",
        base64::engine::general_purpose::URL_SAFE_NO_PAD.encode(payload)
    )
}

fn claims_of(token: &str) -> Option<JwtClaims> {
    let payload = jwt_payload(token)?;
    let value: serde_json::Value = serde_json::from_slice(&payload).ok()?;
    Some(JwtClaims {
        exp: value["exp"].as_i64(),
        iat: value["iat"].as_i64(),
        org_id: value["org_id"].as_str().map(str::to_owned),
    })
}

/// A signed-in service, with its session on disk.
fn workos_auth(org_id: &str) -> (Auth, TestDisk) {
    let mut disk = TestDisk::new();
    let session = StoredSession {
        refresh_token: "refresh_old".into(),
        user: user(),
        org_id: Some(org_id.into()),
    };
    disk.publish(&session).expect("persist test session");
    let mut auth = Auth::new(config(), &disk.manifest, Some(session));
    let token = jwt_for_org(org_id);
    let claims = claims_of(&token);
    auth.access = Some(AccessEntry::fresh(token, &claims, NOW));
    (auth, disk)
}

fn tokens_of(body: &str) -> Result<RefreshTokens, String> {
    let value: serde_json::Value = serde_json::from_str(body).map_err(|e| e.to_string())?;
    match (value["accessToken"].as_str(), value["refreshToken"].as_str()) {
        (Some(access), Some(refresh)) => Ok(RefreshTokens {
            access_token: access.into(),
            refresh_token: refresh.into(),
            claims: claims_of(access),
        }),
        _ => Err("missing field `accessToken`".into()),
    }
}

fn refresh_response(answer: &Answer) -> RefreshResponse {
    if answer.truncated {
        return RefreshResponse::BodyUnread {
            status: answer.status,
            cause: "unexpected end of file".into(),
        };
    }
    RefreshResponse::Complete {
        status: answer.status,
        body: answer.body.as_bytes().to_vec(),
        tokens: tokens_of(answer.body),
    }
}

/// Runs a refresh to its end. `while_sending` may do something while the request is on
/// its way; the addresses and bodies of the requests are recorded.
fn run_refresh(
    auth: &mut Auth,
    disk: &mut TestDisk,
    organization_id: Option<&str>,
    policy: RefreshFailurePolicy,
    response: RefreshResponse,
    requests: &mut Vec<String>,
    while_sending: &mut dyn FnMut(&mut Auth, &mut TestDisk),
) -> Result<Option<String>, EngineError> {
    let mut response = Some(response);
    let mut step = begin_refresh(auth, organization_id.map(str::to_owned), policy, &NOW);
    loop {
        step = match step {
            RefreshStep::Done(result) => return result,
            RefreshStep::Fence(refresh) => {
                let outcome = disk.invalidate();
                refresh.fenced(outcome)
            }
            RefreshStep::ReadManifest(check) => check.manifest_read(auth, &disk.manifest),
            RefreshStep::Send(refresh) => {
                let request = refresh.request(auth);
                requests.push(format!(
                    "{} {} {:?}",
                    request.url, request.refresh_token, request.organization_id
                ));
                while_sending(auth, disk);
                let reply = read_reply(response.take().expect("one request"));
                refresh.replied(auth, reply, NOW)
            }
            RefreshStep::SignOut(revoked) => {
                let outcome = disk.invalidate();
                revoked.fenced(auth, outcome)
            }
            RefreshStep::Restore(rejected) => {
                let prior = rejected.prior.clone();
                let outcome = disk.publish(&prior);
                rejected.restored(auth, outcome)
            }
            RefreshStep::CommitFence(commit) => {
                let outcome = disk.invalidate();
                commit.fenced(outcome)
            }
            RefreshStep::Publish(commit) => {
                let candidate = commit.candidate.clone();
                let outcome = disk.publish(&candidate);
                commit.published(auth, outcome)
            }
        };
    }
}

/// Switches to a workspace, as `select_org` does.
fn select_org(
    auth: &mut Auth,
    disk: &mut TestDisk,
    org_id: &str,
    reply: Answer,
    requests: &mut Vec<String>,
) -> Result<(), EngineError> {
    auth.begin_profile_transition();
    let refreshed = run_refresh(
        auth,
        disk,
        Some(org_id),
        RefreshFailurePolicy::RestoreOnDefiniteRejection,
        refresh_response(&reply),
        requests,
        &mut |_, _| {},
    );
    auth.end_profile_transition();
    selected(refreshed)
}

fn bearer(auth: &Auth) -> Option<String> {
    match auth.access_token(&NOW) {
        TokenSourcing::Bearer(token) => Some(token),
        TokenSourcing::Refresh => None,
    }
}

/// The value that a body holds under a key.
fn text_value(body: &str, key: &str) -> Result<String, String> {
    let value: serde_json::Value = serde_json::from_str(body).map_err(|e| e.to_string())?;
    value[key].as_str().map(str::to_owned).ok_or_else(|| format!("missing field `{key}`"))
}

/// Creates a workspace: the answers are those to the creation, the switch and, where it
/// comes to that, the roll-back.
fn create_org(
    auth: &mut Auth,
    disk: &mut TestDisk,
    answers: Vec<Answer>,
    requests: &mut Vec<String>,
) -> Result<String, EngineError> {
    let mut answers = answers.into_iter();
    let mut step = begin_create_org(auth, bearer(auth));
    loop {
        step = match step {
            CreateOrgStep::Done(result) => return result,
            CreateOrgStep::Create(token) => {
                requests.push("POST /auth/orgs".into());
                let reply = answers.next().expect("answer to the creation");
                let created = classify_response(EdgeResponse::Complete {
                    status: reply.status,
                    body: reply.body.as_bytes().to_vec(),
                    value: text_value(reply.body, "organizationId"),
                });
                org_created(token, created.map_err(AuthedRequestError::into_engine_error))
            }
            CreateOrgStep::Select(created) => {
                let org = created.organization_id.clone();
                requests.push("POST /auth/refresh".into());
                let reply = answers.next().expect("answer to the switch");
                let outcome = select_org(auth, disk, &org, reply, &mut Vec::new());
                created.selected(outcome)
            }
            CreateOrgStep::RollBack(unselected) => {
                requests.push(format!("DELETE {}", org_path(&unselected.organization_id)));
                assert_eq!(unselected.token, jwt_for_org("org_prior"));
                let reply = answers.next().expect("answer to the roll-back");
                let rolled = classify_response(EdgeResponse::Complete {
                    status: reply.status,
                    body: reply.body.as_bytes().to_vec(),
                    value: Ok::<(), String>(()),
                });
                unselected.rolled_back(rolled.map_err(AuthedRequestError::into_engine_error))
            }
        };
    }
}

fn memberships_of(body: &str) -> Result<Vec<OrgMembership>, String> {
    let value: serde_json::Value = serde_json::from_str(body).map_err(|e| e.to_string())?;
    let list = value["orgs"].as_array().cloned().unwrap_or_default();
    Ok(list
        .iter()
        .map(|org| OrgMembership {
            id: org["id"].as_str().unwrap_or_default().into(),
            organization_id: org["organizationId"].as_str().unwrap_or_default().into(),
            name: org["name"].as_str().unwrap_or_default().into(),
            role: org["role"].as_str().unwrap_or_default().into(),
        })
        .collect())
}

/// Deletes a workspace: the answers are those to the deletion, the list and the switch.
fn delete_org(
    auth: &mut Auth,
    disk: &mut TestDisk,
    org_id: &str,
    answers: Vec<Answer>,
    requests: &mut Vec<String>,
    while_deleting: &mut dyn FnMut(&mut Auth),
) -> Result<DeleteOrgOutcome, EngineError> {
    let mut answers = answers.into_iter();
    auth.begin_profile_transition();
    let mut step = begin_delete_org(auth, org_id.into(), bearer(auth));
    let result = loop {
        step = match step {
            DeleteOrgStep::Done(result) => break result,
            DeleteOrgStep::Fence(deletion) => {
                let outcome = disk.invalidate();
                deletion.fenced(outcome)
            }
            DeleteOrgStep::Delete(deletion) => {
                requests.push(format!("DELETE {}", deletion.path()));
                while_deleting(auth);
                let reply = answers.next().expect("answer to the deletion");
                let response = if reply.truncated {
                    EdgeResponse::BodyUnread {
                        status: reply.status,
                        cause: "unexpected end of file".into(),
                    }
                } else {
                    EdgeResponse::Complete {
                        status: reply.status,
                        body: reply.body.as_bytes().to_vec(),
                        value: Ok(()),
                    }
                };
                deletion.deleted(auth, classify_response(response))
            }
            DeleteOrgStep::Restore(rejected) => {
                let prior = rejected.prior.clone();
                let outcome = disk.publish(&prior);
                rejected.restored(auth, outcome)
            }
            DeleteOrgStep::List(deleted) => {
                requests.push("GET /auth/orgs".into());
                let reply = answers.next().expect("answer to the list");
                let listed = classify_response(EdgeResponse::Complete {
                    status: reply.status,
                    body: reply.body.as_bytes().to_vec(),
                    value: memberships_of(reply.body),
                });
                deleted.listed(auth, listed.map_err(AuthedRequestError::into_engine_error))
            }
            DeleteOrgStep::Switch(fallback) => {
                requests.push("POST /auth/refresh".into());
                let org = fallback.organization_id.clone();
                let reply = answers.next().expect("answer to the switch");
                let refreshed = run_refresh(
                    auth,
                    disk,
                    Some(&org),
                    RefreshFailurePolicy::KeepInvalidated,
                    refresh_response(&reply),
                    &mut Vec::new(),
                    &mut |_, _| {},
                );
                fallback.refreshed(auth, refreshed)
            }
        };
    };
    auth.end_profile_transition();
    result
}

fn stored_org(auth: &Auth) -> Option<String> {
    auth.stored.as_ref().and_then(|s| s.org_id.clone())
}

#[test]
fn base64url_round_trips_jwt_payload() {
    let payload = br#"{"exp":100,"iat":40,"org_id":"org_1"}"#;
    // Standard base64url without padding (as JWTs use).
    let encoded = {
        const ALPHABET: &[u8] =
            b"ABCDEFGHIJKLMNOPQRSTUVWXYZabcdefghijklmnopqrstuvwxyz0123456789-_";
        let mut out = String::new();
        for chunk in payload.chunks(3) {
            let b = [chunk[0], *chunk.get(1).unwrap_or(&0), *chunk.get(2).unwrap_or(&0)];
            let n = (u32::from(b[0]) << 16) | (u32::from(b[1]) << 8) | u32::from(b[2]);
            out.push(ALPHABET[(n >> 18) as usize & 63] as char);
            out.push(ALPHABET[(n >> 12) as usize & 63] as char);
            if chunk.len() > 1 {
                out.push(ALPHABET[(n >> 6) as usize & 63] as char);
            }
            if chunk.len() > 2 {
                out.push(ALPHABET[n as usize & 63] as char);
            }
        }
        out
    };
    assert_eq!(base64url_decode(&encoded).as_deref(), Some(payload.as_slice()));
    let token = format!("h.{encoded}.sig");
    let claims = claims_of(&token).expect("claims decode");
    assert_eq!(claims.exp, Some(100));
    assert_eq!(claims.iat, Some(40));
    assert_eq!(claims.org_id.as_deref(), Some("org_1"));
}

#[test]
fn a_token_without_a_payload_has_no_claims() {
    assert!(jwt_payload("onlyonepart").is_none());
    assert!(jwt_payload("a.!!.b").is_none());
    assert_eq!(jwt_payload("a.e30.b"), Some(b"{}".to_vec()));
}

#[test]
fn unpublished_session_is_fenced_when_active_manifest_publication_fails() {
    let (auth, mut disk) = workos_auth("org_prior");
    let candidate = StoredSession {
        refresh_token: "refresh_unpublished".into(),
        user: auth.stored.as_ref().expect("prior session").user.clone(),
        org_id: Some("org_unpublished".into()),
    };
    disk.writes_left = 2;
    let failure = disk.publish(&candidate).expect_err("active publication should fail");
    assert!(
        failure.message().contains("could not be durably published"),
        "unexpected error: {}",
        failure.message()
    );
    assert_eq!(disk.session.as_ref(), Some(&candidate));
    assert!(disk.is_signed_out());
    assert_eq!(disk.restart().state(), AuthState::SignedOut);
}

#[test]
fn each_failed_write_of_a_publication_is_named() {
    let named = |writes: usize| {
        let (auth, mut disk) = workos_auth("org_prior");
        let session = auth.stored.as_ref().expect("session").clone();
        disk.writes_left = writes;
        disk.publish(&session).expect_err("a write fails").message().to_owned()
    };
    assert_eq!(
        named(0),
        "could not durably fence auth session before update: injected active publication failure"
    );
    assert_eq!(
        named(1),
        "could not durably persist auth session: injected active publication failure"
    );
    assert_eq!(
        named(2),
        "auth session was written but could not be durably published: injected active publication failure"
    );
    match persist_active_session(Err("no".into())) {
        PersistStep::Failed(e) => assert_eq!(e.message(), "could not serialize auth session: no"),
        other => panic!("unexpected step: {other:?}"),
    }
    assert_eq!(ACTIVE_SESSION_MANIFEST, r#"{"state":"active","version":1}"#);
}

#[test]
fn invalid_or_unknown_session_manifest_fails_closed() {
    let (_, mut disk) = workos_auth("org_prior");
    disk.write_manifest(r#"{"state":"active","version":2}"#)
        .expect("write unknown manifest version");
    let restarted = disk.restart();
    assert_eq!(restarted.state(), AuthState::SignedOut);
    assert!(!restarted.loaded_workos_session());

    for manifest in [ManifestRead::Unreadable, ManifestRead::Read(None)] {
        disk.manifest = manifest;
        assert_eq!(disk.restart().state(), AuthState::SignedOut);
    }
    disk.manifest = ManifestRead::Missing;
    assert_eq!(disk.restart().state().org_id(), Some("org_prior"));
    assert!(startup_session(false, &ManifestRead::Missing, disk.session).is_none());
}

#[test]
fn authed_json_surfaces_edge_error_message_and_details() {
    let failure = classify_response(EdgeResponse::Complete {
        status: 409,
        body: br#"{"error":"operation rejected","message":"member update failed","details":{"reason":"cannot remove the last admin"}}"#
            .to_vec(),
        value: Ok(()),
    })
    .expect_err("edge rejection should surface")
    .into_engine_error();
    assert_eq!(
        failure.message(),
        "workspace request failed (409): operation rejected; member update failed; cannot remove the last admin"
    );
    assert_eq!(members_path("org_1"), "/auth/orgs/org_1/members");
}

#[test]
fn paths_and_endpoints_of_the_edge() {
    assert_eq!(edge_endpoint("https://edge.example//", "/auth/orgs"), "https://edge.example/auth/orgs");
    assert_eq!(org_path("org_1"), "/auth/orgs/org_1");
    assert_eq!(member_path("org_1", "m_2"), "/auth/orgs/org_1/members/m_2");
}

#[test]
fn responses_without_an_answer_are_ambiguous() {
    let of = |r: EdgeResponse<()>| match classify_response(r) {
        Err(AuthedRequestError::Ambiguous(e)) => e.message().to_owned(),
        other => panic!("unexpected result: {other:?}"),
    };
    assert_eq!(of(EdgeResponse::Unreachable("refused".into())), "the edge is unreachable: refused");
    assert_eq!(
        of(EdgeResponse::BodyUnread { status: 200, cause: "eof".into() }),
        "workspace request failed (200): could not read the response: eof"
    );
    assert_eq!(
        of(EdgeResponse::Complete { status: 200, body: b"[]".to_vec(), value: Err("bad".into()) }),
        "malformed response: bad"
    );
}

#[test]
fn create_org_returns_and_durably_selects_the_minted_id() {
    let (mut auth, mut disk) = workos_auth("org_prior");
    let mut requests = Vec::new();
    let minted = format!(
        "{{\"accessToken\":\"{}\",\"refreshToken\":\"refresh_minted\"}}",
        jwt_for_org("org_minted")
    );
    let organization_id = create_org(
        &mut auth,
        &mut disk,
        vec![
            answer(200, r#"{"organizationId":"org_minted"}"#),
            answer(200, Box::leak(minted.into_boxed_str())),
        ],
        &mut requests,
    )
    .expect("create and select workspace");
    assert_eq!(organization_id, "org_minted");
    assert_eq!(auth.state().org_id(), Some("org_minted"));
    let saved = disk.session.as_ref().expect("minted session persisted");
    assert_eq!(saved.org_id.as_deref(), Some("org_minted"));
    assert_eq!(saved.refresh_token, "refresh_minted");
    assert!(disk.is_active());
    assert_eq!(requests, ["POST /auth/orgs", "POST /auth/refresh"]);
}

#[test]
fn create_org_rolls_back_after_a_definite_select_rejection_without_deadlock() {
    let (mut auth, mut disk) = workos_auth("org_prior");
    let mut requests = Vec::new();
    let failure = create_org(
        &mut auth,
        &mut disk,
        vec![
            answer(200, r#"{"organizationId":"org_rolled_back"}"#),
            answer(403, r#"{"error":"selection forbidden"}"#),
            answer(200, r#"{"ok":true}"#),
        ],
        &mut requests,
    )
    .expect_err("selection should fail");
    let message = failure.message();
    assert!(message.contains("org_rolled_back"), "unexpected error: {message}");
    assert!(
        message.contains("was rolled back and creation may be retried"),
        "unexpected error: {message}"
    );
    assert_eq!(auth.state().org_id(), Some("org_prior"));
    assert_eq!(stored_org(&auth).as_deref(), Some("org_prior"));
    assert_eq!(
        requests,
        ["POST /auth/orgs", "POST /auth/refresh", "DELETE /auth/orgs/org_rolled_back"]
    );
}

#[test]
fn create_org_uses_the_pinned_bearer_to_rollback_an_ambiguous_select() {
    let (mut auth, mut disk) = workos_auth("org_prior");
    let mut requests = Vec::new();
    let failure = create_org(
        &mut auth,
        &mut disk,
        vec![
            answer(200, r#"{"organizationId":"org_ambiguous"}"#),
            answer(200, r#"{"unexpected":"rotated response"}"#),
            answer(200, r#"{"ok":true}"#),
        ],
        &mut requests,
    )
    .expect_err("ambiguous selection must fail after compensation");
    let message = failure.message();
    assert!(message.contains("org_ambiguous"), "unexpected error: {message}");
    assert!(
        message.contains("was rolled back and creation may be retried"),
        "unexpected error: {message}"
    );
    assert_eq!(auth.state(), AuthState::SignedOut);
    assert_eq!(disk.restart().state(), AuthState::SignedOut);
    assert_eq!(
        requests,
        ["POST /auth/orgs", "POST /auth/refresh", "DELETE /auth/orgs/org_ambiguous"]
    );
}

#[test]
fn create_org_failed_rollback_identifies_the_existing_org_and_forbids_blind_retry() {
    let (mut auth, mut disk) = workos_auth("org_prior");
    let mut requests = Vec::new();
    let failure = create_org(
        &mut auth,
        &mut disk,
        vec![
            answer(200, r#"{"organizationId":"org_maybe_exists"}"#),
            answer(403, r#"{"error":"selection forbidden"}"#),
            answer(503, r#"{"error":"rollback unavailable"}"#),
        ],
        &mut requests,
    )
    .expect_err("rollback should fail");
    let message = failure.message();
    assert!(
        message.contains("organizationId=org_maybe_exists"),
        "unexpected error: {message}"
    );
    assert!(message.contains("do not retry creation blindly"), "unexpected error: {message}");
    assert_eq!(auth.state().org_id(), Some("org_prior"));
    assert_eq!(
        requests,
        ["POST /auth/orgs", "POST /auth/refresh", "DELETE /auth/orgs/org_maybe_exists"]
    );
}

#[test]
fn creating_needs_a_bearer_and_dev_mode_creates_nothing() {
    let (auth, _) = workos_auth("org_prior");
    match begin_create_org(&auth, None) {
        CreateOrgStep::Done(Err(e)) => assert_eq!(e.message(), "not signed in"),
        other => panic!("unexpected step: {other:?}"),
    }
    let dev = Auth::new(
        AuthConfig::new("http://edge".into(), "/data".into()),
        &ManifestRead::Missing,
        None,
    );
    match begin_create_org(&dev, None) {
        CreateOrgStep::Done(Ok(id)) => assert_eq!(id, ""),
        other => panic!("unexpected step: {other:?}"),
    }
}

#[test]
fn select_org_rejection_restores_the_prior_durable_session() {
    let (mut auth, mut disk) = workos_auth("org_prior");
    let mut requests = Vec::new();
    let failure = select_org(
        &mut auth,
        &mut disk,
        "org_denied",
        answer(
            403,
            r#"{"error":"forbidden","message":"workspace selection rejected","details":{"reason":"membership was removed"}}"#,
        ),
        &mut requests,
    )
    .expect_err("selection should be rejected");
    assert_eq!(
        failure.message(),
        "refresh failed (403): forbidden; workspace selection rejected; membership was removed"
    );
    assert_eq!(auth.state().org_id(), Some("org_prior"));
    let stored = auth.stored.as_ref().expect("prior session");
    assert_eq!(stored.org_id.as_deref(), Some("org_prior"));
    assert_eq!(stored.refresh_token, "refresh_old");
    assert!(disk.is_active());
    assert_eq!(disk.restart().state().org_id(), Some("org_prior"));
    assert_eq!(
        requests,
        ["http://127.0.0.1:9/auth/refresh refresh_old Some(\"org_denied\")"]
    );
}

#[test]
fn routine_refresh_transient_response_preserves_the_prior_session() {
    let (mut auth, mut disk) = workos_auth("org_prior");
    auth.access = None;
    let failure = run_refresh(
        &mut auth,
        &mut disk,
        None,
        RefreshFailurePolicy::Routine,
        refresh_response(&answer(
            503,
            r#"{"error":"workos rate limited or unavailable","transient":true,"outcomeUnknown":false}"#,
        )),
        &mut Vec::new(),
        &mut |_, _| {},
    )
    .expect_err("transient routine refresh should be retryable");
    assert_eq!(
        failure.message(),
        "refresh failed (503): workos rate limited or unavailable"
    );
    assert_eq!(auth.state().org_id(), Some("org_prior"));
    assert_eq!(
        auth.stored.as_ref().map(|s| s.refresh_token.as_str()),
        Some("refresh_old")
    );
    assert_eq!(disk.restart().state().org_id(), Some("org_prior"));
}

#[test]
fn routine_refresh_unknown_upstream_outcome_preserves_the_prior_session() {
    let (mut auth, mut disk) = workos_auth("org_prior");
    auth.access = None;
    let failure = run_refresh(
        &mut auth,
        &mut disk,
        None,
        RefreshFailurePolicy::Routine,
        refresh_response(&answer(
            502,
            r#"{"error":"failed after token rotation","transient":true,"outcomeUnknown":true}"#,
        )),
        &mut Vec::new(),
        &mut |_, _| {},
    )
    .expect_err("unknown routine refresh should remain retryable");
    assert_eq!(failure.message(), "refresh failed (502): failed after token rotation");
    assert_eq!(auth.state().org_id(), Some("org_prior"));
    assert_eq!(
        auth.stored.as_ref().map(|s| s.refresh_token.as_str()),
        Some("refresh_old")
    );
    assert_eq!(disk.restart().state().org_id(), Some("org_prior"));
}

#[test]
fn a_rejected_routine_refresh_signs_a_dead_session_out() {
    let (mut auth, mut disk) = workos_auth("org_prior");
    auth.access = None;
    let result = run_refresh(
        &mut auth,
        &mut disk,
        None,
        RefreshFailurePolicy::Routine,
        refresh_response(&answer(401, r#"{"error":"invalid_grant"}"#)),
        &mut Vec::new(),
        &mut |_, _| {},
    );
    assert!(matches!(result, Ok(None)));
    assert_eq!(auth.state(), AuthState::SignedOut);
    assert!(disk.is_signed_out());
}

#[test]
fn a_usable_token_needs_no_refresh() {
    let (mut auth, mut disk) = workos_auth("org_prior");
    let mut requests = Vec::new();
    let result = run_refresh(
        &mut auth,
        &mut disk,
        None,
        RefreshFailurePolicy::Routine,
        refresh_response(&answer(500, "{}")),
        &mut requests,
        &mut |_, _| {},
    );
    assert_eq!(result.expect("cached"), Some(jwt_for_org("org_prior")));
    assert!(requests.is_empty());
}

#[test]
fn select_org_transient_rejection_restores_the_prior_session() {
    let (mut auth, mut disk) = workos_auth("org_prior");
    let failure = select_org(
        &mut auth,
        &mut disk,
        "org_target",
        answer(
            503,
            r#"{"error":"workos rate limited","transient":true,"outcomeUnknown":false,"upstreamStatus":429}"#,
        ),
        &mut Vec::new(),
    )
    .expect_err("rate-limited profile refresh should be rejected");
    assert_eq!(failure.message(), "refresh failed (503): workos rate limited");
    assert_eq!(auth.state().org_id(), Some("org_prior"));
    assert_eq!(disk.restart().state().org_id(), Some("org_prior"));
}

#[test]
fn select_org_unknown_upstream_outcome_keeps_the_signed_out_fence() {
    let (mut auth, mut disk) = workos_auth("org_prior");
    let failure = select_org(
        &mut auth,
        &mut disk,
        "org_target",
        answer(
            502,
            r#"{"error":"failed after token rotation","transient":true,"outcomeUnknown":true}"#,
        ),
        &mut Vec::new(),
    )
    .expect_err("unknown profile-refresh outcome must fail closed");
    assert!(
        failure
            .message()
            .contains("WorkOS reported that the refresh outcome is unknown"),
        "unexpected error: {}",
        failure.message()
    );
    assert_eq!(auth.state(), AuthState::SignedOut);
    assert!(auth.stored.is_none());
    assert_eq!(disk.restart().state(), AuthState::SignedOut);
}

#[test]
fn select_org_stops_before_refresh_when_the_durable_fence_cannot_be_written() {
    let (mut auth, mut disk) = workos_auth("org_prior");
    disk.writes_left = 0;
    let mut requests = Vec::new();
    let failure = select_org(
        &mut auth,
        &mut disk,
        "org_target",
        answer(200, "{}"),
        &mut requests,
    )
    .expect_err("selection must fail before network refresh");
    assert!(
        failure.message().contains("could not durably invalidate auth session"),
        "unexpected error: {}",
        failure.message()
    );
    assert!(requests.is_empty());
    assert_eq!(auth.state().org_id(), Some("org_prior"));
    assert!(disk.is_active());
    assert_eq!(disk.restart().state().org_id(), Some("org_prior"));
}

#[test]
fn malformed_select_success_invalidates_the_possibly_rotated_session() {
    let (mut auth, mut disk) = workos_auth("org_prior");
    let failure = select_org(
        &mut auth,
        &mut disk,
        "org_target",
        answer(200, r#"{"unexpected":true}"#),
        &mut Vec::new(),
    )
    .expect_err("malformed success is ambiguous");
    assert!(
        failure.message().contains("refresh outcome is uncertain"),
        "unexpected error: {}",
        failure.message()
    );
    assert_eq!(auth.state(), AuthState::SignedOut);
    assert!(auth.stored.is_none());
    assert_eq!(disk.restart().state(), AuthState::SignedOut);
}

#[test]
fn truncated_select_response_keeps_the_signed_out_fence() {
    let (mut auth, mut disk) = workos_auth("org_prior");
    let failure = select_org(
        &mut auth,
        &mut disk,
        "org_target",
        Answer { status: 200, body: "", truncated: true },
        &mut Vec::new(),
    )
    .expect_err("truncated response leaves profile refresh uncertain");
    assert!(
        failure.message().contains("refresh outcome is uncertain"),
        "unexpected error: {}",
        failure.message()
    );
    assert_eq!(auth.state(), AuthState::SignedOut);
    assert!(disk.is_signed_out());
    assert_eq!(disk.restart().state(), AuthState::SignedOut);
}

#[test]
fn mismatched_select_token_invalidates_the_possibly_rotated_session() {
    let (mut auth, mut disk) = workos_auth("org_prior");
    let body = format!(
        "{{\"accessToken\":\"{}\",\"refreshToken\":\"refresh_rotated\"}}",
        jwt_for_org("org_wrong")
    );
    let failure = select_org(
        &mut auth,
        &mut disk,
        "org_target",
        answer(200, Box::leak(body.into_boxed_str())),
        &mut Vec::new(),
    )
    .expect_err("wrong org claim must fail");
    assert!(
        failure.message().contains("the refresh token may have rotated"),
        "unexpected error: {}",
        failure.message()
    );
    assert_eq!(auth.state(), AuthState::SignedOut);
    assert_eq!(disk.restart().state(), AuthState::SignedOut);
}

fn concurrent_sign_in() -> SignInResult {
    SignInResult {
        user: AuthUser {
            id: "user_concurrent".into(),
            email: "concurrent@example.com".into(),
            name: Some("Concurrent User".into()),
        },
        access_token: jwt_for_org("org_concurrent"),
        refresh_token: "refresh_concurrent".into(),
    }
}

#[test]
fn select_org_does_not_report_success_over_a_concurrent_sign_in() {
    let (mut auth, mut disk) = workos_auth("org_prior");
    let body = format!(
        "{{\"accessToken\":\"{}\",\"refreshToken\":\"refresh_target\"}}",
        jwt_for_org("org_target")
    );
    let mut requests = Vec::new();
    let mut refused = String::new();
    auth.begin_profile_transition();
    let refreshed = run_refresh(
        &mut auth,
        &mut disk,
        Some("org_target"),
        RefreshFailurePolicy::RestoreOnDefiniteRejection,
        refresh_response(&answer(200, Box::leak(body.into_boxed_str()))),
        &mut requests,
        &mut |auth, _| {
            let generation = auth.sign_in.generation;
            let result = concurrent_sign_in();
            let claims = claims_of(&result.access_token);
            refused = auth
                .prepare_sign_in(result, claims, generation, NOW)
                .expect_err("profile transition must cancel a concurrent sign-in callback")
                .message()
                .to_owned();
        },
    );
    auth.end_profile_transition();
    assert!(refused.contains("sign-in was canceled"), "unexpected error: {refused}");
    selected(refreshed).expect("profile transition should commit after the callback is rejected");
    assert_eq!(auth.state().org_id(), Some("org_target"));
    let stored = auth.stored.as_ref().expect("selected session preserved");
    assert_eq!(stored.org_id.as_deref(), Some("org_target"));
    assert_eq!(stored.refresh_token, "refresh_target");
    assert_eq!(disk.session.as_ref(), Some(stored));
    assert_eq!(
        requests,
        ["http://127.0.0.1:9/auth/refresh refresh_old Some(\"org_target\")"]
    );
}

#[test]
fn sign_out_wins_over_an_in_flight_routine_refresh() {
    let (mut auth, mut disk) = workos_auth("org_prior");
    auth.access = None;
    let body = format!(
        "{{\"accessToken\":\"{}\",\"refreshToken\":\"refresh_rotated\"}}",
        jwt_for_org("org_prior")
    );
    let mut requests = Vec::new();
    let result = run_refresh(
        &mut auth,
        &mut disk,
        None,
        RefreshFailurePolicy::Routine,
        refresh_response(&answer(200, Box::leak(body.into_boxed_str()))),
        &mut requests,
        &mut |auth, disk| {
            let invalidated = disk.invalidate();
            auth.sign_out(invalidated).expect("durably sign out during refresh");
        },
    );
    assert_eq!(result.expect("refresh result"), None);
    assert_eq!(auth.state(), AuthState::SignedOut);
    assert!(auth.stored.is_none());
    assert!(auth.access.is_none());
    assert_eq!(disk.restart().state(), AuthState::SignedOut);
    assert_eq!(requests, ["http://127.0.0.1:9/auth/refresh refresh_old None"]);
}

#[test]
fn refresh_persistence_failure_keeps_fence_and_clears_memory() {
    let (mut auth, mut disk) = workos_auth("org_prior");
    auth.access = None;
    let body = format!(
        "{{\"accessToken\":\"{}\",\"refreshToken\":\"refresh_rotated\"}}",
        jwt_for_org("org_prior")
    );
    let failure = run_refresh(
        &mut auth,
        &mut disk,
        None,
        RefreshFailurePolicy::Routine,
        refresh_response(&answer(200, Box::leak(body.into_boxed_str()))),
        &mut Vec::new(),
        &mut |_, disk| {
            disk.session_blocked = true;
        },
    )
    .expect_err("refresh persistence should fail");
    assert!(
        failure.message().contains("could not be durably committed"),
        "unexpected error: {}",
        failure.message()
    );
    assert_eq!(auth.state(), AuthState::SignedOut);
    assert!(auth.stored.is_none());
    assert!(auth.access.is_none());
    assert!(disk.is_signed_out());
    assert_eq!(disk.restart().state(), AuthState::SignedOut);
}

#[test]
fn delete_org_rejection_restores_the_prior_durable_session() {
    let (mut auth, mut disk) = workos_auth("org_prior");
    let mut requests = Vec::new();
    let failure = delete_org(
        &mut auth,
        &mut disk,
        "org_prior",
        vec![answer(
            403,
            r#"{"error":"forbidden","message":"only an admin can delete this workspace"}"#,
        )],
        &mut requests,
        &mut |_| {},
    )
    .expect_err("delete should be rejected");
    assert_eq!(
        failure.message(),
        "workspace request failed (403): forbidden; only an admin can delete this workspace"
    );
    assert_eq!(auth.state().org_id(), Some("org_prior"));
    let stored = auth.stored.as_ref().expect("prior session");
    assert_eq!(stored.org_id.as_deref(), Some("org_prior"));
    assert_eq!(stored.refresh_token, "refresh_old");
    assert!(disk.is_active());
    assert_eq!(disk.restart().state().org_id(), Some("org_prior"));
    assert_eq!(requests, ["DELETE /auth/orgs/org_prior"]);
}

#[test]
fn delete_org_transient_rejection_restores_the_prior_session() {
    let (mut auth, mut disk) = workos_auth("org_prior");
    let failure = delete_org(
        &mut auth,
        &mut disk,
        "org_prior",
        vec![answer(
            503,
            r#"{"error":"workos rate limited","transient":true,"outcomeUnknown":false,"upstreamStatus":429}"#,
        )],
        &mut Vec::new(),
        &mut |_| {},
    )
    .expect_err("rate-limited delete should be rejected");
    assert_eq!(failure.message(), "workspace request failed (503): workos rate limited");
    assert_eq!(auth.state().org_id(), Some("org_prior"));
    assert_eq!(disk.restart().state().org_id(), Some("org_prior"));
}

#[test]
fn delete_org_unknown_upstream_outcome_keeps_the_signed_out_fence() {
    let (mut auth, mut disk) = workos_auth("org_prior");
    let failure = delete_org(
        &mut auth,
        &mut disk,
        "org_prior",
        vec![answer(
            502,
            r#"{"error":"failed after workspace deletion","transient":true,"outcomeUnknown":true}"#,
        )],
        &mut Vec::new(),
        &mut |_| {},
    )
    .expect_err("unknown delete outcome must fail closed");
    assert!(
        failure.message().contains("deletion outcome is uncertain"),
        "unexpected error: {}",
        failure.message()
    );
    assert_eq!(auth.state(), AuthState::SignedOut);
    assert!(auth.stored.is_none());
    assert_eq!(disk.restart().state(), AuthState::SignedOut);
}

#[test]
fn ambiguous_delete_keeps_the_signed_out_fence_across_restart() {
    let (mut auth, mut disk) = workos_auth("org_prior");
    let failure = delete_org(
        &mut auth,
        &mut disk,
        "org_prior",
        vec![Answer { status: 200, body: "", truncated: true }],
        &mut Vec::new(),
        &mut |_| {},
    )
    .expect_err("truncated response leaves delete outcome uncertain");
    assert!(
        failure.message().contains("deletion outcome is uncertain"),
        "unexpected error: {}",
        failure.message()
    );
    assert_eq!(auth.state(), AuthState::SignedOut);
    assert!(auth.stored.is_none());
    assert!(disk.is_signed_out());
    assert_eq!(disk.restart().state(), AuthState::SignedOut);
}

#[test]
fn delete_org_selects_and_persists_a_remaining_membership() {
    let (mut auth, mut disk) = workos_auth("org_deleted");
    let body = format!(
        "{{\"accessToken\":\"{}\",\"refreshToken\":\"refresh_rotated\"}}",
        jwt_for_org("org_fallback")
    );
    let mut requests = Vec::new();
    let outcome = delete_org(
        &mut auth,
        &mut disk,
        "org_deleted",
        vec![
            answer(200, r#"{"ok":true}"#),
            // The just-deleted org may still be listed for a moment.
            answer(
                200,
                r#"{"orgs":[{"id":"membership_deleted","organizationId":"org_deleted","name":"Deleted","role":"admin"},{"id":"membership_fallback","organizationId":"org_fallback","name":"Fallback","role":"member"}]}"#,
            ),
            answer(200, Box::leak(body.into_boxed_str())),
        ],
        &mut requests,
        &mut |_| {},
    )
    .expect("delete and fallback");
    assert_eq!(
        outcome,
        DeleteOrgOutcome::Switched { organization_id: "org_fallback".into() }
    );
    assert_eq!(
        outcome.to_json().to_text(),
        r#"{"action":"switched","organizationId":"org_fallback"}"#
    );
    assert_eq!(auth.state().org_id(), Some("org_fallback"));
    let stored = auth.stored.as_ref().expect("stored session");
    assert_eq!(stored.org_id.as_deref(), Some("org_fallback"));
    assert_eq!(stored.refresh_token, "refresh_rotated");
    let saved = disk.session.as_ref().expect("persisted fallback session");
    assert_eq!(saved.org_id.as_deref(), Some("org_fallback"));
    assert_eq!(
        requests,
        ["DELETE /auth/orgs/org_deleted", "GET /auth/orgs", "POST /auth/refresh"]
    );
}

#[test]
fn a_deletion_is_told_as_what_was_done() {
    let switched = DeleteOrgOutcome::Switched { organization_id: "org \"2\"".into() };
    assert_eq!(
        switched.to_json().to_text(),
        r#"{"action":"switched","organizationId":"org \"2\""}"#
    );
    assert_eq!(DeleteOrgOutcome::SignedOut.to_json().to_text(), r#"{"action":"signedOut"}"#);
}

#[test]
fn delete_last_org_signs_out_and_removes_the_stale_session() {
    let (mut auth, mut disk) = workos_auth("org_deleted");
    assert!(disk.session.is_some());
    let mut requests = Vec::new();
    let outcome = delete_org(
        &mut auth,
        &mut disk,
        "org_deleted",
        vec![answer(200, r#"{"ok":true}"#), answer(200, r#"{"orgs":[]}"#)],
        &mut requests,
        &mut |_| {},
    )
    .expect("delete last org");
    assert_eq!(outcome, DeleteOrgOutcome::SignedOut);
    assert_eq!(outcome.to_json().to_text(), r#"{"action":"signedOut"}"#);
    assert_eq!(auth.state(), AuthState::SignedOut);
    assert!(auth.stored.is_none());
    assert!(auth.access.is_none());
    assert!(disk.session.is_none());
    assert_eq!(requests, ["DELETE /auth/orgs/org_deleted", "GET /auth/orgs"]);
}

#[test]
fn delete_org_rpc_rejects_an_in_flight_sign_in_and_reports_its_real_state() {
    let (mut auth, mut disk) = workos_auth("org_deleted");
    // A callback that consumed its state before the deletion began, and finished
    // exchanging its code while the deletion was in flight.
    let callback_generation = auth.sign_in.generation;
    let mut refused = String::new();
    let mut requests = Vec::new();
    let outcome = delete_org(
        &mut auth,
        &mut disk,
        "org_deleted",
        vec![answer(200, r#"{"ok":true}"#), answer(200, r#"{"orgs":[]}"#)],
        &mut requests,
        &mut |auth| {
            let result = concurrent_sign_in();
            let claims = claims_of(&result.access_token);
            refused = auth
                .prepare_sign_in(result, claims, callback_generation, NOW)
                .expect_err("profile deletion must cancel the old sign-in callback")
                .message()
                .to_owned();
        },
    )
    .expect("delete RPC succeeded");
    assert!(refused.contains("sign-in was canceled"), "unexpected error: {refused}");
    assert_eq!(outcome, DeleteOrgOutcome::SignedOut);
    assert_eq!(outcome.to_json().to_text(), r#"{"action":"signedOut"}"#);
    assert_eq!(auth.state(), AuthState::SignedOut);
    assert!(auth.stored.is_none());
    assert_eq!(requests, ["DELETE /auth/orgs/org_deleted", "GET /auth/orgs"]);
}

#[test]
fn delete_org_clears_stale_session_when_fallback_discovery_fails() {
    let (mut auth, mut disk) = workos_auth("org_deleted");
    let mut requests = Vec::new();
    let outcome = delete_org(
        &mut auth,
        &mut disk,
        "org_deleted",
        vec![
            answer(200, r#"{"ok":true}"#),
            answer(503, r#"{"error":"membership service unavailable"}"#),
        ],
        &mut requests,
        &mut |_| {},
    )
    .expect("successful delete has a safe outcome");
    assert_eq!(outcome, DeleteOrgOutcome::SignedOut);
    assert_eq!(auth.state(), AuthState::SignedOut);
    assert!(disk.session.is_none());
    assert_eq!(requests, ["DELETE /auth/orgs/org_deleted", "GET /auth/orgs"]);
}

fn membership(org: &str) -> OrgMembership {
    OrgMembership {
        id: format!("m_{org}"),
        organization_id: org.into(),
        name: org.into(),
        role: "member".into(),
    }
}

#[test]
fn the_fallback_is_the_selected_workspace_or_the_first_other() {
    let listed = vec![membership("a"), membership("b"), membership("c")];
    assert_eq!(choose_fallback(&Some("c".into()), &listed, "a").as_deref(), Some("c"));
    assert_eq!(choose_fallback(&Some("a".into()), &listed, "a").as_deref(), Some("b"));
    assert_eq!(choose_fallback(&Some("gone".into()), &listed, "a").as_deref(), Some("b"));
    assert_eq!(choose_fallback(&None, &vec![membership("a")], "a"), None);
}

#[test]
fn the_default_workspace_is_named_after_its_user() {
    let needs = |name: Option<&str>, email: &str| {
        let mut auth = Auth::new(config(), &ManifestRead::Missing, None);
        auth.state = AuthState::NeedsOrganization {
            user: AuthUser {
                id: "u".into(),
                email: email.into(),
                name: name.map(str::to_owned),
            },
        };
        auth
    };
    let auth = needs(Some("Ada"), "ada@example.com");
    assert!(wants_default_org(&auth));
    assert_eq!(default_org_name(&auth, &vec![]).as_deref(), Some("Ada's Space"));
    assert_eq!(default_org_name(&auth, &vec![membership("a")]), None);
    let auth = needs(Some("  "), "ada@example.com");
    assert_eq!(default_org_name(&auth, &vec![]).as_deref(), Some("ada's Space"));
    let (signed_in, _) = workos_auth("org_prior");
    assert!(!wants_default_org(&signed_in));
    assert_eq!(default_org_name(&signed_in, &vec![]), None);
}

#[test]
fn a_sign_in_runs_from_its_address_to_the_account() {
    let mut auth = Auth::new(config(), &ManifestRead::Missing, None);
    assert_eq!(auth.state(), AuthState::SignedOut);
    let url = auth.begin_sign_in("http://127.0.0.1:8/callback", "state-1".into(), 5);
    assert!(url.contains("client_id=client_1"), "unexpected url: {url}");
    assert!(url.contains("state=state-1"), "unexpected url: {url}");
    assert!(
        url.contains("redirect_uri=http%3A%2F%2F127.0.0.1%3A8%2Fcallback"),
        "unexpected url: {url}"
    );
    assert_eq!(auth.take_pending("other", 6), None);
    let generation = auth.take_pending("state-1", 6).expect("pending sign-in");
    assert_eq!(auth.take_pending("state-1", 6), None);

    let token = jwt_for_org("org_1");
    let claims = claims_of(&token);
    let result = SignInResult {
        user: user(),
        access_token: token.clone(),
        refresh_token: "refresh_1".into(),
    };
    let commit = auth.prepare_sign_in(result, claims, generation, NOW).expect("prepared");
    assert_eq!(commit.session.org_id.as_deref(), Some("org_1"));
    auth.finish_sign_in(commit, Ok(())).expect("published");
    assert_eq!(auth.state().org_id(), Some("org_1"));
    assert_eq!(bearer(&auth), Some(token));
    assert_eq!(auth.user_id().as_deref(), Some("user_1"));
}

#[test]
fn every_sign_in_has_a_state_of_its_own() {
    let mut auth = Auth::new(config(), &ManifestRead::Missing, None);
    let first = auth.start_sign_in(4242, 5);
    let second = auth.start_sign_in(4242, 5);
    assert_ne!(first, second);
    assert!(first.contains("http%3A%2F%2F127.0.0.1%3A4242%2Fcallback"), "unexpected url: {first}");
    let headless = auth.start_headless_sign_in(5);
    assert_ne!(headless, second);
    assert_eq!(auth.sign_in.pending.len(), 3);
}

#[test]
fn a_failed_publication_signs_out() {
    let mut auth = Auth::new(config(), &ManifestRead::Missing, None);
    auth.begin_sign_in("http://x/callback", "s".into(), 0);
    let generation = auth.take_pending("s", 1).expect("pending");
    let result = SignInResult {
        user: user(),
        access_token: jwt_for_org("org_1"),
        refresh_token: "r".into(),
    };
    let claims = claims_of(&result.access_token);
    let commit = auth.prepare_sign_in(result, claims, generation, NOW).expect("prepared");
    let failed = auth.finish_sign_in(commit, Err(error("disk full")));
    assert_eq!(failed.expect_err("not published").message(), "disk full");
    assert_eq!(auth.state(), AuthState::SignedOut);
}

#[test]
fn a_pasted_code_needs_a_pending_state() {
    let mut auth = Auth::new(config(), &ManifestRead::Missing, None);
    auth.begin_sign_in("http://x/callback", "state-9".into(), 0);
    assert_eq!(
        auth.complete_sign_in("nonsense", 1).expect_err("no code").message(),
        "invalid or expired sign-in code — start sign-in again and paste the full code"
    );
    assert!(auth.complete_sign_in("other.code-1", 1).is_err());
    let taken = auth.complete_sign_in(" state-9.code-1 ", 1);
    assert!(matches!(taken, Ok(Some((code, _))) if code == "code-1"));
}

#[test]
fn an_expired_sign_in_is_forgotten() {
    let mut auth = Auth::new(config(), &ManifestRead::Missing, None);
    auth.begin_sign_in("http://x/callback", "old".into(), 0);
    let fifteen_minutes: u128 = 900_000_000_000;
    assert_eq!(auth.take_pending("old", fifteen_minutes), None);
    auth.begin_sign_in("http://x/callback", "young".into(), 0);
    assert!(auth.take_pending("young", fifteen_minutes - 1).is_some());
}

#[test]
fn token_lifetimes_follow_their_claims() {
    let claims = Some(JwtClaims { exp: Some(100), iat: Some(40), org_id: None });
    let entry = AccessEntry::fresh("t".into(), &claims, NOW);
    assert_eq!(entry.ttl, 60_000_000_000);
    assert!(entry.is_usable(&NOW));
    let later = Clock { monotonic: NOW.monotonic + 31_000_000_000, wall: NOW.wall + 31_000_000_000 };
    assert!(!entry.is_usable(&later));
    // A wall clock that jumped ahead, as after a sleep, counts too.
    let slept = Clock { monotonic: NOW.monotonic, wall: NOW.wall + 61_000_000_000 };
    assert_eq!(entry.remaining(&slept), 0);
    let plain = AccessEntry::fresh("t".into(), &None, NOW);
    assert_eq!(plain.ttl, 240_000_000_000);
    assert_eq!(background_wait(&None, &NOW), 0);
    assert_eq!(background_wait(&Some(plain), &NOW), 60_000_000_000);
}

#[test]
fn the_refresh_loop_follows_the_account() {
    let dev = Auth::new(
        AuthConfig::new("http://edge".into(), "/data".into()),
        &ManifestRead::Missing,
        None,
    );
    assert_eq!(dev.next_refresh(&NOW), RefreshLoopAction::Stop);
    let out = Auth::new(config(), &ManifestRead::Missing, None);
    assert_eq!(out.next_refresh(&NOW), RefreshLoopAction::AwaitState);
    let (mut auth, _) = workos_auth("org_prior");
    assert!(matches!(auth.next_refresh(&NOW), RefreshLoopAction::Sleep(_)));
    auth.access = None;
    assert_eq!(auth.next_refresh(&NOW), RefreshLoopAction::Refresh);
}

#[test]
fn names_are_put_together_from_what_is_there() {
    assert_eq!(full_name(Some("Ada".into()), Some("L".into())).as_deref(), Some("Ada L"));
    assert_eq!(full_name(None, Some("L".into())).as_deref(), Some("L"));
    assert_eq!(full_name(Some("".into()), None), None);
}

#[test]
fn a_code_exchange_gives_a_sign_in_or_says_why_not() {
    let result = read_exchange(ExchangeResponse::Complete {
        status: 200,
        body: Ok(Exchange {
            id: "u1".into(),
            email: "u@x".into(),
            first_name: Some("Ada".into()),
            last_name: None,
            access_token: "a".into(),
            refresh_token: "r".into(),
        }),
    })
    .expect("signed in");
    assert_eq!(result.user.name.as_deref(), Some("Ada"));
    assert_eq!(result.refresh_token, "r");
    assert!(read_exchange(ExchangeResponse::Unreachable("refused".into())).is_err());
    assert!(read_exchange(ExchangeResponse::Complete { status: 400, body: Err("bad".into()) })
        .is_err());
}

#[test]
fn the_loopback_reads_its_callback() {
    assert!(head_complete(b"GET / HTTP/1.1\r\n\r\n"));
    assert!(!head_complete(b"GET / HTTP/1.1\r\n"));
    assert_eq!(
        read_callback("GET /callback?code=a%20b&state=s1 HTTP/1.1"),
        CallbackRequest::Callback { code: "a b".into(), state: "s1".into() }
    );
    assert_eq!(read_callback("GET /favicon.ico HTTP/1.1"), CallbackRequest::NotFound);
    assert_eq!(read_callback("GET /callback?code=a HTTP/1.1"), CallbackRequest::Invalid);
    assert_eq!(
        read_callback_bytes(b"GET /callback?state=s&code=c HTTP/1.1\r\nhost: x\r\n\r\n"),
        CallbackRequest::Callback { code: "c".into(), state: "s".into() }
    );
    // Bytes that are no text are read as replacement characters.
    assert_eq!(read_callback_bytes(b"\xff\xfe"), CallbackRequest::NotFound);
    assert!(page("Hello").contains("Hello"));
    assert!(callback_response(CallbackOutcome::NotFound).contains("404"));
    assert!(callback_response(CallbackOutcome::SignedIn).contains("200"));
    let callback = CallbackRequest::Callback { code: "c".into(), state: "s".into() };
    for (pending, exchanged, committed, outcome) in [
        (false, false, false, CallbackOutcome::Invalid),
        (true, false, false, CallbackOutcome::ExchangeFailed),
        (true, true, false, CallbackOutcome::Canceled),
        (true, true, true, CallbackOutcome::SignedIn),
    ] {
        assert_eq!(callback_outcome(&callback, pending, exchanged, committed), outcome);
    }
    assert_eq!(
        callback_outcome(&CallbackRequest::NotFound, true, true, true),
        CallbackOutcome::NotFound
    );
    assert_eq!(
        callback_outcome(&CallbackRequest::Invalid, true, true, true),
        CallbackOutcome::Invalid
    );
}

#[test]
fn an_edge_in_dev_mode_forces_dev_mode() {
    let client = |config: AuthConfig| config.workos_client_id;
    let forced = config().detected(Some("dev"));
    assert_eq!(forced.dev_user_id, config().dev_user_id);
    assert_eq!(client(forced), None);
    assert_eq!(client(config().detected(Some("workos"))), client(config()));
    assert_eq!(client(config().detected(None)), client(config()));
    assert!(client(config()).is_some());
    assert_eq!(default_role(), "member");
}

#[test]
fn only_a_signed_in_account_presents_its_token() {
    let (mut auth, _) = workos_auth("org_prior");
    assert!(auth.may_present_token());
    auth.sign_out(Ok(())).expect("signed out");
    assert!(!auth.may_present_token());
    let dev = Auth::new(config().detected(Some("dev")), &ManifestRead::Missing, None);
    assert!(dev.may_present_token());
}
