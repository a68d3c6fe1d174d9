use cds_challenge::challenge::{Challenge, Env};
use cds_challenge::handlers::{
    delete_challenge, delete_challenge_at, delete_challenge_with_clock, get_challenge, lint_message, needs_validation,
    update_challenge, update_challenge_checker, update_challenge_env, LintOutcome,
};
use cds_challenge::store::{ChallengeError, ChallengeStore};
use cds_challenge::update::{
    merge_into, resolve_checker_update, resolve_env_update, resolve_update, Patch,
    UpdateChallengeCheckerRequest, UpdateChallengeEnvRequest, UpdateChallengeRequest,
};

const A: u128 = 0x6f1c_2a4e_0000_4000_8000_0000_0000_000a;
const B: u128 = 0x6f1c_2a4e_0000_4000_8000_0000_0000_000b;

fn empty_request() -> UpdateChallengeRequest {
    UpdateChallengeRequest {
        title: None,
        description: None,
        category: None,
        tags: None,
        is_public: None,
        is_dynamic: None,
        has_attachment: None,
    }
}

fn store_with(id: u128, title: &str) -> ChallengeStore {
    let mut store = ChallengeStore::new();
    store.insert(Challenge::new(id, title.to_string())).unwrap();
    store
}

#[test]
fn scenario_update_checker_delete() {
    let mut store = store_with(A, "t1");

    let mut req = empty_request();
    req.title = Some("t2".to_string());
    let after = update_challenge(&mut store, A, req).unwrap();
    assert_eq!(after.title, "t2");
    assert_eq!(after.checker, None);
    assert_eq!(after.description, "");
    assert_eq!(after.category, 0);
    assert!(after.tags.is_empty());

    let saved = update_challenge_checker(
        &mut store,
        A,
        UpdateChallengeCheckerRequest { checker: Some("bad syntax".to_string()) },
    )
    .unwrap();
    assert_eq!(saved.checker.as_deref(), Some("bad syntax"));
    let msg = lint_message(LintOutcome::CompileError("expected `;` at 1:4".to_string()));
    assert_eq!(msg.as_deref(), Some("expected `;` at 1:4"));
    let found = get_challenge(&store, A).unwrap();
    assert_eq!(found.checker.as_deref(), Some("bad syntax"));
    assert_eq!(found.title, "t2");

    assert_eq!(delete_challenge(&mut store, A), Ok(()));
    assert_eq!(get_challenge(&store, A).unwrap_err(), ChallengeError::NotFound);
    let mut req = empty_request();
    req.title = Some("t3".to_string());
    assert_eq!(update_challenge(&mut store, A, req).unwrap_err(), ChallengeError::NotFound);
}

#[test]
fn unset_fields_are_preserved() {
    let mut store = store_with(A, "title");
    let mut req = empty_request();
    req.description = Some("desc".to_string());
    req.tags = Some(vec!["web".to_string(), "easy".to_string()]);
    req.category = Some(3);
    update_challenge(&mut store, A, req).unwrap();

    let mut req = empty_request();
    req.is_public = Some(true);
    let after = update_challenge(&mut store, A, req).unwrap();
    assert_eq!(after.title, "title");
    assert_eq!(after.description, "desc");
    assert_eq!(after.tags, vec!["web".to_string(), "easy".to_string()]);
    assert_eq!(after.category, 3);
    assert!(after.is_public);
    assert!(!after.is_dynamic);
    assert!(!after.has_attachment);
}

#[test]
fn set_fields_overwrite_any_prior_value() {
    let mut store = store_with(A, "old");
    let req = UpdateChallengeRequest {
        title: Some("new".to_string()),
        description: Some("d".to_string()),
        category: Some(-2),
        tags: Some(vec!["b".to_string(), "a".to_string(), "b".to_string()]),
        is_public: Some(true),
        is_dynamic: Some(true),
        has_attachment: Some(true),
    };
    let after = update_challenge(&mut store, A, req).unwrap();
    assert_eq!(after.id, A);
    assert_eq!(after.title, "new");
    assert_eq!(after.description, "d");
    assert_eq!(after.category, -2);
    assert_eq!(after.tags, vec!["b".to_string(), "a".to_string(), "b".to_string()]);
    assert!(after.is_public && after.is_dynamic && after.has_attachment);

    let mut req = empty_request();
    req.is_public = Some(false);
    let after = update_challenge(&mut store, A, req).unwrap();
    assert!(!after.is_public);
    assert!(after.is_dynamic);
}

#[test]
fn soft_delete_hides_record() {
    let mut store = store_with(A, "t");
    assert_eq!(delete_challenge_at(&mut store, A, 1_700_000_000), Ok(()));
    assert_eq!(get_challenge(&store, A).unwrap_err(), ChallengeError::NotFound);
    assert_eq!(
        update_challenge(&mut store, A, empty_request()).unwrap_err(),
        ChallengeError::NotFound
    );
    assert_eq!(
        update_challenge_env(&mut store, A, UpdateChallengeEnvRequest { env: None }).unwrap_err(),
        ChallengeError::NotFound
    );
    assert_eq!(
        update_challenge_checker(
            &mut store,
            A,
            UpdateChallengeCheckerRequest { checker: Some("x".to_string()) }
        )
        .unwrap_err(),
        ChallengeError::NotFound
    );
    assert_eq!(delete_challenge_at(&mut store, A, 1_700_000_001), Err(ChallengeError::NotFound));
    assert_eq!(delete_challenge(&mut store, A), Err(ChallengeError::NotFound));
}

#[test]
fn delete_leaves_other_records() {
    let mut store = store_with(A, "a");
    store.insert(Challenge::new(B, "b".to_string())).unwrap();
    delete_challenge(&mut store, A).unwrap();
    assert_eq!(get_challenge(&store, B).unwrap().title, "b");
}

#[test]
fn missing_record_is_not_found() {
    let mut store = ChallengeStore::new();
    assert_eq!(get_challenge(&store, A).unwrap_err(), ChallengeError::NotFound);
    assert_eq!(
        update_challenge(&mut store, A, empty_request()).unwrap_err(),
        ChallengeError::NotFound
    );
    assert_eq!(delete_challenge(&mut store, A), Err(ChallengeError::NotFound));
}

#[test]
fn duplicate_insert_is_refused() {
    let mut store = store_with(A, "first");
    assert_eq!(
        store.insert(Challenge::new(A, "second".to_string())),
        Err(ChallengeError::AlreadyExists)
    );
    assert_eq!(get_challenge(&store, A).unwrap().title, "first");
}

#[test]
fn error_messages() {
    assert_eq!(ChallengeError::NotFound.message(), "challenge_not_found");
    assert_eq!(ChallengeError::AlreadyExists.message(), "challenge_already_exists");
    assert_eq!(ChallengeError::ClockUnavailable.message(), "clock_unavailable");
}

#[test]
fn env_and_checker_cannot_be_cleared() {
    let mut store = store_with(A, "t");
    let env = Env::new("{\"image\":\"nginx\"}".to_string());
    update_challenge_env(&mut store, A, UpdateChallengeEnvRequest { env: Some(env) }).unwrap();
    update_challenge_checker(
        &mut store,
        A,
        UpdateChallengeCheckerRequest { checker: Some("check()".to_string()) },
    )
    .unwrap();

    update_challenge_env(&mut store, A, UpdateChallengeEnvRequest { env: None }).unwrap();
    update_challenge_checker(&mut store, A, UpdateChallengeCheckerRequest { checker: None })
        .unwrap();
    let mut req = empty_request();
    req.title = Some("t2".to_string());
    update_challenge(&mut store, A, req).unwrap();

    let after = get_challenge(&store, A).unwrap();
    assert_eq!(after.env.unwrap().descriptor, "{\"image\":\"nginx\"}");
    assert_eq!(after.checker.as_deref(), Some("check()"));

    let env = Env::new("{\"image\":\"redis\"}".to_string());
    update_challenge_env(&mut store, A, UpdateChallengeEnvRequest { env: Some(env) }).unwrap();
    assert_eq!(get_challenge(&store, A).unwrap().env.unwrap().descriptor, "{\"image\":\"redis\"}");
}

#[test]
fn fail_forward_keeps_invalid_checker() {
    let mut store = store_with(A, "t");
    let saved = update_challenge_checker(
        &mut store,
        A,
        UpdateChallengeCheckerRequest { checker: Some("fn (".to_string()) },
    )
    .unwrap();
    let msg = lint_message(LintOutcome::CompileError("unexpected end of input".to_string()));
    assert!(!msg.unwrap().is_empty());
    assert_eq!(saved.checker.as_deref(), Some("fn ("));
    assert_eq!(get_challenge(&store, A).unwrap().checker.as_deref(), Some("fn ("));
}

#[test]
fn lint_message_variants() {
    assert_eq!(lint_message(LintOutcome::Valid), None);
    assert_eq!(
        lint_message(LintOutcome::OtherError("service unavailable".to_string())).as_deref(),
        Some("service unavailable")
    );
    assert_eq!(
        lint_message(LintOutcome::CompileError("line 3: bad".to_string())).as_deref(),
        Some("line 3: bad")
    );
}

#[test]
fn resolvers_map_presence_to_patches() {
    let cs = resolve_update(UpdateChallengeRequest {
        title: Some("x".to_string()),
        ..empty_request()
    });
    assert!(matches!(cs.title, Patch::Overwrite(ref t) if t == "x"));
    assert!(matches!(cs.description, Patch::Keep));
    assert!(matches!(cs.env, Patch::Keep));
    assert!(matches!(cs.checker, Patch::Keep));

    let cs = resolve_env_update(UpdateChallengeEnvRequest { env: Some(Env::new("e".to_string())) });
    assert!(matches!(cs.env, Patch::Overwrite(ref e) if e.descriptor == "e"));
    assert!(matches!(cs.title, Patch::Keep));

    let cs = resolve_checker_update(UpdateChallengeCheckerRequest { checker: None });
    assert!(matches!(cs.checker, Patch::Keep));

    let mut c = Challenge::new(A, "t".to_string());
    merge_into(&mut c, resolve_checker_update(UpdateChallengeCheckerRequest {
        checker: Some("c".to_string()),
    }));
    assert_eq!(c.checker.as_deref(), Some("c"));
    assert_eq!(c.title, "t");
}

#[test]
fn snapshot_copies_every_field() {
    let mut c = Challenge::new(B, "s".to_string());
    c.tags = vec!["x".to_string(), "y".to_string()];
    c.env = Some(Env::new("env".to_string()));
    c.checker = Some("chk".to_string());
    c.deleted_at = Some(5);
    let s = c.snapshot();
    assert_eq!(s.id, B);
    assert_eq!(s.tags, c.tags);
    assert_eq!(s.env.as_ref().unwrap().descriptor, "env");
    assert_eq!(s.checker, c.checker);
    assert_eq!(s.deleted_at, Some(5));
    assert!(s.is_deleted());
}

#[test]
fn env_update_returns_saved_record() {
    let mut store = store_with(A, "t");
    let after = update_challenge_env(
        &mut store,
        A,
        UpdateChallengeEnvRequest { env: Some(Env::new("{\"port\":80}".to_string())) },
    )
    .unwrap();
    assert_eq!(after.id, A);
    assert_eq!(after.title, "t");
    assert_eq!(after.env.unwrap().descriptor, "{\"port\":80}");
}

#[test]
fn validation_only_when_checker_present() {
    assert!(needs_validation(&UpdateChallengeCheckerRequest { checker: Some("c".to_string()) }));
    assert!(!needs_validation(&UpdateChallengeCheckerRequest { checker: None }));
}

#[test]
fn returned_records_carry_requested_id() {
    let mut store = store_with(A, "a");
    store.insert(Challenge::new(B, "b".to_string())).unwrap();
    assert_eq!(get_challenge(&store, B).unwrap().id, B);
    assert_eq!(update_challenge(&mut store, A, empty_request()).unwrap().id, A);
    let saved = update_challenge_checker(
        &mut store,
        B,
        UpdateChallengeCheckerRequest { checker: Some("c".to_string()) },
    )
    .unwrap();
    assert_eq!(saved.id, B);
}

#[test]
fn delete_with_clock_reading() {
    let mut store = store_with(A, "a");
    store.insert(Challenge::new(B, "b".to_string())).unwrap();

    assert_eq!(delete_challenge_with_clock(&mut store, A, None), Err(ChallengeError::ClockUnavailable));
    assert_eq!(get_challenge(&store, A).unwrap().title, "a");

    assert_eq!(
        delete_challenge_with_clock(&mut store, A, Some(u64::MAX)),
        Err(ChallengeError::ClockUnavailable)
    );
    assert_eq!(
        delete_challenge_with_clock(&mut store, A, Some(i64::MAX as u64 + 1)),
        Err(ChallengeError::ClockUnavailable)
    );
    assert_eq!(get_challenge(&store, A).unwrap().title, "a");

    assert_eq!(delete_challenge_with_clock(&mut store, A, Some(i64::MAX as u64)), Ok(()));
    assert_eq!(get_challenge(&store, A).unwrap_err(), ChallengeError::NotFound);
    assert_eq!(delete_challenge_with_clock(&mut store, A, Some(1)), Err(ChallengeError::NotFound));
    assert_eq!(delete_challenge_with_clock(&mut store, A, None), Err(ChallengeError::NotFound));

    assert_eq!(delete_challenge_with_clock(&mut store, B, Some(1_700_000_000)), Ok(()));
    assert_eq!(get_challenge(&store, B).unwrap_err(), ChallengeError::NotFound);
}
