use vstd::prelude::*;

use crate::challenge::{text_view, Challenge, ChallengeId, ChallengeView};
use crate::store::{deleted, found, live, result_view, updated, ChallengeError, ChallengeStore};
use crate::update::{
    checker_changes, env_changes, general_changes, resolve_checker_update, resolve_env_update,
    resolve_update, UpdateChallengeCheckerRequest, UpdateChallengeEnvRequest,
    UpdateChallengeRequest,
};

verus! {

/// Relies on std::time::SystemTime::now and SystemTime::duration_since: the
/// whole seconds since the Unix epoch, or `None` when the clock reads earlier.
/// Nothing is stated of the value.
#[verifier::external_body]
fn seconds_since_epoch() -> (r: Option<u64>) {
    std::time::SystemTime::now().duration_since(std::time::UNIX_EPOCH).ok().map(|d| d.as_secs())
}


/// What the checker validation service reported for a saved record.
#[derive(Clone, Debug)]
pub enum LintOutcome {
    /// The script compiled.
    Valid,
    /// The script failed to compile; the diagnostics are meant for display.
    CompileError(String),
    /// Any other failure of the service, as a best-effort message.
    OtherError(String),
}

/// The advisory message that a lint outcome gives.
pub open spec fn lint_message_of(outcome: LintOutcome) -> Option<Seq<char>> {
    match outcome {
        LintOutcome::Valid => None,
        LintOutcome::CompileError(d) => Some(d@),
        LintOutcome::OtherError(m) => Some(m@),
    }
}

/// Fetches the live challenge `challenge_id`.
pub fn get_challenge(store: &ChallengeStore, challenge_id: ChallengeId) -> (r: Result<
    Challenge,
    ChallengeError,
>)
    requires
        store.wf(),
    ensures
        match found(store@, challenge_id) {
            Some(c) => result_view(r) == Ok::<ChallengeView, ChallengeError>(c),
            None => r == Err::<Challenge, ChallengeError>(ChallengeError::NotFound),
        },
        r is Ok ==> r->Ok_0@.id == challenge_id,
{
    store.find(challenge_id)
}

/// Applies a general partial update and returns the record as stored
/// afterwards.
pub fn update_challenge(
    store: &mut ChallengeStore,
    challenge_id: ChallengeId,
    body: UpdateChallengeRequest,
) -> (r: Result<Challenge, ChallengeError>)
    requires
        old(store).wf(),
    ensures
        final(store).wf(),
        match updated(old(store)@, challenge_id, general_changes(body)) {
            Some(m) => final(store)@ == m && result_view(r) == Ok::<ChallengeView, ChallengeError>(
                m[challenge_id],
            ),
            None => final(store)@ == old(store)@ && r == Err::<Challenge, ChallengeError>(
                ChallengeError::NotFound,
            ),
        },
        r is Ok ==> r->Ok_0@.id == challenge_id,
{
    let changes = resolve_update(body);
    store.apply_update(challenge_id, changes)
}

/// Sets the environment descriptor when the request carries one and returns
/// the record as stored afterwards.
pub fn update_challenge_env(
    store: &mut ChallengeStore,
    challenge_id: ChallengeId,
    body: UpdateChallengeEnvRequest,
) -> (r: Result<Challenge, ChallengeError>)
    requires
        old(store).wf(),
    ensures
        final(store).wf(),
        match updated(old(store)@, challenge_id, env_changes(body)) {
            Some(m) => final(store)@ == m && result_view(r) == Ok::<ChallengeView, ChallengeError>(
                m[challenge_id],
            ),
            None => final(store)@ == old(store)@ && r == Err::<Challenge, ChallengeError>(
                ChallengeError::NotFound,
            ),
        },
        r is Ok ==> r->Ok_0@.id == challenge_id,
{
    let changes = resolve_env_update(body);
    store.apply_update(challenge_id, changes)
}

/// Saves the checker script when the request carries one and returns the
/// record as stored afterwards, which is what the validation service is then
/// run on. The save stands whatever the validation later reports.
pub fn update_challenge_checker(
    store: &mut ChallengeStore,
    challenge_id: ChallengeId,
    body: UpdateChallengeCheckerRequest,
) -> (r: Result<Challenge, ChallengeError>)
    requires
        old(store).wf(),
    ensures
        final(store).wf(),
        match updated(old(store)@, challenge_id, checker_changes(body)) {
            Some(m) => final(store)@ == m && result_view(r) == Ok::<ChallengeView, ChallengeError>(
                m[challenge_id],
            ),
            None => final(store)@ == old(store)@ && r == Err::<Challenge, ChallengeError>(
                ChallengeError::NotFound,
            ),
        },
        r is Ok ==> r->Ok_0@.id == challenge_id,
{
    let changes = resolve_checker_update(body);
    store.apply_update(challenge_id, changes)
}

/// Whether a checker update calls for validation: only when it sets a script.
pub fn needs_validation(body: &UpdateChallengeCheckerRequest) -> (r: bool)
    ensures
        r == (body.checker is Some),
{
    body.checker.is_some()
}

/// The advisory message to attach to a saved checker: the diagnostics of a
/// failed compile, the message of any other failure, nothing when valid.
pub fn lint_message(outcome: LintOutcome) -> (r: Option<String>)
    ensures
        text_view(r) == lint_message_of(outcome),
{
    match outcome {
        LintOutcome::Valid => None,
        LintOutcome::CompileError(diagnostics) => Some(diagnostics),
        LintOutcome::OtherError(message) => Some(message),
    }
}

/// Soft-deletes the live challenge `challenge_id`, stamping it with time `at`.
pub fn delete_challenge_at(store: &mut ChallengeStore, challenge_id: ChallengeId, at: i64) -> (r:
    Result<(), ChallengeError>)
    requires
        old(store).wf(),
    ensures
        final(store).wf(),
        match deleted(old(store)@, challenge_id, at) {
            Some(m) => final(store)@ == m && r is Ok,
            None => final(store)@ == old(store)@ && r == Err::<(), ChallengeError>(
                ChallengeError::NotFound,
            ),
        },
{
    store.soft_delete(challenge_id, at)
}

/// Soft-deletes the live challenge `challenge_id`, stamping it with the clock
/// reading `clock` (whole seconds since the Unix epoch). A record that is not
/// live is `NotFound`; a missing reading, or one that does not fit a stamp,
/// leaves the record as it is.
pub fn delete_challenge_with_clock(
    store: &mut ChallengeStore,
    challenge_id: ChallengeId,
    clock: Option<u64>,
) -> (r: Result<(), ChallengeError>)
    requires
        old(store).wf(),
    ensures
        final(store).wf(),
        !live(old(store)@, challenge_id) ==> r == Err::<(), ChallengeError>(
            ChallengeError::NotFound,
        ) && final(store)@ == old(store)@,
        live(old(store)@, challenge_id) && (clock is None || clock->0 > i64::MAX as u64) ==> r
            == Err::<(), ChallengeError>(ChallengeError::ClockUnavailable) && final(store)@ == old(
            store,
        )@,
        live(old(store)@, challenge_id) && clock is Some && clock->0 <= i64::MAX as u64 ==> r is Ok
            && deleted(old(store)@, challenge_id, clock->0 as i64) == Some(final(store)@),
{
    if !store.is_live(challenge_id) {
        return Err(ChallengeError::NotFound);
    }
    match clock {
        Some(secs) => {
            if secs <= i64::MAX as u64 {
                delete_challenge_at(store, challenge_id, secs as i64)
            } else {
                Err(ChallengeError::ClockUnavailable)
            }
        },
        None => Err(ChallengeError::ClockUnavailable),
    }
}

/// Soft-deletes the live challenge `challenge_id`, stamping it with the
/// current time read from the system clock; what follows the reading is
/// `delete_challenge_with_clock`.
pub fn delete_challenge(store: &mut ChallengeStore, challenge_id: ChallengeId) -> (r: Result<
    (),
    ChallengeError,
>)
    requires
        old(store).wf(),
    ensures
        final(store).wf(),
        !live(old(store)@, challenge_id) ==> r == Err::<(), ChallengeError>(
            ChallengeError::NotFound,
        ),
        live(old(store)@, challenge_id) ==> r is Ok || r == Err::<(), ChallengeError>(
            ChallengeError::ClockUnavailable,
        ),
        r is Ok ==> exists|at: i64|
            at >= 0 && deleted(old(store)@, challenge_id, at) == Some(final(store)@),
        r is Err ==> final(store)@ == old(store)@,
{
    let clock = seconds_since_epoch();
    delete_challenge_with_clock(store, challenge_id, clock)
}

} // verus!
