use vstd::prelude::*;

use crate::challenge::{text_view, ChallengeId, ChallengeView};
use crate::handlers::{lint_message_of, LintOutcome};
use crate::store::{deleted, found, live, updated};
use crate::update::{
    checker_changes, env_changes, general_changes, merged, tags_of, ChangeSetView,
    UpdateChallengeCheckerRequest, UpdateChallengeEnvRequest, UpdateChallengeRequest,
};

verus! {

/// The store after a run of partial updates on one record, each one applied
/// when the record is live and skipped otherwise, as the store does.
pub open spec fn updated_all(
    m: Map<ChallengeId, ChallengeView>,
    id: ChallengeId,
    changes: Seq<ChangeSetView>,
) -> Map<ChallengeId, ChallengeView>
    decreases changes.len(),
{
    if changes.len() == 0 {
        m
    } else {
        let first = match updated(m, id, changes[0]) {
            Some(m2) => m2,
            None => m,
        };
        updated_all(first, id, changes.drop_first())
    }
}

/// A field that a general update request leaves out keeps its value; the
/// environment and the checker, which such a request cannot name, keep theirs.
pub proof fn lemma_unset_preserves(c: ChallengeView, r: UpdateChallengeRequest)
    ensures
        r.title is None ==> merged(c, general_changes(r)).title == c.title,
        r.description is None ==> merged(c, general_changes(r)).description == c.description,
        r.category is None ==> merged(c, general_changes(r)).category == c.category,
        r.tags is None ==> merged(c, general_changes(r)).tags == c.tags,
        r.is_public is None ==> merged(c, general_changes(r)).is_public == c.is_public,
        r.is_dynamic is None ==> merged(c, general_changes(r)).is_dynamic == c.is_dynamic,
        r.has_attachment is None ==> merged(c, general_changes(r)).has_attachment
            == c.has_attachment,
        merged(c, general_changes(r)).env == c.env,
        merged(c, general_changes(r)).checker == c.checker,
        merged(c, general_changes(r)).id == c.id,
        merged(c, general_changes(r)).deleted_at == c.deleted_at,
{
}

/// An environment or checker update request without a value leaves the
/// record as it was.
pub proof fn lemma_unset_nested_preserves(
    c: ChallengeView,
    e: UpdateChallengeEnvRequest,
    k: UpdateChallengeCheckerRequest,
)
    requires
        e.env is None,
        k.checker is None,
    ensures
        merged(c, env_changes(e)) == c,
        merged(c, checker_changes(k)) == c,
{
}

/// A field that an update request carries takes the carried value, whatever
/// the record held before.
pub proof fn lemma_set_overwrites(
    c: ChallengeView,
    r: UpdateChallengeRequest,
    e: UpdateChallengeEnvRequest,
    k: UpdateChallengeCheckerRequest,
)
    ensures
        r.title is Some ==> Some(merged(c, general_changes(r)).title) == text_view(r.title),
        r.description is Some ==> Some(merged(c, general_changes(r)).description) == text_view(
            r.description,
        ),
        r.category is Some ==> Some(merged(c, general_changes(r)).category) == r.category,
        r.tags is Some ==> Some(merged(c, general_changes(r)).tags) == tags_of(r.tags),
        r.is_public is Some ==> Some(merged(c, general_changes(r)).is_public) == r.is_public,
        r.is_dynamic is Some ==> Some(merged(c, general_changes(r)).is_dynamic) == r.is_dynamic,
        r.has_attachment is Some ==> Some(merged(c, general_changes(r)).has_attachment)
            == r.has_attachment,
        e.env is Some ==> merged(c, env_changes(e)).env == Some(e.env->0@),
        k.checker is Some ==> merged(c, checker_changes(k)).checker == text_view(k.checker),
{
}

/// Once a record is soft-deleted, looking it up, updating it and deleting it
/// again all fail.
pub proof fn lemma_soft_delete_hides(
    m: Map<ChallengeId, ChallengeView>,
    id: ChallengeId,
    at: i64,
    cs: ChangeSetView,
    later: i64,
)
    requires
        deleted(m, id, at) is Some,
    ensures
        found(deleted(m, id, at)->0, id) is None,
        updated(deleted(m, id, at)->0, id, cs) is None,
        deleted(deleted(m, id, at)->0, id, later) is None,
{
}

/// Once the environment or the checker of a record holds a value, no run of
/// partial updates makes it absent again.
pub proof fn lemma_no_clear(
    m: Map<ChallengeId, ChallengeView>,
    id: ChallengeId,
    changes: Seq<ChangeSetView>,
)
    requires
        m.contains_key(id),
    ensures
        updated_all(m, id, changes).contains_key(id),
        m[id].env is Some ==> updated_all(m, id, changes)[id].env is Some,
        m[id].checker is Some ==> updated_all(m, id, changes)[id].checker is Some,
    decreases changes.len(),
{
    if changes.len() > 0 {
        let first = match updated(m, id, changes[0]) {
            Some(m2) => m2,
            None => m,
        };
        lemma_no_clear(first, id, changes.drop_first());
    }
}

/// A checker that fails to compile is still saved: the update succeeds, a
/// later lookup returns the new script, and the compile diagnostics come back
/// as the advisory message.
pub proof fn lemma_fail_forward(
    m: Map<ChallengeId, ChallengeView>,
    id: ChallengeId,
    k: UpdateChallengeCheckerRequest,
    outcome: LintOutcome,
)
    requires
        live(m, id),
        k.checker is Some,
        outcome is CompileError,
    ensures
        updated(m, id, checker_changes(k)) is Some,
        found(updated(m, id, checker_changes(k))->0, id) is Some,
        found(updated(m, id, checker_changes(k))->0, id)->0.checker == text_view(k.checker),
        lint_message_of(outcome) == Some(outcome->CompileError_0@),
        outcome->CompileError_0@.len() > 0 ==> lint_message_of(outcome)->0.len() > 0,
{
}

} // verus!
