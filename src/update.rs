use vstd::prelude::*;

use crate::challenge::{env_view, strings_view, text_view, Challenge, ChallengeView, Env};

verus! {

/// What a change-set does to one field: leave it alone, or overwrite it.
/// There is deliberately no variant that clears a field.
#[derive(Clone, Debug)]
pub enum Patch<T> {
    Keep,
    Overwrite(T),
}

/// A request to change any of the plain fields of a challenge; an absent
/// field is left as it is.
#[derive(Clone, Debug)]
pub struct UpdateChallengeRequest {
    pub title: Option<String>,
    pub description: Option<String>,
    pub category: Option<i32>,
    pub tags: Option<Vec<String>>,
    pub is_public: Option<bool>,
    pub is_dynamic: Option<bool>,
    pub has_attachment: Option<bool>,
}

/// A request to set the environment descriptor.
#[derive(Clone, Debug)]
pub struct UpdateChallengeEnvRequest {
    pub env: Option<Env>,
}

/// A request to set the checker script.
#[derive(Clone, Debug)]
pub struct UpdateChallengeCheckerRequest {
    pub checker: Option<String>,
}

/// Field-level decisions applied atomically to one stored record.
#[derive(Clone, Debug)]
pub struct ChangeSet {
    pub title: Patch<String>,
    pub description: Patch<String>,
    pub category: Patch<i32>,
    pub tags: Patch<Vec<String>>,
    pub is_public: Patch<bool>,
    pub is_dynamic: Patch<bool>,
    pub has_attachment: Patch<bool>,
    pub env: Patch<Env>,
    pub checker: Patch<String>,
}

/// The mathematical value of a change-set: `None` for a field left alone,
/// `Some(v)` for a field overwritten with `v`.
pub struct ChangeSetView {
    pub title: Option<Seq<char>>,
    pub description: Option<Seq<char>>,
    pub category: Option<i32>,
    pub tags: Option<Seq<Seq<char>>>,
    pub is_public: Option<bool>,
    pub is_dynamic: Option<bool>,
    pub has_attachment: Option<bool>,
    pub env: Option<Seq<char>>,
    pub checker: Option<Seq<char>>,
}

pub open spec fn text_patch(p: Patch<String>) -> Option<Seq<char>> {
    match p {
        Patch::Keep => None,
        Patch::Overwrite(v) => Some(v@),
    }
}

pub open spec fn tags_patch(p: Patch<Vec<String>>) -> Option<Seq<Seq<char>>> {
    match p {
        Patch::Keep => None,
        Patch::Overwrite(v) => Some(strings_view(v@)),
    }
}

pub open spec fn env_patch(p: Patch<Env>) -> Option<Seq<char>> {
    match p {
        Patch::Keep => None,
        Patch::Overwrite(v) => Some(v@),
    }
}

pub open spec fn plain_patch<T>(p: Patch<T>) -> Option<T> {
    match p {
        Patch::Keep => None,
        Patch::Overwrite(v) => Some(v),
    }
}

impl View for ChangeSet {
    type V = ChangeSetView;

    open spec fn view(&self) -> ChangeSetView {
        ChangeSetView {
            title: text_patch(self.title),
            description: text_patch(self.description),
            category: plain_patch(self.category),
            tags: tags_patch(self.tags),
            is_public: plain_patch(self.is_public),
            is_dynamic: plain_patch(self.is_dynamic),
            has_attachment: plain_patch(self.has_attachment),
            env: env_patch(self.env),
            checker: text_patch(self.checker),
        }
    }
}

/// A change-set that touches no field.
pub open spec fn empty_changes() -> ChangeSetView {
    ChangeSetView {
        title: None,
        description: None,
        category: None,
        tags: None,
        is_public: None,
        is_dynamic: None,
        has_attachment: None,
        env: None,
        checker: None,
    }
}

pub open spec fn tags_of(t: Option<Vec<String>>) -> Option<Seq<Seq<char>>> {
    match t {
        Some(v) => Some(strings_view(v@)),
        None => None,
    }
}

/// The change-set that a general update request stands for.
pub open spec fn general_changes(r: UpdateChallengeRequest) -> ChangeSetView {
    ChangeSetView {
        title: text_view(r.title),
        description: text_view(r.description),
        category: r.category,
        tags: tags_of(r.tags),
        is_public: r.is_public,
        is_dynamic: r.is_dynamic,
        has_attachment: r.has_attachment,
        ..empty_changes()
    }
}

/// The change-set that an environment update request stands for.
pub open spec fn env_changes(r: UpdateChallengeEnvRequest) -> ChangeSetView {
    ChangeSetView { env: env_view(r.env), ..empty_changes() }
}

/// The change-set that a checker update request stands for.
pub open spec fn checker_changes(r: UpdateChallengeCheckerRequest) -> ChangeSetView {
    ChangeSetView { checker: text_view(r.checker), ..empty_changes() }
}

pub open spec fn pick<T>(p: Option<T>, current: T) -> T {
    match p {
        Some(v) => v,
        None => current,
    }
}

pub open spec fn pick_some<T>(p: Option<T>, current: Option<T>) -> Option<T> {
    match p {
        Some(v) => Some(v),
        None => current,
    }
}

/// The record after merging a change-set into it: every field the change-set
/// sets takes the new value, every other field keeps its value.
pub open spec fn merged(c: ChallengeView, cs: ChangeSetView) -> ChallengeView {
    ChallengeView {
        id: c.id,
        title: pick(cs.title, c.title),
        description: pick(cs.description, c.description),
        category: pick(cs.category, c.category),
        tags: pick(cs.tags, c.tags),
        is_public: pick(cs.is_public, c.is_public),
        is_dynamic: pick(cs.is_dynamic, c.is_dynamic),
        has_attachment: pick(cs.has_attachment, c.has_attachment),
        env: pick_some(cs.env, c.env),
        checker: pick_some(cs.checker, c.checker),
        deleted_at: c.deleted_at,
    }
}

fn patch_of<T>(v: Option<T>) -> (r: Patch<T>)
    ensures
        plain_patch(r) == v,
{
    match v {
        Some(x) => Patch::Overwrite(x),
        None => Patch::Keep,
    }
}

/// Translates a general update request into a change-set.
pub fn resolve_update(body: UpdateChallengeRequest) -> (r: ChangeSet)
    ensures
        r@ == general_changes(body),
{
    let r = ChangeSet {
        title: patch_of(body.title),
        description: patch_of(body.description),
        category: patch_of(body.category),
        tags: patch_of(body.tags),
        is_public: patch_of(body.is_public),
        is_dynamic: patch_of(body.is_dynamic),
        has_attachment: patch_of(body.has_attachment),
        env: Patch::Keep,
        checker: Patch::Keep,
    };
    r
}

/// Translates an environment update request into a change-set.
pub fn resolve_env_update(body: UpdateChallengeEnvRequest) -> (r: ChangeSet)
    ensures
        r@ == env_changes(body),
{
    ChangeSet {
        title: Patch::Keep,
        description: Patch::Keep,
        category: Patch::Keep,
        tags: Patch::Keep,
        is_public: Patch::Keep,
        is_dynamic: Patch::Keep,
        has_attachment: Patch::Keep,
        env: patch_of(body.env),
        checker: Patch::Keep,
    }
}

/// Translates a checker update request into a change-set.
pub fn resolve_checker_update(body: UpdateChallengeCheckerRequest) -> (r: ChangeSet)
    ensures
        r@ == checker_changes(body),
{
    ChangeSet {
        title: Patch::Keep,
        description: Patch::Keep,
        category: Patch::Keep,
        tags: Patch::Keep,
        is_public: Patch::Keep,
        is_dynamic: Patch::Keep,
        has_attachment: Patch::Keep,
        env: Patch::Keep,
        checker: patch_of(body.checker),
    }
}

/// Merges a change-set into a record in place.
pub fn merge_into(c: &mut Challenge, cs: ChangeSet)
    ensures
        final(c)@ == merged(old(c)@, cs@),
{
    if let Patch::Overwrite(v) = cs.title {
        c.title = v;
    }
    if let Patch::Overwrite(v) = cs.description {
        c.description = v;
    }
    if let Patch::Overwrite(v) = cs.category {
        c.category = v;
    }
    if let Patch::Overwrite(v) = cs.tags {
        c.tags = v;
    }
    if let Patch::Overwrite(v) = cs.is_public {
        c.is_public = v;
    }
    if let Patch::Overwrite(v) = cs.is_dynamic {
        c.is_dynamic = v;
    }
    if let Patch::Overwrite(v) = cs.has_attachment {
        c.has_attachment = v;
    }
    if let Patch::Overwrite(v) = cs.env {
        c.env = Some(v);
    }
    if let Patch::Overwrite(v) = cs.checker {
        c.checker = Some(v);
    }
}

} // verus!
