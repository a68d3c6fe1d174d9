use vstd::prelude::*;

verus! {

/// Identifier of a challenge: the 128 bits of its UUID.
pub type ChallengeId = u128;

/// Descriptor of the runtime environment template of a dynamic challenge,
/// carried as its serialized text; this layer never looks inside it.
#[derive(Clone, Debug)]
pub struct Env {
    pub descriptor: String,
}

impl View for Env {
    type V = Seq<char>;

    open spec fn view(&self) -> Seq<char> {
        self.descriptor@
    }
}

impl Env {
    pub fn new(descriptor: String) -> (r: Env)
        ensures
            r@ == descriptor@,
    {
        Env { descriptor }
    }

    /// A copy with the same descriptor.
    pub fn snapshot(&self) -> (r: Env)
        ensures
            r@ == self@,
    {
        Env { descriptor: self.descriptor.clone() }
    }
}

/// A challenge record as the store holds it.
#[derive(Clone, Debug)]
pub struct Challenge {
    pub id: ChallengeId,
    pub title: String,
    pub description: String,
    pub category: i32,
    pub tags: Vec<String>,
    pub is_public: bool,
    pub is_dynamic: bool,
    pub has_attachment: bool,
    pub env: Option<Env>,
    pub checker: Option<String>,
    pub deleted_at: Option<i64>,
}

/// The mathematical value of a challenge record.
pub struct ChallengeView {
    pub id: ChallengeId,
    pub title: Seq<char>,
    pub description: Seq<char>,
    pub category: i32,
    pub tags: Seq<Seq<char>>,
    pub is_public: bool,
    pub is_dynamic: bool,
    pub has_attachment: bool,
    pub env: Option<Seq<char>>,
    pub checker: Option<Seq<char>>,
    pub deleted_at: Option<i64>,
}

pub open spec fn strings_view(v: Seq<String>) -> Seq<Seq<char>> {
    v.map_values(|s: String| s@)
}

pub open spec fn env_view(e: Option<Env>) -> Option<Seq<char>> {
    match e {
        Some(v) => Some(v@),
        None => None,
    }
}

pub open spec fn text_view(t: Option<String>) -> Option<Seq<char>> {
    match t {
        Some(v) => Some(v@),
        None => None,
    }
}

impl View for Challenge {
    type V = ChallengeView;

    open spec fn view(&self) -> ChallengeView {
        ChallengeView {
            id: self.id,
            title: self.title@,
            description: self.description@,
            category: self.category,
            tags: strings_view(self.tags@),
            is_public: self.is_public,
            is_dynamic: self.is_dynamic,
            has_attachment: self.has_attachment,
            env: env_view(self.env),
            checker: text_view(self.checker),
            deleted_at: self.deleted_at,
        }
    }
}

/// Copies a list of strings, keeping their order.
pub fn copy_strings(v: &Vec<String>) -> (r: Vec<String>)
    ensures
        strings_view(r@) == strings_view(v@),
{
    let mut r: Vec<String> = Vec::new();
    let mut i: usize = 0;
    while i < v.len()
        invariant
            i <= v.len(),
            r@.len() == i,
            forall|j: int| 0 <= j < i ==> r@[j]@ == v@[j]@,
        decreases v.len() - i,
    {
        r.push(v[i].clone());
        i = i + 1;
    }
    assert(strings_view(r@) =~= strings_view(v@));
    r
}

impl Challenge {
    /// A fresh, live record: the given id and title, every other field empty.
    pub fn new(id: ChallengeId, title: String) -> (r: Challenge)
        ensures
            r@.id == id,
            r@.title == title@,
            r@.description.len() == 0,
            r@.category == 0,
            r@.tags.len() == 0,
            !r@.is_public,
            !r@.is_dynamic,
            !r@.has_attachment,
            r@.env is None,
            r@.checker is None,
            r@.deleted_at is None,
    {
        let r = Challenge {
            id,
            title,
            description: String::new(),
            category: 0,
            tags: Vec::new(),
            is_public: false,
            is_dynamic: false,
            has_attachment: false,
            env: None,
            checker: None,
            deleted_at: None,
        };
        assert(r@.tags =~= Seq::<Seq<char>>::empty());
        r
    }

    /// A copy with the same value.
    pub fn snapshot(&self) -> (r: Challenge)
        ensures
            r@ == self@,
    {
        let env = match &self.env {
            Some(e) => Some(e.snapshot()),
            None => None,
        };
        let checker = match &self.checker {
            Some(c) => Some(c.clone()),
            None => None,
        };
        Challenge {
            id: self.id,
            title: self.title.clone(),
            description: self.description.clone(),
            category: self.category,
            tags: copy_strings(&self.tags),
            is_public: self.is_public,
            is_dynamic: self.is_dynamic,
            has_attachment: self.has_attachment,
            env,
            checker,
            deleted_at: self.deleted_at,
        }
    }

    /// Whether the record is soft-deleted.
    pub fn is_deleted(&self) -> (r: bool)
        ensures
            r == (self@.deleted_at is Some),
    {
        self.deleted_at.is_some()
    }
}

} // verus!
