//! Space records and the space routes' logic: creation behind a
//! name-uniqueness check, and lookup by name.

use vstd::prelude::*;

verus! {

/// A reservable space. Timestamps are in seconds since the unix epoch.
#[derive(Debug)]
pub struct Space {
    pub id: u128,
    pub name: String,
    pub created_at: u64,
    pub updated_at: u64,
}

/// The mathematical content of a space record.
pub struct SpaceView {
    pub id: u128,
    pub name: Seq<char>,
    pub created_at: u64,
    pub updated_at: u64,
}

impl View for Space {
    type V = SpaceView;

    open spec fn view(&self) -> SpaceView {
        SpaceView {
            id: self.id,
            name: self.name@,
            created_at: self.created_at,
            updated_at: self.updated_at,
        }
    }
}

impl Clone for Space {
    fn clone(&self) -> (r: Space)
        ensures
            r@ == self@,
    {
        Space {
            id: self.id,
            name: self.name.clone(),
            created_at: self.created_at,
            updated_at: self.updated_at,
        }
    }
}

/// What can go wrong on the space routes.
#[derive(Debug, PartialEq, Eq)]
pub enum SpaceError {
    NotFound,
    InternalServerError(String),
}

impl SpaceError {
    pub open spec fn spec_status(self) -> u16 {
        match self {
            SpaceError::NotFound => 404,
            SpaceError::InternalServerError(_) => 500,
        }
    }

    pub open spec fn spec_message(self) -> Seq<char> {
        match self {
            SpaceError::NotFound => "Space not found"@,
            SpaceError::InternalServerError(e) => e@,
        }
    }

    pub fn status_code(&self) -> (r: u16)
        ensures
            r == self.spec_status(),
    {
        match self {
            SpaceError::NotFound => 404,
            SpaceError::InternalServerError(_) => 500,
        }
    }

    pub fn message(&self) -> (r: String)
        ensures
            r@ == self.spec_message(),
    {
        match self {
            SpaceError::NotFound => String::from_str("Space not found"),
            SpaceError::InternalServerError(e) => e.clone(),
        }
    }
}

/// A space as shown to clients.
#[derive(Debug)]
pub struct ResponseSpace {
    pub id: u128,
    pub name: String,
    pub created_at: u64,
    pub updated_at: u64,
}

impl View for ResponseSpace {
    type V = SpaceView;

    open spec fn view(&self) -> SpaceView {
        SpaceView {
            id: self.id,
            name: self.name@,
            created_at: self.created_at,
            updated_at: self.updated_at,
        }
    }
}

pub struct SpaceCreateRequest {
    pub name: String,
}

pub struct SpaceQuery {
    pub name: String,
}

/// The first record in `s` whose name is `name`, if any.
pub open spec fn spec_find_space(s: Seq<SpaceView>, name: Seq<char>) -> Option<SpaceView>
    decreases s.len(),
{
    if s.len() == 0 {
        None
    } else if s[0].name == name {
        Some(s[0])
    } else {
        spec_find_space(s.drop_first(), name)
    }
}

proof fn lemma_spec_find_space_skip(s: Seq<SpaceView>, name: Seq<char>, i: int)
    requires
        0 <= i <= s.len(),
        forall|j: int| 0 <= j < i ==> s[j].name != name,
    ensures
        spec_find_space(s, name) == spec_find_space(s.skip(i), name),
    decreases i,
{
    if i > 0 {
        lemma_spec_find_space_skip(s, name, i - 1);
        assert(s.skip(i - 1).drop_first() =~= s.skip(i));
        assert(s.skip(i - 1)[0] == s[i - 1]);
    } else {
        assert(s.skip(0) =~= s);
    }
}

/// The space records, in order of creation, with the id the next one
/// receives.
pub struct CreateSpaceRepository {
    spaces: Vec<Space>,
    next_id: u128,
}

impl View for CreateSpaceRepository {
    type V = Seq<SpaceView>;

    closed spec fn view(&self) -> Seq<SpaceView> {
        Seq::new(self.spaces@.len(), |i: int| self.spaces@[i]@)
    }
}

impl CreateSpaceRepository {
    pub closed spec fn spec_next_id(self) -> u128 {
        self.next_id
    }

    /// An empty repository; created ids count up from `first_id`.
    pub fn new(first_id: u128) -> (r: CreateSpaceRepository)
        ensures
            r@ == Seq::<SpaceView>::empty(),
            r.spec_next_id() == first_id,
    {
        let r = CreateSpaceRepository { spaces: Vec::new(), next_id: first_id };
        proof {
            assert(r@ =~= Seq::<SpaceView>::empty());
        }
        r
    }

    /// The id the next created record receives.
    pub fn next_id(&self) -> (r: u128)
        ensures
            r == self.spec_next_id(),
    {
        self.next_id
    }

    /// Store a space named `name` under a fresh id, both timestamps set
    /// to `now`, and hand the stored record back.
    pub fn create(&mut self, name: &str, now: u64) -> (r: Space)
        requires
            old(self).spec_next_id() < u128::MAX,
        ensures
            r@ == (SpaceView {
                id: old(self).spec_next_id(),
                name: name@,
                created_at: now,
                updated_at: now,
            }),
            final(self)@ == old(self)@.push(r@),
            final(self).spec_next_id() == old(self).spec_next_id() + 1,
    {
        let stored = Space {
            id: self.next_id,
            name: name.to_owned(),
            created_at: now,
            updated_at: now,
        };
        let r = stored.clone();
        self.spaces.push(stored);
        self.next_id = self.next_id + 1;
        proof {
            assert(self@ =~= old(self)@.push(r@));
        }
        r
    }

    /// A copy of the first record named `name`, if any.
    pub fn find_by_name(&self, name: &str) -> (r: Option<Space>)
        ensures
            match r {
                Some(s) => spec_find_space(self@, name@) == Some(s@) && s@.name == name@,
                None => spec_find_space(self@, name@) is None,
            },
    {
        let mut i: usize = 0;
        while i < self.spaces.len()
            invariant
                i <= self.spaces.len(),
                self@.len() == self.spaces@.len(),
                forall|j: int| 0 <= j < i ==> self@[j].name != name@,
            decreases self.spaces.len() - i,
        {
            if crate::strutil::str_eq(self.spaces[i].name.as_str(), name) {
                proof {
                    lemma_spec_find_space_skip(self@, name@, i as int);
                    assert(self@.skip(i as int)[0] == self@[i as int]);
                }
                return Some(self.spaces[i].clone());
            }
            i = i + 1;
        }
        proof {
            lemma_spec_find_space_skip(self@, name@, self@.len() as int);
            assert(self@.skip(self@.len() as int) =~= Seq::<SpaceView>::empty());
        }
        None
    }
}

/// Create a space, refusing a taken name: the check-then-insert of the
/// space route.
pub fn create(repo: &mut CreateSpaceRepository, body: SpaceCreateRequest, now: u64) -> (r: Result<
    ResponseSpace,
    SpaceError,
>)
    requires
        old(repo).spec_next_id() < u128::MAX,
    ensures
        spec_find_space(old(repo)@, body.name@) is Some ==> final(repo)@ == old(repo)@ && (match r {
            Err(SpaceError::InternalServerError(m)) => m@ == "Space \""@ + body.name@
                + "\" already exists"@,
            _ => false,
        }),
        spec_find_space(old(repo)@, body.name@) is None ==> (match r {
            Ok(s) => final(repo)@ == old(repo)@.push(
                SpaceView {
                    id: old(repo).spec_next_id(),
                    name: body.name@,
                    created_at: now,
                    updated_at: now,
                },
            ) && s@ == (SpaceView {
                id: old(repo).spec_next_id(),
                name: body.name@,
                created_at: now,
                updated_at: now,
            }),
            Err(_) => false,
        }),
{
    if repo.find_by_name(body.name.as_str()).is_some() {
        let m = String::from_str("Space \"").concat(body.name.as_str()).concat(
            "\" already exists",
        );
        proof {
            assert(m@ =~= "Space \""@ + body.name@ + "\" already exists"@);
        }
        return Err(SpaceError::InternalServerError(m));
    }
    let space = repo.create(body.name.as_str(), now);
    Ok(ResponseSpace {
        id: space.id,
        name: space.name,
        created_at: space.created_at,
        updated_at: space.updated_at,
    })
}

/// Look a space up by name for the find route.
pub fn find_by_name(repo: &CreateSpaceRepository, query: SpaceQuery) -> (r: Result<
    ResponseSpace,
    SpaceError,
>)
    ensures
        match r {
            Ok(s) => spec_find_space(repo@, query.name@) == Some(s@),
            Err(e) => spec_find_space(repo@, query.name@) is None && e == SpaceError::NotFound,
        },
{
    match repo.find_by_name(query.name.as_str()) {
        Some(space) => Ok(ResponseSpace {
            id: space.id,
            name: space.name,
            created_at: space.created_at,
            updated_at: space.updated_at,
        }),
        None => Err(SpaceError::NotFound),
    }
}

} // verus!
