//! The credential store: user identity records, looked up by email and
//! appended on registration. The store keeps at most one record per
//! email; `save_user` demands that the email is still free, so the
//! uniqueness invariant is enforced at the store, not by a prior read
//! alone.

use vstd::prelude::*;

verus! {

/// A user identity record. Timestamps are in seconds since the unix
/// epoch.
#[derive(Debug)]
pub struct User {
    pub name: String,
    pub rolename: String,
    pub email: String,
    /// PHC-encoded password hash; never the password itself.
    pub password: String,
    pub created_at: u64,
    pub updated_at: u64,
}

/// The mathematical content of a user record.
pub struct UserView {
    pub name: Seq<char>,
    pub rolename: Seq<char>,
    pub email: Seq<char>,
    pub password: Seq<char>,
    pub created_at: u64,
    pub updated_at: u64,
}

impl View for User {
    type V = UserView;

    open spec fn view(&self) -> UserView {
        UserView {
            name: self.name@,
            rolename: self.rolename@,
            email: self.email@,
            password: self.password@,
            created_at: self.created_at,
            updated_at: self.updated_at,
        }
    }
}

impl Clone for User {
    fn clone(&self) -> (r: User)
        ensures
            r@ == self@,
    {
        User {
            name: self.name.clone(),
            rolename: self.rolename.clone(),
            email: self.email.clone(),
            password: self.password.clone(),
            created_at: self.created_at,
            updated_at: self.updated_at,
        }
    }
}

/// The first record in `users` whose email is `email`, if any.
pub open spec fn spec_find(users: Seq<UserView>, email: Seq<char>) -> Option<UserView>
    decreases users.len(),
{
    if users.len() == 0 {
        None
    } else if users[0].email == email {
        Some(users[0])
    } else {
        spec_find(users.drop_first(), email)
    }
}

/// `spec_find` comes up `None` exactly when no record carries the email.
pub proof fn lemma_spec_find_none(users: Seq<UserView>, email: Seq<char>)
    ensures
        (spec_find(users, email) is None) <==> (forall|i: int|
            0 <= i < users.len() ==> users[i].email != email),
    decreases users.len(),
{
    if users.len() > 0 {
        lemma_spec_find_none(users.drop_first(), email);
        assert(forall|i: int|
            1 <= i < users.len() ==> users[i] == users.drop_first()[i - 1]);
    }
}

/// Records before a non-matching prefix do not change what is found.
proof fn lemma_spec_find_skip(users: Seq<UserView>, email: Seq<char>, i: int)
    requires
        0 <= i <= users.len(),
        forall|j: int| 0 <= j < i ==> users[j].email != email,
    ensures
        spec_find(users, email) == spec_find(users.skip(i), email),
    decreases i,
{
    if i > 0 {
        lemma_spec_find_skip(users, email, i - 1);
        assert(users.skip(i - 1).drop_first() =~= users.skip(i));
        assert(users.skip(i - 1)[0] == users[i - 1]);
    } else {
        assert(users.skip(0) =~= users);
    }
}

/// The user records, in order of registration.
pub struct UserRepository {
    users: Vec<User>,
}

impl View for UserRepository {
    type V = Seq<UserView>;

    closed spec fn view(&self) -> Seq<UserView> {
        Seq::new(self.users@.len(), |i: int| self.users@[i]@)
    }
}

impl UserRepository {
    /// Email uniqueness: no two records carry the same email.
    pub open spec fn wf(self) -> bool {
        forall|i: int, j: int|
            0 <= i < j < self@.len() ==> self@[i].email != self@[j].email
    }

    /// An empty store.
    pub fn new() -> (r: UserRepository)
        ensures
            r@ == Seq::<UserView>::empty(),
            r.wf(),
    {
        let r = UserRepository { users: Vec::new() };
        proof {
            assert(r@ =~= Seq::<UserView>::empty());
        }
        r
    }

    /// Look a user up by email; a copy of the first (with `wf`, only)
    /// record with that email, or `None`.
    pub fn find_by_email(&self, email: &String) -> (r: Option<User>)
        ensures
            match r {
                Some(u) => spec_find(self@, email@) == Some(u@) && u@.email == email@,
                None => spec_find(self@, email@) is None,
            },
    {
        let mut i: usize = 0;
        while i < self.users.len()
            invariant
                i <= self.users.len(),
                self@.len() == self.users@.len(),
                forall|j: int| 0 <= j < i ==> self@[j].email != email@,
            decreases self.users.len() - i,
        {
            if self.users[i].email == *email {
                proof {
                    lemma_spec_find_skip(self@, email@, i as int);
                    assert(self@.skip(i as int)[0] == self@[i as int]);
                }
                return Some(self.users[i].clone());
            }
            i = i + 1;
        }
        proof {
            lemma_spec_find_skip(self@, email@, self@.len() as int);
            assert(self@.skip(self@.len() as int) =~= Seq::<UserView>::empty());
        }
        None
    }

    /// Append a record for a not-yet-taken email.
    pub fn save_user(&mut self, user: User)
        requires
            spec_find(old(self)@, user@.email) is None,
        ensures
            final(self)@ == old(self)@.push(user@),
            old(self).wf() ==> final(self).wf(),
    {
        proof {
            lemma_spec_find_none(old(self)@, user@.email);
        }
        self.users.push(user);
        proof {
            assert(self@ =~= old(self)@.push(user@));
        }
    }

    /// How many records the store holds.
    pub fn len(&self) -> (r: usize)
        ensures
            r == self@.len(),
    {
        self.users.len()
    }
}

} // verus!
