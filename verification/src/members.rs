//! Member records of the registry, and the operations the member routes
//! rest on: listing, lookup by id, prefix search by name, creation with
//! a fresh id, field-wise update, and deletion. Record ids and the
//! medical-society reference are held as 128-bit numbers, and dates as
//! day numbers, so that the records are plain data throughout.

use vstd::prelude::*;

use crate::users::ApiResponse;

verus! {

/// A member record. `birth_date` is a day number; the timestamps are in
/// seconds since the unix epoch.
#[derive(Debug)]
pub struct Member {
    pub id: u128,
    pub name: String,
    pub lastname: String,
    pub ci: String,
    pub birth_date: i64,
    pub phone: String,
    pub tutor_name: Option<String>,
    pub tutor_lastname: Option<String>,
    pub tutor_phone: Option<String>,
    pub observation: Option<String>,
    pub medical_society_id: u128,
    pub address: String,
    pub created_at: u64,
    pub updated_at: u64,
}

/// The mathematical content of a member record.
pub struct MemberView {
    pub id: u128,
    pub name: Seq<char>,
    pub lastname: Seq<char>,
    pub ci: Seq<char>,
    pub birth_date: i64,
    pub phone: Seq<char>,
    pub tutor_name: Option<Seq<char>>,
    pub tutor_lastname: Option<Seq<char>>,
    pub tutor_phone: Option<Seq<char>>,
    pub observation: Option<Seq<char>>,
    pub medical_society_id: u128,
    pub address: Seq<char>,
    pub created_at: u64,
    pub updated_at: u64,
}

pub open spec fn view_opt_string(o: Option<String>) -> Option<Seq<char>> {
    match o {
        Some(s) => Some(s@),
        None => None,
    }
}

impl View for Member {
    type V = MemberView;

    open spec fn view(&self) -> MemberView {
        MemberView {
            id: self.id,
            name: self.name@,
            lastname: self.lastname@,
            ci: self.ci@,
            birth_date: self.birth_date,
            phone: self.phone@,
            tutor_name: view_opt_string(self.tutor_name),
            tutor_lastname: view_opt_string(self.tutor_lastname),
            tutor_phone: view_opt_string(self.tutor_phone),
            observation: view_opt_string(self.observation),
            medical_society_id: self.medical_society_id,
            address: self.address@,
            created_at: self.created_at,
            updated_at: self.updated_at,
        }
    }
}

fn clone_opt_string(o: &Option<String>) -> (r: Option<String>)
    ensures
        view_opt_string(r) == view_opt_string(*o),
{
    match o {
        Some(s) => Some(s.clone()),
        None => None,
    }
}

impl Clone for Member {
    fn clone(&self) -> (r: Member)
        ensures
            r@ == self@,
    {
        Member {
            id: self.id,
            name: self.name.clone(),
            lastname: self.lastname.clone(),
            ci: self.ci.clone(),
            birth_date: self.birth_date,
            phone: self.phone.clone(),
            tutor_name: clone_opt_string(&self.tutor_name),
            tutor_lastname: clone_opt_string(&self.tutor_lastname),
            tutor_phone: clone_opt_string(&self.tutor_phone),
            observation: clone_opt_string(&self.observation),
            medical_society_id: self.medical_society_id,
            address: self.address.clone(),
            created_at: self.created_at,
            updated_at: self.updated_at,
        }
    }
}

/// The shape search results come in.
#[derive(Debug)]
pub struct MemberSmall {
    pub id: u128,
    pub name: String,
    pub lastname: String,
    pub ci: String,
    pub birth_date: i64,
}

/// The mathematical content of a search result.
pub struct MemberSmallView {
    pub id: u128,
    pub name: Seq<char>,
    pub lastname: Seq<char>,
    pub ci: Seq<char>,
    pub birth_date: i64,
}

impl View for MemberSmall {
    type V = MemberSmallView;

    open spec fn view(&self) -> MemberSmallView {
        MemberSmallView {
            id: self.id,
            name: self.name@,
            lastname: self.lastname@,
            ci: self.ci@,
            birth_date: self.birth_date,
        }
    }
}

/// What a search result keeps of a record.
pub open spec fn small_of(m: MemberView) -> MemberSmallView {
    MemberSmallView {
        id: m.id,
        name: m.name,
        lastname: m.lastname,
        ci: m.ci,
        birth_date: m.birth_date,
    }
}

/// A partial update of a member record: absent fields stay as they are.
pub struct UpdateMemberBody {
    pub name: Option<String>,
    pub lastname: Option<String>,
    pub ci: Option<String>,
    pub birth_date: Option<i64>,
    pub phone: Option<String>,
    pub tutor_name: Option<String>,
    pub tutor_lastname: Option<String>,
    pub tutor_phone: Option<String>,
    pub observation: Option<String>,
    pub medical_society_id: Option<u128>,
    pub address: Option<String>,
}

/// The mathematical content of a partial update.
pub struct UpdateBodyView {
    pub name: Option<Seq<char>>,
    pub lastname: Option<Seq<char>>,
    pub ci: Option<Seq<char>>,
    pub birth_date: Option<i64>,
    pub phone: Option<Seq<char>>,
    pub tutor_name: Option<Seq<char>>,
    pub tutor_lastname: Option<Seq<char>>,
    pub tutor_phone: Option<Seq<char>>,
    pub observation: Option<Seq<char>>,
    pub medical_society_id: Option<u128>,
    pub address: Option<Seq<char>>,
}

impl View for UpdateMemberBody {
    type V = UpdateBodyView;

    open spec fn view(&self) -> UpdateBodyView {
        UpdateBodyView {
            name: view_opt_string(self.name),
            lastname: view_opt_string(self.lastname),
            ci: view_opt_string(self.ci),
            birth_date: self.birth_date,
            phone: view_opt_string(self.phone),
            tutor_name: view_opt_string(self.tutor_name),
            tutor_lastname: view_opt_string(self.tutor_lastname),
            tutor_phone: view_opt_string(self.tutor_phone),
            observation: view_opt_string(self.observation),
            medical_society_id: self.medical_society_id,
            address: view_opt_string(self.address),
        }
    }
}

/// The record `m` after taking every field the update carries. A present
/// tutor, observation or similar optional field replaces the old value;
/// an absent one leaves it; id and timestamps stay.
pub open spec fn apply_update(m: MemberView, u: UpdateBodyView) -> MemberView {
    MemberView {
        id: m.id,
        name: if u.name is Some { u.name.unwrap() } else { m.name },
        lastname: if u.lastname is Some { u.lastname.unwrap() } else { m.lastname },
        ci: if u.ci is Some { u.ci.unwrap() } else { m.ci },
        birth_date: if u.birth_date is Some { u.birth_date.unwrap() } else { m.birth_date },
        phone: if u.phone is Some { u.phone.unwrap() } else { m.phone },
        tutor_name: if u.tutor_name is Some { u.tutor_name } else { m.tutor_name },
        tutor_lastname: if u.tutor_lastname is Some { u.tutor_lastname } else { m.tutor_lastname },
        tutor_phone: if u.tutor_phone is Some { u.tutor_phone } else { m.tutor_phone },
        observation: if u.observation is Some { u.observation } else { m.observation },
        medical_society_id: if u.medical_society_id is Some {
            u.medical_society_id.unwrap()
        } else {
            m.medical_society_id
        },
        address: if u.address is Some { u.address.unwrap() } else { m.address },
        created_at: m.created_at,
        updated_at: m.updated_at,
    }
}

impl Member {
    /// Take over every field the update carries; keep the rest.
    pub fn update_my_member(&mut self, new_data: UpdateMemberBody)
        ensures
            final(self)@ == apply_update(old(self)@, new_data@),
    {
        if let Some(name) = new_data.name {
            self.name = name;
        }
        if let Some(lastname) = new_data.lastname {
            self.lastname = lastname;
        }
        if let Some(ci) = new_data.ci {
            self.ci = ci;
        }
        if let Some(birth_date) = new_data.birth_date {
            self.birth_date = birth_date;
        }
        if let Some(phone) = new_data.phone {
            self.phone = phone;
        }
        if let Some(tutor_name) = new_data.tutor_name {
            self.tutor_name = Some(tutor_name);
        }
        if let Some(tutor_lastname) = new_data.tutor_lastname {
            self.tutor_lastname = Some(tutor_lastname);
        }
        if let Some(tutor_phone) = new_data.tutor_phone {
            self.tutor_phone = Some(tutor_phone);
        }
        if let Some(observation) = new_data.observation {
            self.observation = Some(observation);
        }
        if let Some(medical_society_id) = new_data.medical_society_id {
            self.medical_society_id = medical_society_id;
        }
        if let Some(address) = new_data.address {
            self.address = address;
        }
    }
}

/// What can go wrong on the member routes.
#[derive(Debug, PartialEq, Eq)]
pub enum UserError {
    NotFound,
    InternalServerError(String),
}

impl UserError {
    pub open spec fn spec_status(self) -> u16 {
        match self {
            UserError::NotFound => 404,
            UserError::InternalServerError(_) => 500,
        }
    }

    pub open spec fn spec_message(self) -> Seq<char> {
        match self {
            UserError::NotFound => "User not found"@,
            UserError::InternalServerError(e) => e@,
        }
    }

    pub fn status_code(&self) -> (r: u16)
        ensures
            r == self.spec_status(),
    {
        match self {
            UserError::NotFound => 404,
            UserError::InternalServerError(_) => 500,
        }
    }

    pub fn message(&self) -> (r: String)
        ensures
            r@ == self.spec_message(),
    {
        match self {
            UserError::NotFound => String::from_str("User not found"),
            UserError::InternalServerError(e) => e.clone(),
        }
    }
}

/// A name search: either part may be absent, not both.
pub struct QuerySearch {
    pub name: Option<String>,
    pub lastname: Option<String>,
}

#[derive(Debug)]
pub struct FindAllResponse {
    pub status: String,
    pub data: Vec<Member>,
}

#[derive(Debug)]
pub struct FindOneResponse {
    pub status: String,
    pub data: Member,
}

#[derive(Debug)]
pub struct CreateResponse {
    pub status: String,
    pub data: Member,
}

#[derive(Debug)]
pub struct UpdateResponse {
    pub status: String,
    pub data: Member,
}

#[derive(Debug)]
pub struct DeleteResponse {
    pub status: String,
}

/// The code point of `c`, with an ASCII capital letter folded to its
/// small form. The registry's search matches prefixes up to this
/// folding.
pub open spec fn spec_lower_code(c: char) -> u32 {
    if 65 <= c as u32 <= 90 {
        (c as u32 + 32) as u32
    } else {
        c as u32
    }
}

fn lower_code(c: char) -> (r: u32)
    ensures
        r == spec_lower_code(c),
{
    let x = c as u32;
    if 65 <= x && x <= 90 {
        x + 32
    } else {
        x
    }
}

/// `p` is a prefix of `s`, letter case set aside.
pub open spec fn prefix_imatch(s: Seq<char>, p: Seq<char>) -> bool {
    p.len() <= s.len() && forall|k: int|
        0 <= k < p.len() ==> spec_lower_code(s[k]) == spec_lower_code(p[k])
}

fn prefix_imatch_exec(s: &str, p: &str) -> (r: bool)
    ensures
        r == prefix_imatch(s@, p@),
{
    let ns = s.unicode_len();
    let np = p.unicode_len();
    if np > ns {
        return false;
    }
    let mut k: usize = 0;
    while k < np
        invariant
            k <= np,
            np == p@.len(),
            ns == s@.len(),
            np <= ns,
            forall|j: int| 0 <= j < k ==> spec_lower_code(s@[j]) == spec_lower_code(p@[j]),
        decreases np - k,
    {
        if lower_code(s.get_char(k)) != lower_code(p.get_char(k)) {
            return false;
        }
        k = k + 1;
    }
    true
}

/// Whether a record answers a search: each part given must be a
/// case-folded prefix of the matching field.
pub open spec fn spec_matches_search(
    m: MemberView,
    name: Option<Seq<char>>,
    lastname: Option<Seq<char>>,
) -> bool {
    &&& (name matches Some(n) ==> prefix_imatch(m.name, n))
    &&& (lastname matches Some(l) ==> prefix_imatch(m.lastname, l))
}

/// What searching `s` yields: the records answering the search, in
/// order, each cut down to its `MemberSmall` shape.
pub open spec fn spec_search(
    s: Seq<MemberView>,
    name: Option<Seq<char>>,
    lastname: Option<Seq<char>>,
) -> Seq<MemberSmallView>
    decreases s.len(),
{
    if s.len() == 0 {
        Seq::empty()
    } else {
        let rest = spec_search(s.drop_last(), name, lastname);
        if spec_matches_search(s.last(), name, lastname) {
            rest.push(small_of(s.last()))
        } else {
            rest
        }
    }
}

/// The first index at or after `from` whose record carries `id`; the
/// length of `s` when none does.
pub open spec fn index_of_id_from(s: Seq<MemberView>, id: u128, from: int) -> int
    decreases s.len() - from,
{
    if from < 0 || from >= s.len() {
        s.len() as int
    } else if s[from].id == id {
        from
    } else {
        index_of_id_from(s, id, from + 1)
    }
}

proof fn lemma_index_of_id_from_bounds(s: Seq<MemberView>, id: u128, from: int)
    requires
        0 <= from <= s.len(),
    ensures
        from <= index_of_id_from(s, id, from) <= s.len(),
        index_of_id_from(s, id, from) < s.len() ==> s[index_of_id_from(s, id, from)].id == id,
        forall|k: int| from <= k < index_of_id_from(s, id, from) ==> s[k].id != id,
    decreases s.len() - from,
{
    if from < s.len() && s[from].id != id {
        lemma_index_of_id_from_bounds(s, id, from + 1);
    }
}

/// The member records, in order of creation, with the id the next
/// created record receives.
pub struct MemberRegistry {
    members: Vec<Member>,
    next_id: u128,
}

impl View for MemberRegistry {
    type V = Seq<MemberView>;

    closed spec fn view(&self) -> Seq<MemberView> {
        Seq::new(self.members@.len(), |i: int| self.members@[i]@)
    }
}

impl MemberRegistry {
    /// Ids are unique, and every id on record stays below the next one
    /// to be handed out.
    pub open spec fn wf(self) -> bool {
        &&& forall|i: int, j: int| 0 <= i < j < self@.len() ==> self@[i].id != self@[j].id
        &&& forall|i: int| 0 <= i < self@.len() ==> self@[i].id < self.spec_next_id()
    }

    pub closed spec fn spec_next_id(self) -> u128 {
        self.next_id
    }

    /// An empty registry; created ids count up from `first_id`.
    pub fn new(first_id: u128) -> (r: MemberRegistry)
        ensures
            r@ == Seq::<MemberView>::empty(),
            r.spec_next_id() == first_id,
            r.wf(),
    {
        let r = MemberRegistry { members: Vec::new(), next_id: first_id };
        proof {
            assert(r@ =~= Seq::<MemberView>::empty());
        }
        r
    }

    /// The id the next created record receives.
    pub fn next_id(&self) -> (r: u128)
        ensures
            r == self.spec_next_id(),
    {
        self.next_id
    }

    /// A copy of every record, in order.
    pub fn find_all(&self) -> (r: Vec<Member>)
        ensures
            r@.len() == self@.len(),
            forall|i: int| 0 <= i < r@.len() ==> r@[i]@ == self@[i],
    {
        let mut out: Vec<Member> = Vec::new();
        let mut i: usize = 0;
        while i < self.members.len()
            invariant
                i <= self.members.len(),
                self@.len() == self.members@.len(),
                out@.len() == i,
                forall|j: int| 0 <= j < i ==> out@[j]@ == self@[j],
            decreases self.members.len() - i,
        {
            out.push(self.members[i].clone());
            i = i + 1;
        }
        out
    }

    fn find_index(&self, id: u128) -> (r: usize)
        ensures
            r as int == index_of_id_from(self@, id, 0),
            r <= self@.len(),
            r < self@.len() ==> self@[r as int].id == id,
    {
        let mut i: usize = 0;
        while i < self.members.len()
            invariant
                i <= self.members.len(),
                self@.len() == self.members@.len(),
                forall|k: int| 0 <= k < i ==> self@[k].id != id,
            decreases self.members.len() - i,
        {
            if self.members[i].id == id {
                proof {
                    lemma_index_of_id_from_bounds(self@, id, 0);
                }
                return i;
            }
            i = i + 1;
        }
        proof {
            lemma_index_of_id_from_bounds(self@, id, 0);
        }
        i
    }

    /// A copy of the record carrying `id`, if any.
    pub fn find_by_id(&self, id: u128) -> (r: Option<Member>)
        ensures
            match r {
                Some(m) => index_of_id_from(self@, id, 0) < self@.len() && m@ == self@[index_of_id_from(
                    self@,
                    id,
                    0,
                )] && m@.id == id,
                None => index_of_id_from(self@, id, 0) == self@.len(),
            },
    {
        let idx = self.find_index(id);
        if idx < self.members.len() {
            Some(self.members[idx].clone())
        } else {
            None
        }
    }

    /// Store a new record under a fresh id; what was handed in keeps
    /// every other field, the stored copy comes back.
    pub fn create(&mut self, member: Member) -> (r: Member)
        requires
            old(self).wf(),
            old(self).spec_next_id() < u128::MAX,
        ensures
            final(self).wf(),
            r@ == (MemberView { id: old(self).spec_next_id(), ..member@ }),
            final(self)@ == old(self)@.push(r@),
            final(self).spec_next_id() == old(self).spec_next_id() + 1,
    {
        let mut stored = member;
        stored.id = self.next_id;
        let r = stored.clone();
        self.members.push(stored);
        self.next_id = self.next_id + 1;
        proof {
            assert(self@ =~= old(self)@.push(r@));
        }
        r
    }

    /// Replace the record carrying the id of `member` with the handed-in
    /// fields; its creation time stays, its update time becomes `now`.
    pub fn update(&mut self, member: Member, now: u64) -> (r: Result<Member, UserError>)
        requires
            old(self).wf(),
        ensures
            final(self).wf(),
            final(self).spec_next_id() == old(self).spec_next_id(),
            match r {
                Ok(m) => {
                    let idx = index_of_id_from(old(self)@, member@.id, 0);
                    &&& idx < old(self)@.len()
                    &&& m@ == (MemberView {
                        created_at: old(self)@[idx].created_at,
                        updated_at: now,
                        ..member@
                    })
                    &&& final(self)@ == old(self)@.update(idx, m@)
                },
                Err(e) => e == UserError::NotFound && index_of_id_from(old(self)@, member@.id, 0)
                    == old(self)@.len() && final(self)@ == old(self)@,
            },
    {
        let idx = self.find_index(member.id);
        if idx >= self.members.len() {
            return Err(UserError::NotFound);
        }
        let mut stored = member;
        stored.created_at = self.members[idx].created_at;
        stored.updated_at = now;
        let r = stored.clone();
        self.members[idx] = stored;
        proof {
            assert(self@ =~= old(self)@.update(idx as int, r@));
        }
        Ok(r)
    }

    /// Drop the record carrying `id`; dropping an unknown id changes
    /// nothing.
    pub fn delete(&mut self, id: u128)
        requires
            old(self).wf(),
        ensures
            final(self).wf(),
            final(self).spec_next_id() == old(self).spec_next_id(),
            index_of_id_from(old(self)@, id, 0) < old(self)@.len() ==> final(self)@ == old(
                self,
            )@.remove(index_of_id_from(old(self)@, id, 0)),
            index_of_id_from(old(self)@, id, 0) == old(self)@.len() ==> final(self)@ == old(
                self,
            )@,
    {
        let idx = self.find_index(id);
        if idx < self.members.len() {
            self.members.remove(idx);
            proof {
                assert(self@ =~= old(self)@.remove(idx as int));
            }
        }
    }

    /// Search by name and last name: each part given must be a prefix of
    /// the field, letter case set aside; a search with neither part is
    /// turned away.
    pub fn find_match_by_name(&self, name: Option<String>, lastname: Option<String>) -> (r: Result<
        Vec<MemberSmall>,
        UserError,
    >)
        ensures
            match r {
                Ok(v) => {
                    &&& (name is Some || lastname is Some)
                    &&& v@.len() == spec_search(
                        self@,
                        view_opt_string(name),
                        view_opt_string(lastname),
                    ).len()
                    &&& forall|i: int|
                        0 <= i < v@.len() ==> v@[i]@ == spec_search(
                            self@,
                            view_opt_string(name),
                            view_opt_string(lastname),
                        )[i]
                },
                Err(e) => name is None && lastname is None && (e matches
                    UserError::InternalServerError(m) && m@ == "No se ingresaron datos"@),
            },
    {
        if name.is_none() && lastname.is_none() {
            return Err(UserError::InternalServerError(String::from_str("No se ingresaron datos")));
        }
        let ghost vn = view_opt_string(name);
        let ghost vl = view_opt_string(lastname);
        let mut out: Vec<MemberSmall> = Vec::new();
        let mut i: usize = 0;
        while i < self.members.len()
            invariant
                i <= self.members.len(),
                self@.len() == self.members@.len(),
                vn == view_opt_string(name),
                vl == view_opt_string(lastname),
                out@.len() == spec_search(self@.take(i as int), vn, vl).len(),
                forall|j: int|
                    0 <= j < out@.len() ==> out@[j]@ == spec_search(self@.take(i as int), vn, vl)[j],
            decreases self.members.len() - i,
        {
            let m = &self.members[i];
            let name_ok = match &name {
                Some(n) => prefix_imatch_exec(m.name.as_str(), n.as_str()),
                None => true,
            };
            let lastname_ok = match &lastname {
                Some(l) => prefix_imatch_exec(m.lastname.as_str(), l.as_str()),
                None => true,
            };
            proof {
                assert(self@.take(i + 1).drop_last() =~= self@.take(i as int));
                assert(self@.take(i + 1).last() == self@[i as int]);
                assert(name_ok == (vn matches Some(n) ==> prefix_imatch(self@[i as int].name, n)));
                assert(lastname_ok == (vl matches Some(l) ==> prefix_imatch(
                    self@[i as int].lastname,
                    l,
                )));
            }
            if name_ok && lastname_ok {
                out.push(MemberSmall {
                    id: m.id,
                    name: m.name.clone(),
                    lastname: m.lastname.clone(),
                    ci: m.ci.clone(),
                    birth_date: m.birth_date,
                });
                proof {
                    assert(out@.last()@ == small_of(self@[i as int]));
                    assert(spec_search(self@.take(i + 1), vn, vl) == spec_search(
                        self@.take(i as int),
                        vn,
                        vl,
                    ).push(small_of(self@[i as int])));
                }
            }
            i = i + 1;
        }
        proof {
            assert(self@.take(self@.len() as int) =~= self@);
        }
        Ok(out)
    }
}

/// The listing route: every member on record, under a success status.
pub fn find_all(registry: &MemberRegistry) -> (r: Result<FindAllResponse, UserError>)
    ensures
        match r {
            Ok(resp) => {
                &&& resp.status@ == "success"@
                &&& resp.data@.len() == registry@.len()
                &&& forall|i: int| 0 <= i < resp.data@.len() ==> resp.data@[i]@ == registry@[i]
            },
            Err(_) => false,
        },
{
    let data = registry.find_all();
    Ok(FindAllResponse { status: String::from_str("success"), data: data })
}

/// The single-member route: the record carrying `uuid`, or not found.
pub fn find_one(registry: &MemberRegistry, uuid: u128) -> (r: Result<FindOneResponse, UserError>)
    ensures
        match r {
            Ok(resp) => {
                let idx = index_of_id_from(registry@, uuid, 0);
                &&& resp.status@ == "success"@
                &&& idx < registry@.len()
                &&& resp.data@ == registry@[idx]
            },
            Err(e) => e == UserError::NotFound && index_of_id_from(registry@, uuid, 0)
                == registry@.len(),
        },
{
    match registry.find_by_id(uuid) {
        None => Err(UserError::NotFound),
        Some(member) => Ok(FindOneResponse { status: String::from_str("success"), data: member }),
    }
}

/// The search route: prefix search by name and last name.
pub fn get_match_by_name(registry: &MemberRegistry, query: QuerySearch) -> (r: Result<
    ApiResponse<Vec<MemberSmall>>,
    UserError,
>)
    ensures
        match r {
            Ok(resp) => {
                &&& resp.status@ == "success"@
                &&& (query.name is Some || query.lastname is Some)
                &&& resp.data@.len() == spec_search(
                    registry@,
                    view_opt_string(query.name),
                    view_opt_string(query.lastname),
                ).len()
                &&& forall|i: int|
                    0 <= i < resp.data@.len() ==> resp.data@[i]@ == spec_search(
                        registry@,
                        view_opt_string(query.name),
                        view_opt_string(query.lastname),
                    )[i]
            },
            Err(e) => query.name is None && query.lastname is None && (e matches
                UserError::InternalServerError(m) && m@ == "No se ingresaron datos"@),
        },
{
    match registry.find_match_by_name(query.name, query.lastname) {
        Ok(found) => Ok(ApiResponse::new(found)),
        Err(e) => Err(e),
    }
}

/// The creation route: store the handed-in record under a fresh id.
pub fn create(registry: &mut MemberRegistry, member: Member) -> (r: Result<
    CreateResponse,
    UserError,
>)
    requires
        old(registry).wf(),
        old(registry).spec_next_id() < u128::MAX,
    ensures
        final(registry).wf(),
        match r {
            Ok(resp) => {
                &&& resp.status@ == "success"@
                &&& resp.data@ == (MemberView { id: old(registry).spec_next_id(), ..member@ })
                &&& final(registry)@ == old(registry)@.push(resp.data@)
            },
            Err(_) => false,
        },
{
    let stored = registry.create(member);
    Ok(CreateResponse { status: String::from_str("success"), data: stored })
}

/// The update route: take the present fields of the body over into the
/// record carrying `uuid`, stamping it with `now`.
pub fn update(
    registry: &mut MemberRegistry,
    uuid: u128,
    update_member_body: UpdateMemberBody,
    now: u64,
) -> (r: Result<UpdateResponse, UserError>)
    requires
        old(registry).wf(),
    ensures
        final(registry).wf(),
        match r {
            Ok(resp) => {
                let idx = index_of_id_from(old(registry)@, uuid, 0);
                &&& resp.status@ == "success"@
                &&& idx < old(registry)@.len()
                &&& resp.data@ == (MemberView {
                    updated_at: now,
                    ..apply_update(old(registry)@[idx], update_member_body@)
                })
                &&& final(registry)@ == old(registry)@.update(idx, resp.data@)
            },
            Err(e) => e == UserError::NotFound && index_of_id_from(old(registry)@, uuid, 0) == old(registry)@.len() && final(registry)@ == old(registry)@,
        },
{
    let mut member = match registry.find_by_id(uuid) {
        None => {
            return Err(UserError::NotFound);
        },
        Some(m) => m,
    };
    member.update_my_member(update_member_body);
    match registry.update(member, now) {
        Ok(updated) => Ok(UpdateResponse { status: String::from_str("success"), data: updated }),
        Err(e) => {
            proof {
                assert(false);
            }
            Err(e)
        },
    }
}

/// The deletion route: drop the record carrying `uuid`; dropping an
/// unknown id still reports success, as the store's delete does.
pub fn delete(registry: &mut MemberRegistry, uuid: u128) -> (r: Result<DeleteResponse, UserError>)
    requires
        old(registry).wf(),
    ensures
        final(registry).wf(),
        match r {
            Ok(resp) => {
                &&& resp.status@ == "success"@
                &&& (index_of_id_from(old(registry)@, uuid, 0) < old(registry)@.len() ==> final(registry)@ == old(registry)@.remove(index_of_id_from(old(registry)@, uuid, 0)))
                &&& (index_of_id_from(old(registry)@, uuid, 0) == old(registry)@.len() ==> final(registry)@ == old(registry)@)
            },
            Err(_) => false,
        },
{
    registry.delete(uuid);
    Ok(DeleteResponse { status: String::from_str("success") })
}

} // verus!
