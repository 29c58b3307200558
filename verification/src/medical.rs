//! Medical-society records and the listing route's logic.

use vstd::prelude::*;

verus! {

/// A medical society on record. Timestamps are in seconds since the
/// unix epoch.
#[derive(Debug)]
pub struct MedicalSociety {
    pub id: u128,
    pub name: String,
    pub emergency_phone: String,
    pub created_at: u64,
    pub updated_at: u64,
}

/// The mathematical content of a medical-society record.
pub struct MedicalSocietyView {
    pub id: u128,
    pub name: Seq<char>,
    pub emergency_phone: Seq<char>,
    pub created_at: u64,
    pub updated_at: u64,
}

impl View for MedicalSociety {
    type V = MedicalSocietyView;

    open spec fn view(&self) -> MedicalSocietyView {
        MedicalSocietyView {
            id: self.id,
            name: self.name@,
            emergency_phone: self.emergency_phone@,
            created_at: self.created_at,
            updated_at: self.updated_at,
        }
    }
}

impl Clone for MedicalSociety {
    fn clone(&self) -> (r: MedicalSociety)
        ensures
            r@ == self@,
    {
        MedicalSociety {
            id: self.id,
            name: self.name.clone(),
            emergency_phone: self.emergency_phone.clone(),
            created_at: self.created_at,
            updated_at: self.updated_at,
        }
    }
}

/// What can go wrong on the medical-society routes.
#[derive(Debug, PartialEq, Eq)]
pub enum MedicalSocietiesError {
    NotFound,
    InternalServerError(String),
}

impl MedicalSocietiesError {
    pub open spec fn spec_status(self) -> u16 {
        match self {
            MedicalSocietiesError::NotFound => 404,
            MedicalSocietiesError::InternalServerError(_) => 500,
        }
    }

    pub open spec fn spec_message(self) -> Seq<char> {
        match self {
            MedicalSocietiesError::NotFound => "Medical Societies not found"@,
            MedicalSocietiesError::InternalServerError(e) => e@,
        }
    }

    pub fn status_code(&self) -> (r: u16)
        ensures
            r == self.spec_status(),
    {
        match self {
            MedicalSocietiesError::NotFound => 404,
            MedicalSocietiesError::InternalServerError(_) => 500,
        }
    }

    pub fn message(&self) -> (r: String)
        ensures
            r@ == self.spec_message(),
    {
        match self {
            MedicalSocietiesError::NotFound => String::from_str("Medical Societies not found"),
            MedicalSocietiesError::InternalServerError(e) => e.clone(),
        }
    }
}

/// The listing route's success payload.
pub struct MedicalSocietiesResponse {
    pub status: String,
    pub data: Vec<MedicalSociety>,
}

/// The societies on record, in order of entry.
pub struct MedicalSocietyRegistry {
    items: Vec<MedicalSociety>,
}

impl View for MedicalSocietyRegistry {
    type V = Seq<MedicalSocietyView>;

    closed spec fn view(&self) -> Seq<MedicalSocietyView> {
        Seq::new(self.items@.len(), |i: int| self.items@[i]@)
    }
}

impl MedicalSocietyRegistry {
    /// An empty registry.
    pub fn new() -> (r: MedicalSocietyRegistry)
        ensures
            r@ == Seq::<MedicalSocietyView>::empty(),
    {
        let r = MedicalSocietyRegistry { items: Vec::new() };
        proof {
            assert(r@ =~= Seq::<MedicalSocietyView>::empty());
        }
        r
    }

    /// Enter a society into the registry.
    pub fn add(&mut self, society: MedicalSociety)
        ensures
            final(self)@ == old(self)@.push(society@),
    {
        self.items.push(society);
        proof {
            assert(self@ =~= old(self)@.push(self@.last()));
        }
    }

    /// A copy of every record, in order.
    pub fn find_all(&self) -> (r: Vec<MedicalSociety>)
        ensures
            r@.len() == self@.len(),
            forall|i: int| 0 <= i < r@.len() ==> r@[i]@ == self@[i],
    {
        let mut out: Vec<MedicalSociety> = Vec::new();
        let mut i: usize = 0;
        while i < self.items.len()
            invariant
                i <= self.items.len(),
                self@.len() == self.items@.len(),
                out@.len() == i,
                forall|j: int| 0 <= j < i ==> out@[j]@ == self@[j],
            decreases self.items.len() - i,
        {
            out.push(self.items[i].clone());
            i = i + 1;
        }
        out
    }
}

/// The listing route: every society on record, under a success status.
pub fn get_medical_societies(registry: &MedicalSocietyRegistry) -> (r: Result<
    MedicalSocietiesResponse,
    MedicalSocietiesError,
>)
    ensures
        match r {
            Ok(resp) => {
                &&& resp.status@ == "success"@
                &&& resp.data@.len() == registry@.len()
                &&& forall|i: int| 0 <= i < resp.data@.len() ==> resp.data@[i]@ == registry@[i]
            },
            Err(_) => false,
        },
{
    let data = registry.find_all();
    Ok(MedicalSocietiesResponse { status: String::from_str("success"), data: data })
}

} // verus!
