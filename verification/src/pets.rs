//! The pets of the shop screen, and the form the screen shows one in.
use vstd::prelude::*;

verus! {

/// A pet as the shop table stores it: a key and a name.
pub struct Pet {
    pub id: String,
    pub name: String,
}

impl Pet {
    /// A pet with no key and no name yet; the database gives it a key when
    /// it is stored.
    pub fn new() -> (p: Self)
        ensures
            p.id@ == Seq::<char>::empty(),
            p.name@ == Seq::<char>::empty(),
    {
        Pet { id: String::new(), name: String::new() }
    }
}

impl Default for Pet {
    fn default() -> (p: Self)
        ensures
            p.id@ == Seq::<char>::empty(),
            p.name@ == Seq::<char>::empty(),
    {
        Pet::new()
    }
}

/// The pet shown on screen: its key and its name.
pub struct PetUi {
    pub id: String,
    pub name: String,
}

impl From<Pet> for PetUi {
    fn from(value: Pet) -> (r: Self)
        ensures
            r.id@ == value.id@,
            r.name@ == value.name@,
    {
        PetUi { id: value.id, name: value.name }
    }
}

impl vstd::std_specs::convert::FromSpecImpl<Pet> for PetUi {
    open spec fn obeys_from_spec() -> bool {
        true
    }

    open spec fn from_spec(v: Pet) -> PetUi {
        PetUi { id: v.id, name: v.name }
    }
}


/// The screen form keeps the pet's key and name in place: the form made from
/// a pet shows that pet's key as its key and that pet's name as its name.
pub proof fn lemma_form_keeps_key_and_name(p: Pet)
    ensures
        <PetUi as vstd::std_specs::convert::FromSpec<Pet>>::obeys_from_spec(),
        <PetUi as vstd::std_specs::convert::FromSpec<Pet>>::from_spec(p).id@ == p.id@,
        <PetUi as vstd::std_specs::convert::FromSpec<Pet>>::from_spec(p).name@ == p.name@,
{
}

} // verus!
