//! The pets of an animal shelter, the rows they are stored as, and the lines
//! they are listed by.
use vstd::prelude::*;
use crate::text::{format_integer, signed_decimal};

verus! {

/// The kind of animal a pet is.
#[derive(Debug)]
pub struct Category {
    pub name: String,
}

/// A word that describes a pet.
#[derive(Debug)]
pub struct Tag {
    pub id: i64,
    pub name: String,
}

/// A pet: its number, name, kind and the words that describe it.
#[derive(Debug)]
pub struct Pet {
    pub id: i64,
    pub name: String,
    pub category: Category,
    pub tags: Vec<Tag>,
}

impl Pet {
    /// A pet with the given number and name, of no kind yet and with no tag.
    pub fn new(id: i64, name: String) -> (p: Self)
        ensures
            p.id == id,
            p.name@ == name@,
            p.category.name@ == Seq::<char>::empty(),
            p.tags@.len() == 0,
    {
        Pet { id, name, category: Category { name: String::new() }, tags: Vec::new() }
    }
}

/// `p` has number `id`, name `name`, kind `category`, and one tag for each of
/// `tags`, in order, each numbered `id`.
pub open spec fn describes(p: Pet, id: int, name: Seq<char>, category: Seq<char>, tags: Seq<Seq<char>>) -> bool {
    &&& p.id == id
    &&& p.name@ == name
    &&& p.category.name@ == category
    &&& p.tags@.len() == tags.len()
    &&& forall|k: int| 0 <= k < tags.len() ==> (#[trigger] p.tags@[k]).id == id && p.tags@[k].name@ == tags[k]
}

fn make_pet(id: i64, name: &str, category: &str, tag_names: Vec<&str>) -> (p: Pet)
    ensures
        describes(p, id as int, name@, category@, tag_names@.map_values(|t: &str| t@)),
{
    let mut tags: Vec<Tag> = Vec::new();
    let mut k: usize = 0;
    while k < tag_names.len()
        invariant
            k <= tag_names@.len(),
            tags@.len() == k,
            forall|l: int| 0 <= l < k ==> (#[trigger] tags@[l]).id == id && tags@[l].name@ == tag_names@[l]@,
        decreases tag_names@.len() - k,
    {
        tags.push(Tag { id, name: String::from_str(tag_names[k]) });
        k = k + 1;
    }
    let mut p = Pet::new(id, String::from_str(name));
    p.category.name = String::from_str(category);
    p.tags = tags;
    p
}

/// The pets a new shelter starts with: numbered 0, 1 and 2 in this order,
/// each tag numbered like its pet.
pub fn get_default_pets() -> (pets: Vec<Pet>)
    ensures
        pets@.len() == 3,
        describes(pets@[0], 0, "Alex"@, "Hund"@, seq!["klein"@, "zutraulich"@]),
        describes(
            pets@[1],
            1,
            "Sydney"@,
            "Katze"@,
            seq!["mopsig"@, "zutraulich"@, "Hinterhältig"@],
        ),
        describes(pets@[2], 2, "Stewie"@, "Meerschwein"@, seq!["ruhig"@, "kinderscheu"@]),
{
    let alex = make_pet(0, "Alex", "Hund", vec!["klein", "zutraulich"]);
    let sydney = make_pet(1, "Sydney", "Katze", vec!["mopsig", "zutraulich", "Hinterhältig"]);
    let stewie = make_pet(2, "Stewie", "Meerschwein", vec!["ruhig", "kinderscheu"]);
    let mut pets: Vec<Pet> = Vec::new();
    pets.push(alex);
    pets.push(sydney);
    pets.push(stewie);
    pets
}


/// The pet a row of the pets table stands for: its number, name and kind,
/// with no tag.
pub fn pet_from_row(id: i64, name: String, category: String) -> (p: Pet)
    ensures
        describes(p, id as int, name@, category@, Seq::empty()),
{
    let mut p = Pet::new(id, name);
    p.category.name = category;
    p
}

/// The values a pet is stored as in the pets table: number, name and kind.
pub fn pet_row(p: &Pet) -> (r: (i64, String, String))
    ensures
        r.0 == p.id,
        r.1@ == p.name@,
        r.2@ == p.category.name@,
{
    (p.id, p.name.clone(), p.category.name.clone())
}

/// The rows a pet's tags are stored as in the tags table: the pet's number
/// and the tag's name, one row per tag, in order.
pub fn tag_rows(p: &Pet) -> (rows: Vec<(i64, String)>)
    ensures
        rows@.len() == p.tags@.len(),
        forall|k: int| 0 <= k < p.tags@.len() ==> (#[trigger] rows@[k]).0 == p.id && rows@[k].1@ == p.tags@[k].name@,
{
    let mut rows: Vec<(i64, String)> = Vec::new();
    let mut k: usize = 0;
    while k < p.tags.len()
        invariant
            k <= p.tags@.len(),
            rows@.len() == k,
            forall|l: int| 0 <= l < k ==> (#[trigger] rows@[l]).0 == p.id && rows@[l].1@ == p.tags@[l].name@,
        decreases p.tags@.len() - k,
    {
        rows.push((p.id, p.tags[k].name.clone()));
        k = k + 1;
    }
    rows
}

/// The line that lists a pet with its kind.
pub fn pet_line(p: &Pet) -> (s: String)
    ensures
        s@ == "ID: "@ + signed_decimal(p.id as int) + ", Name: "@ + p.name@ + ", Category: "@
            + p.category.name@,
{
    let mut s = String::from_str("ID: ");
    let id = format_integer(p.id);
    s.append(id.as_str());
    s.append(", Name: ");
    s.append(p.name.as_str());
    s.append(", Category: ");
    s.append(p.category.name.as_str());
    s
}

/// The line that lists a pet found by one of its tags.
pub fn tagged_pet_line(id: i64, p: &Pet, tag: &str) -> (s: String)
    ensures
        s@ == "ID: "@ + signed_decimal(id as int) + ", Name: "@ + p.name@ + ", Tag: "@ + tag@,
{
    let mut s = String::from_str("ID: ");
    let number = format_integer(id);
    s.append(number.as_str());
    s.append(", Name: ");
    s.append(p.name.as_str());
    s.append(", Tag: ");
    s.append(tag);
    s
}

} // verus!
