use slintext::lifetimes::{Book, Cover, Inventory};
use slintext::pet::{get_default_pets, pet_from_row, pet_line, pet_row, tag_rows, tagged_pet_line, Pet};
use slintext::pets::{Pet as ShopPet, PetUi};

#[test]
fn default_pets() {
    let pets = get_default_pets();
    assert_eq!(pets.len(), 3);
    let names: Vec<&str> = pets.iter().map(|p| p.name.as_str()).collect();
    assert_eq!(names, vec!["Alex", "Sydney", "Stewie"]);
    let kinds: Vec<&str> = pets.iter().map(|p| p.category.name.as_str()).collect();
    assert_eq!(kinds, vec!["Hund", "Katze", "Meerschwein"]);
    for (i, p) in pets.iter().enumerate() {
        assert_eq!(p.id, i as i64);
        assert!(p.tags.iter().all(|t| t.id == p.id));
    }
    let tags: Vec<&str> = pets[1].tags.iter().map(|t| t.name.as_str()).collect();
    assert_eq!(tags, vec!["mopsig", "zutraulich", "Hinterhältig"]);
    assert_eq!(pets[0].tags.len(), 2);
    assert_eq!(pets[2].tags[1].name, "kinderscheu");
}

#[test]
fn new_pet_has_no_kind_and_no_tag() {
    let p = Pet::new(5, "Rex".to_string());
    assert_eq!(p.id, 5);
    assert_eq!(p.name, "Rex");
    assert_eq!(p.category.name, "");
    assert!(p.tags.is_empty());
}

#[test]
fn pet_lines() {
    let pets = get_default_pets();
    assert_eq!(pet_line(&pets[1]), "ID: 1, Name: Sydney, Category: Katze");
    let p = pet_from_row(-12, "Tom".to_string(), "Kater".to_string());
    assert_eq!(pet_line(&p), "ID: -12, Name: Tom, Category: Kater");
    assert_eq!(tagged_pet_line(0, &pets[0], "zutraulich"), "ID: 0, Name: Alex, Tag: zutraulich");
}

#[test]
fn pet_rows() {
    let pets = get_default_pets();
    assert_eq!(pet_row(&pets[2]), (2, "Stewie".to_string(), "Meerschwein".to_string()));
    assert_eq!(
        tag_rows(&pets[0]),
        vec![(0, "klein".to_string()), (0, "zutraulich".to_string())]
    );
}

#[test]
fn shop_pet_shown_on_screen() {
    let mut p = ShopPet::new();
    assert_eq!(p.id, "");
    p.id = "4f1c".to_string();
    p.name = "Bello".to_string();
    let ui = PetUi::from(p);
    assert_eq!(ui.id, "4f1c");
    assert_eq!(ui.name, "Bello");
    let d = ShopPet::default();
    assert_eq!(d.name, "");
}

#[test]
fn books_and_inventory() {
    let book1 = Book { title: "The Lord of the Rings", cover_text: String::from("The Fellowship of the Ring") };
    let book2 = Book { title: "Dr. Who", cover_text: String::from("The Doctor") };
    assert_eq!(book1.get_title(), "The Lord of the Rings");
    assert_eq!(book2.get_cover_text(), "The Doctor");
    let mut inventory = Inventory { books: vec![&book2] };
    inventory.add_book(&book1);
    assert_eq!(inventory.books.len(), 1);
    assert_eq!(inventory.show_titles(), vec!["Title: Dr. Who".to_string()]);
    let empty = Inventory { books: Vec::new() };
    assert!(empty.show_titles().is_empty());
}
