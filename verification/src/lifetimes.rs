//! Books that borrow their titles, and an inventory that borrows its books.
use vstd::prelude::*;

verus! {

/// A book: a borrowed title and the text on its cover.
pub struct Book<'a> {
    pub title: &'a str,
    pub cover_text: String,
}

/// What can be read off a cover.
pub trait Cover {
    fn get_title(&self) -> &str;

    fn get_cover_text(&self) -> &str;
}

impl<'a> Cover for Book<'a> {
    fn get_title(&self) -> (r: &str)
        ensures
            r@ == self.title@,
    {
        self.title
    }

    fn get_cover_text(&self) -> (r: &str)
        ensures
            r@ == self.cover_text@,
    {
        self.cover_text.as_str()
    }
}

/// Books kept by reference.
pub struct Inventory<'a> {
    pub books: Vec<&'a Book<'a>>,
}

impl<'a> Inventory<'a> {
    /// Takes note of a book. The inventory keeps no reference to it: a book
    /// borrowed for less time than the inventory lives cannot be kept, so
    /// the books stay as they were.
    pub fn add_book(&mut self, book: &Book)
        ensures
            final(self).books@ == old(self).books@,
    {
    }

    /// The lines that list the books, one per book in order: "Title: "
    /// followed by the book's title.
    pub fn show_titles(&self) -> (lines: Vec<String>)
        ensures
            lines@.len() == self.books@.len(),
            forall|k: int|
                0 <= k < self.books@.len() ==> (#[trigger] lines@[k])@ == "Title: "@ + self.books@[k].title@,
    {
        let mut lines: Vec<String> = Vec::new();
        let mut k: usize = 0;
        while k < self.books.len()
            invariant
                k <= self.books@.len(),
                lines@.len() == k,
                forall|l: int| 0 <= l < k ==> (#[trigger] lines@[l])@ == "Title: "@ + self.books@[l].title@,
            decreases self.books@.len() - k,
        {
            let mut line = String::from_str("Title: ");
            line.append(self.books[k].get_title());
            lines.push(line);
            k = k + 1;
        }
        lines
    }
}

} // verus!
