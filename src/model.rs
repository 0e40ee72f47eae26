use vstd::prelude::*;

verus! {

/// A row of the `authors` table.
pub struct Author {
    pub id: i32,
    /// The caller that created the row; never changed afterwards.
    pub user_id: u32,
    pub firstname: String,
    pub lastname: String,
    pub bio: String,
    /// Store clock value at insertion.
    pub created_at: u64,
    /// Store clock value at the last write of the row.
    pub updated_at: u64,
}

/// A row of the `books` table.
pub struct Book {
    pub id: i32,
    /// The caller that created the row; never changed afterwards.
    pub user_id: u32,
    /// The author the book belongs to.
    pub author_id: i32,
    pub title: String,
    pub year: Option<i32>,
    pub cover: Option<String>,
    pub created_at: u64,
    pub updated_at: u64,
}

/// The mutable fields of an author, as a request carries them.
pub struct ReqAuthor {
    pub firstname: String,
    pub lastname: String,
    pub bio: String,
}

/// The mutable fields of a book, as a request carries them.
pub struct ReqBook {
    pub author_id: i32,
    pub title: String,
    pub cover: Option<String>,
    pub year: Option<i32>,
}

/// An author as a response shows it.
pub struct ResAuthor {
    pub id: i32,
    pub firstname: String,
    pub lastname: String,
    pub bio: String,
}

/// A listing of authors with its count.
pub struct ResAuthorList {
    pub total: usize,
    pub authors: Vec<ResAuthor>,
}

/// A book as a response shows it.
pub struct ResBook {
    pub id: i32,
    pub title: String,
    pub year: Option<i32>,
    pub cover: Option<String>,
    pub author_id: i32,
}

/// A listing of books with its count.
pub struct RespBookList {
    pub total: usize,
    pub books: Vec<ResBook>,
}

pub open spec fn res_author(a: Author) -> ResAuthor {
    ResAuthor { id: a.id, firstname: a.firstname, lastname: a.lastname, bio: a.bio }
}

pub open spec fn res_book(b: Book) -> ResBook {
    ResBook { id: b.id, title: b.title, year: b.year, cover: b.cover, author_id: b.author_id }
}

pub fn copy_opt_string(s: &Option<String>) -> (r: Option<String>)
    ensures
        r == *s,
{
    match s {
        Some(t) => Some(t.clone()),
        None => None,
    }
}

impl Author {
    /// A field-for-field copy of the row.
    pub fn duplicate(&self) -> (r: Author)
        ensures
            r == *self,
    {
        Author {
            id: self.id,
            user_id: self.user_id,
            firstname: self.firstname.clone(),
            lastname: self.lastname.clone(),
            bio: self.bio.clone(),
            created_at: self.created_at,
            updated_at: self.updated_at,
        }
    }
}

impl Book {
    /// A field-for-field copy of the row.
    pub fn duplicate(&self) -> (r: Book)
        ensures
            r == *self,
    {
        Book {
            id: self.id,
            user_id: self.user_id,
            author_id: self.author_id,
            title: self.title.clone(),
            year: self.year,
            cover: copy_opt_string(&self.cover),
            created_at: self.created_at,
            updated_at: self.updated_at,
        }
    }
}

impl<'a> From<&'a Author> for ResAuthor {
    fn from(a: &'a Author) -> (r: ResAuthor) {
        ResAuthor {
            id: a.id,
            firstname: a.firstname.clone(),
            lastname: a.lastname.clone(),
            bio: a.bio.clone(),
        }
    }
}

impl<'a> vstd::std_specs::convert::FromSpecImpl<&'a Author> for ResAuthor {
    open spec fn obeys_from_spec() -> bool {
        true
    }

    open spec fn from_spec(a: &'a Author) -> ResAuthor {
        res_author(*a)
    }
}

impl<'a> From<&'a Book> for ResBook {
    fn from(b: &'a Book) -> (r: ResBook) {
        ResBook {
            id: b.id,
            title: b.title.clone(),
            year: b.year,
            cover: copy_opt_string(&b.cover),
            author_id: b.author_id,
        }
    }
}

impl<'a> vstd::std_specs::convert::FromSpecImpl<&'a Book> for ResBook {
    open spec fn obeys_from_spec() -> bool {
        true
    }

    open spec fn from_spec(b: &'a Book) -> ResBook {
        res_book(*b)
    }
}

} // verus!
