use vstd::prelude::*;

use crate::model::{Author, Book, ReqAuthor, ReqBook};

verus! {

/// Why a store operation failed.
#[derive(PartialEq, Eq, Structural, Clone, Copy, Debug)]
pub enum StoreError {
    /// No row has the requested id.
    NotFound,
    /// A book's author reference names no existing author.
    ConstraintViolation,
    /// The id sequence or the store clock has no value left.
    Exhausted,
}

/// The abstract state of the store: both tables, each ordered by most
/// recent write first, the next ids to hand out, and the store clock, which
/// advances by one on every write and stamps the rows it writes.
pub struct StoreView {
    pub authors: Seq<Author>,
    pub books: Seq<Book>,
    pub next_author_id: int,
    pub next_book_id: int,
    pub clock: int,
}

pub open spec fn has_author(a: Seq<Author>, id: i32) -> bool {
    exists|i: int| 0 <= i < a.len() && a[i].id == id
}

pub open spec fn author_pos(a: Seq<Author>, id: i32) -> int {
    choose|i: int| 0 <= i < a.len() && a[i].id == id
}

pub open spec fn has_book(b: Seq<Book>, id: i32) -> bool {
    exists|i: int| 0 <= i < b.len() && b[i].id == id
}

pub open spec fn book_pos(b: Seq<Book>, id: i32) -> int {
    choose|i: int| 0 <= i < b.len() && b[i].id == id
}

/// Ids unique, below the next id, stamps at most the clock, and the rows in
/// non-increasing order of their last write.
pub open spec fn authors_wf(a: Seq<Author>, next: int, clock: int) -> bool {
    &&& forall|i: int, j: int| 0 <= i < a.len() && 0 <= j < a.len() && i != j ==> a[i].id != a[j].id
    &&& forall|i: int| 0 <= i < a.len() ==> 1 <= #[trigger] a[i].id < next && a[i].updated_at <= clock
    &&& forall|i: int, j: int|
        0 <= i <= j < a.len() ==> #[trigger] a[j].updated_at <= #[trigger] a[i].updated_at
}

pub open spec fn books_wf(b: Seq<Book>, next: int, clock: int) -> bool {
    &&& forall|i: int, j: int| 0 <= i < b.len() && 0 <= j < b.len() && i != j ==> b[i].id != b[j].id
    &&& forall|i: int| 0 <= i < b.len() ==> 1 <= #[trigger] b[i].id < next && b[i].updated_at <= clock
    &&& forall|i: int, j: int|
        0 <= i <= j < b.len() ==> #[trigger] b[j].updated_at <= #[trigger] b[i].updated_at
}

pub open spec fn wf_state(s: StoreView) -> bool {
    &&& 1 <= s.next_author_id <= i32::MAX
    &&& 1 <= s.next_book_id <= i32::MAX
    &&& 0 <= s.clock <= u64::MAX
    &&& authors_wf(s.authors, s.next_author_id, s.clock)
    &&& books_wf(s.books, s.next_book_id, s.clock)
}

pub open spec fn author_row(s: StoreView, id: i32) -> Author {
    s.authors[author_pos(s.authors, id)]
}

pub open spec fn book_row(s: StoreView, id: i32) -> Book {
    s.books[book_pos(s.books, id)]
}

/// The store can take one more write.
pub open spec fn clock_left(s: StoreView) -> bool {
    s.clock < u64::MAX
}

pub open spec fn author_id_left(s: StoreView) -> bool {
    s.next_author_id < i32::MAX
}

pub open spec fn book_id_left(s: StoreView) -> bool {
    s.next_book_id < i32::MAX
}

pub open spec fn new_author(s: StoreView, owner: u32, req: ReqAuthor) -> Author {
    Author {
        id: s.next_author_id as i32,
        user_id: owner,
        firstname: req.firstname,
        lastname: req.lastname,
        bio: req.bio,
        created_at: (s.clock + 1) as u64,
        updated_at: (s.clock + 1) as u64,
    }
}

pub open spec fn after_insert_author(s: StoreView, owner: u32, req: ReqAuthor) -> StoreView {
    StoreView {
        authors: seq![new_author(s, owner, req)] + s.authors,
        books: s.books,
        next_author_id: s.next_author_id + 1,
        next_book_id: s.next_book_id,
        clock: s.clock + 1,
    }
}

/// The row keyed `id` with its mutable fields overwritten and its stamp refreshed.
pub open spec fn updated_author(s: StoreView, id: i32, req: ReqAuthor) -> Author {
    let old_row = author_row(s, id);
    Author {
        id: old_row.id,
        user_id: old_row.user_id,
        firstname: req.firstname,
        lastname: req.lastname,
        bio: req.bio,
        created_at: old_row.created_at,
        updated_at: (s.clock + 1) as u64,
    }
}

pub open spec fn after_update_author(s: StoreView, id: i32, req: ReqAuthor) -> StoreView {
    StoreView {
        authors: seq![updated_author(s, id, req)] + s.authors.remove(author_pos(s.authors, id)),
        books: s.books,
        next_author_id: s.next_author_id,
        next_book_id: s.next_book_id,
        clock: s.clock + 1,
    }
}

/// Deleting an author leaves its books in place, their author reference
/// dangling: no cascade, and no refusal.
pub open spec fn after_delete_author(s: StoreView, id: i32) -> StoreView {
    StoreView {
        authors: s.authors.remove(author_pos(s.authors, id)),
        books: s.books,
        next_author_id: s.next_author_id,
        next_book_id: s.next_book_id,
        clock: s.clock,
    }
}

pub open spec fn new_book(s: StoreView, owner: u32, req: ReqBook) -> Book {
    Book {
        id: s.next_book_id as i32,
        user_id: owner,
        author_id: req.author_id,
        title: req.title,
        year: req.year,
        cover: req.cover,
        created_at: (s.clock + 1) as u64,
        updated_at: (s.clock + 1) as u64,
    }
}

pub open spec fn after_insert_book(s: StoreView, owner: u32, req: ReqBook) -> StoreView {
    StoreView {
        authors: s.authors,
        books: seq![new_book(s, owner, req)] + s.books,
        next_author_id: s.next_author_id,
        next_book_id: s.next_book_id + 1,
        clock: s.clock + 1,
    }
}

pub open spec fn updated_book(s: StoreView, id: i32, req: ReqBook) -> Book {
    let old_row = book_row(s, id);
    Book {
        id: old_row.id,
        user_id: old_row.user_id,
        author_id: req.author_id,
        title: req.title,
        year: req.year,
        cover: req.cover,
        created_at: old_row.created_at,
        updated_at: (s.clock + 1) as u64,
    }
}

pub open spec fn after_update_book(s: StoreView, id: i32, req: ReqBook) -> StoreView {
    StoreView {
        authors: s.authors,
        books: seq![updated_book(s, id, req)] + s.books.remove(book_pos(s.books, id)),
        next_author_id: s.next_author_id,
        next_book_id: s.next_book_id,
        clock: s.clock + 1,
    }
}

pub open spec fn after_delete_book(s: StoreView, id: i32) -> StoreView {
    StoreView {
        authors: s.authors,
        books: s.books.remove(book_pos(s.books, id)),
        next_author_id: s.next_author_id,
        next_book_id: s.next_book_id,
        clock: s.clock,
    }
}

/// The books whose author reference is `author_id`, in table order.
pub open spec fn related_books(b: Seq<Book>, author_id: i32) -> Seq<Book> {
    b.filter(by_author(author_id))
}

pub open spec fn by_author(author_id: i32) -> spec_fn(Book) -> bool {
    |x: Book| x.author_id == author_id
}

pub(crate) proof fn lemma_author_pos(a: Seq<Author>, next: int, clock: int, id: i32, i: int)
    requires
        authors_wf(a, next, clock),
        0 <= i < a.len(),
        a[i].id == id,
    ensures
        has_author(a, id),
        author_pos(a, id) == i,
{
    let p = author_pos(a, id);
    assert(0 <= p < a.len() && a[p].id == id);
}

pub(crate) proof fn lemma_book_pos(b: Seq<Book>, next: int, clock: int, id: i32, i: int)
    requires
        books_wf(b, next, clock),
        0 <= i < b.len(),
        b[i].id == id,
    ensures
        has_book(b, id),
        book_pos(b, id) == i,
{
    let p = book_pos(b, id);
    assert(0 <= p < b.len() && b[p].id == id);
}

pub(crate) proof fn lemma_authors_remove(a: Seq<Author>, next: int, clock: int, i: int)
    requires
        authors_wf(a, next, clock),
        0 <= i < a.len(),
    ensures
        authors_wf(a.remove(i), next, clock),
        !has_author(a.remove(i), a[i].id),
{
    let r = a.remove(i);
    assert forall|k: int| 0 <= k < r.len() implies r[k] == a[if k < i { k } else { k + 1 }] by {}
    if has_author(r, a[i].id) {
        let k = choose|k: int| 0 <= k < r.len() && r[k].id == a[i].id;
        assert(r[k] == a[if k < i { k } else { k + 1 }]);
    }
}

pub(crate) proof fn lemma_books_remove(b: Seq<Book>, next: int, clock: int, i: int)
    requires
        books_wf(b, next, clock),
        0 <= i < b.len(),
    ensures
        books_wf(b.remove(i), next, clock),
        !has_book(b.remove(i), b[i].id),
{
    let r = b.remove(i);
    assert forall|k: int| 0 <= k < r.len() implies r[k] == b[if k < i { k } else { k + 1 }] by {}
    if has_book(r, b[i].id) {
        let k = choose|k: int| 0 <= k < r.len() && r[k].id == b[i].id;
        assert(r[k] == b[if k < i { k } else { k + 1 }]);
    }
}

pub(crate) proof fn lemma_authors_prepend(a: Seq<Author>, next: int, clock: int, x: Author, next2: int)
    requires
        authors_wf(a, next, clock),
        next <= next2,
        1 <= x.id < next2,
        !has_author(a, x.id),
        x.updated_at == clock + 1,
    ensures
        authors_wf(seq![x] + a, next2, clock + 1),
{
    let r = seq![x] + a;
    assert forall|k: int| 0 < k < r.len() implies r[k] == a[k - 1] by {}
    assert forall|i: int, j: int| 0 <= i < r.len() && 0 <= j < r.len() && i != j implies r[i].id
        != r[j].id by {
        if i == 0 {
            assert(r[j] == a[j - 1]);
        } else if j == 0 {
            assert(r[i] == a[i - 1]);
        }
    }
}

pub(crate) proof fn lemma_books_prepend(b: Seq<Book>, next: int, clock: int, x: Book, next2: int)
    requires
        books_wf(b, next, clock),
        next <= next2,
        1 <= x.id < next2,
        !has_book(b, x.id),
        x.updated_at == clock + 1,
    ensures
        books_wf(seq![x] + b, next2, clock + 1),
{
    let r = seq![x] + b;
    assert forall|k: int| 0 < k < r.len() implies r[k] == b[k - 1] by {}
    assert forall|i: int, j: int| 0 <= i < r.len() && 0 <= j < r.len() && i != j implies r[i].id
        != r[j].id by {
        if i == 0 {
            assert(r[j] == b[j - 1]);
        } else if j == 0 {
            assert(r[i] == b[i - 1]);
        }
    }
}

/// The two tables, held in memory, ordered by most recent write first.
pub struct Store {
    authors: Vec<Author>,
    books: Vec<Book>,
    next_author_id: i32,
    next_book_id: i32,
    clock: u64,
}

impl View for Store {
    type V = StoreView;

    closed spec fn view(&self) -> StoreView {
        StoreView {
            authors: self.authors@,
            books: self.books@,
            next_author_id: self.next_author_id as int,
            next_book_id: self.next_book_id as int,
            clock: self.clock as int,
        }
    }
}

impl Store {
    pub open spec fn wf(&self) -> bool {
        wf_state(self@)
    }

    /// An empty store: no rows, ids from 1, the clock at 0.
    pub fn new() -> (r: Store)
        ensures
            r.wf(),
            r@.authors.len() == 0,
            r@.books.len() == 0,
            r@.next_author_id == 1,
            r@.next_book_id == 1,
            r@.clock == 0,
    {
        Store { authors: Vec::new(), books: Vec::new(), next_author_id: 1, next_book_id: 1, clock: 0 }
    }

    /// The authors, most recently written first.
    pub fn authors(&self) -> (r: &Vec<Author>)
        ensures
            r@ == self@.authors,
    {
        &self.authors
    }

    /// The books, most recently written first.
    pub fn books(&self) -> (r: &Vec<Book>)
        ensures
            r@ == self@.books,
    {
        &self.books
    }

    fn author_index(&self, id: i32) -> (r: Option<usize>)
        requires
            self.wf(),
        ensures
            match r {
                Some(i) => has_author(self@.authors, id) && i as int == author_pos(self@.authors, id),
                None => !has_author(self@.authors, id),
            },
    {
        let mut i: usize = 0;
        while i < self.authors.len()
            invariant
                0 <= i <= self.authors@.len(),
                self.wf(),
                forall|k: int| 0 <= k < i ==> self.authors@[k].id != id,
            decreases self.authors@.len() - i,
        {
            if self.authors[i].id == id {
                proof {
                    lemma_author_pos(self@.authors, self@.next_author_id, self@.clock, id, i as int);
                }
                return Some(i);
            }
            i += 1;
        }
        None
    }

    fn book_index(&self, id: i32) -> (r: Option<usize>)
        requires
            self.wf(),
        ensures
            match r {
                Some(i) => has_book(self@.books, id) && i as int == book_pos(self@.books, id),
                None => !has_book(self@.books, id),
            },
    {
        let mut i: usize = 0;
        while i < self.books.len()
            invariant
                0 <= i <= self.books@.len(),
                self.wf(),
                forall|k: int| 0 <= k < i ==> self.books@[k].id != id,
            decreases self.books@.len() - i,
        {
            if self.books[i].id == id {
                proof {
                    lemma_book_pos(self@.books, self@.next_book_id, self@.clock, id, i as int);
                }
                return Some(i);
            }
            i += 1;
        }
        None
    }

    /// Looks an author up by primary key.
    pub fn find_author(&self, id: i32) -> (r: Option<&Author>)
        requires
            self.wf(),
        ensures
            has_author(self@.authors, id) ==> r == Some(&author_row(self@, id)),
            !has_author(self@.authors, id) ==> r is None,
    {
        match self.author_index(id) {
            Some(i) => Some(&self.authors[i]),
            None => None,
        }
    }

    /// Looks a book up by primary key.
    pub fn find_book(&self, id: i32) -> (r: Option<&Book>)
        requires
            self.wf(),
        ensures
            has_book(self@.books, id) ==> r == Some(&book_row(self@, id)),
            !has_book(self@.books, id) ==> r is None,
    {
        match self.book_index(id) {
            Some(i) => Some(&self.books[i]),
            None => None,
        }
    }

    /// Inserts an author owned by `owner`, with the next id and a fresh stamp.
    pub fn insert_author(&mut self, owner: u32, req: ReqAuthor) -> (r: Result<Author, StoreError>)
        requires
            old(self).wf(),
        ensures
            final(self).wf(),
            author_id_left(old(self)@) && clock_left(old(self)@) ==> r == Ok::<Author, StoreError>(
                new_author(old(self)@, owner, req),
            ) && final(self)@ == after_insert_author(old(self)@, owner, req),
            !(author_id_left(old(self)@) && clock_left(old(self)@)) ==> r == Err::<
                Author,
                StoreError,
            >(StoreError::Exhausted) && final(self)@ == old(self)@,
    {
        if self.next_author_id == i32::MAX || self.clock == u64::MAX {
            return Err(StoreError::Exhausted);
        }
        let stamp = self.clock + 1;
        let row = Author {
            id: self.next_author_id,
            user_id: owner,
            firstname: req.firstname,
            lastname: req.lastname,
            bio: req.bio,
            created_at: stamp,
            updated_at: stamp,
        };
        let out = row.duplicate();
        proof {
            if has_author(self@.authors, row.id) {
                let k = choose|k: int| 0 <= k < self@.authors.len() && self@.authors[k].id == row.id;
                assert(self@.authors[k].id < self@.next_author_id);
            }
            lemma_authors_prepend(self@.authors, self@.next_author_id, self@.clock, row, self@.next_author_id + 1);
        }
        let ghost before = self.authors@;
        self.authors.insert(0, row);
        assert(self.authors@ =~= seq![out] + before);
        self.next_author_id = self.next_author_id + 1;
        self.clock = stamp;
        Ok(out)
    }

    /// Overwrites the mutable fields of the author keyed `id` and refreshes its stamp.
    pub fn update_author(&mut self, id: i32, req: ReqAuthor) -> (r: Result<Author, StoreError>)
        requires
            old(self).wf(),
        ensures
            final(self).wf(),
            !has_author(old(self)@.authors, id) ==> r == Err::<Author, StoreError>(
                StoreError::NotFound,
            ) && final(self)@ == old(self)@,
            has_author(old(self)@.authors, id) && !clock_left(old(self)@) ==> r == Err::<
                Author,
                StoreError,
            >(StoreError::Exhausted) && final(self)@ == old(self)@,
            has_author(old(self)@.authors, id) && clock_left(old(self)@) ==> r == Ok::<
                Author,
                StoreError,
            >(updated_author(old(self)@, id, req)) && final(self)@ == after_update_author(
                old(self)@,
                id,
                req,
            ),
    {
        let i = match self.author_index(id) {
            Some(i) => i,
            None => return Err(StoreError::NotFound),
        };
        if self.clock == u64::MAX {
            return Err(StoreError::Exhausted);
        }
        let stamp = self.clock + 1;
        proof {
            lemma_authors_remove(self@.authors, self@.next_author_id, self@.clock, i as int);
        }
        let old_row = self.authors.remove(i);
        let row = Author {
            id: old_row.id,
            user_id: old_row.user_id,
            firstname: req.firstname,
            lastname: req.lastname,
            bio: req.bio,
            created_at: old_row.created_at,
            updated_at: stamp,
        };
        let out = row.duplicate();
        proof {
            lemma_authors_prepend(self@.authors, self@.next_author_id, self@.clock, row, self@.next_author_id);
        }
        let ghost before = self.authors@;
        self.authors.insert(0, row);
        assert(self.authors@ =~= seq![out] + before);
        self.clock = stamp;
        Ok(out)
    }

    /// Removes the author keyed `id`; its books stay as they are.
    pub fn delete_author(&mut self, id: i32) -> (r: Result<(), StoreError>)
        requires
            old(self).wf(),
        ensures
            final(self).wf(),
            !has_author(old(self)@.authors, id) ==> r == Err::<(), StoreError>(StoreError::NotFound)
                && final(self)@ == old(self)@,
            has_author(old(self)@.authors, id) ==> r == Ok::<(), StoreError>(()) && final(self)@
                == after_delete_author(old(self)@, id),
    {
        let i = match self.author_index(id) {
            Some(i) => i,
            None => return Err(StoreError::NotFound),
        };
        proof {
            lemma_authors_remove(self@.authors, self@.next_author_id, self@.clock, i as int);
        }
        self.authors.remove(i);
        Ok(())
    }

    /// Inserts a book owned by `owner`; its author reference must name an
    /// existing author.
    pub fn insert_book(&mut self, owner: u32, req: ReqBook) -> (r: Result<Book, StoreError>)
        requires
            old(self).wf(),
        ensures
            final(self).wf(),
            !has_author(old(self)@.authors, req.author_id) ==> r == Err::<Book, StoreError>(
                StoreError::ConstraintViolation,
            ) && final(self)@ == old(self)@,
            has_author(old(self)@.authors, req.author_id) && !(book_id_left(old(self)@)
                && clock_left(old(self)@)) ==> r == Err::<Book, StoreError>(StoreError::Exhausted)
                && final(self)@ == old(self)@,
            has_author(old(self)@.authors, req.author_id) && book_id_left(old(self)@)
                && clock_left(old(self)@) ==> r == Ok::<Book, StoreError>(
                new_book(old(self)@, owner, req),
            ) && final(self)@ == after_insert_book(old(self)@, owner, req),
    {
        if self.author_index(req.author_id).is_none() {
            return Err(StoreError::ConstraintViolation);
        }
        if self.next_book_id == i32::MAX || self.clock == u64::MAX {
            return Err(StoreError::Exhausted);
        }
        let stamp = self.clock + 1;
        let row = Book {
            id: self.next_book_id,
            user_id: owner,
            author_id: req.author_id,
            title: req.title,
            year: req.year,
            cover: req.cover,
            created_at: stamp,
            updated_at: stamp,
        };
        let out = row.duplicate();
        proof {
            if has_book(self@.books, row.id) {
                let k = choose|k: int| 0 <= k < self@.books.len() && self@.books[k].id == row.id;
                assert(self@.books[k].id < self@.next_book_id);
            }
            lemma_books_prepend(self@.books, self@.next_book_id, self@.clock, row, self@.next_book_id + 1);
        }
        let ghost before = self.books@;
        self.books.insert(0, row);
        assert(self.books@ =~= seq![out] + before);
        self.next_book_id = self.next_book_id + 1;
        self.clock = stamp;
        Ok(out)
    }

    /// Overwrites the mutable fields of the book keyed `id`, its author
    /// reference included, which must name an existing author.
    pub fn update_book(&mut self, id: i32, req: ReqBook) -> (r: Result<Book, StoreError>)
        requires
            old(self).wf(),
        ensures
            final(self).wf(),
            !has_book(old(self)@.books, id) ==> r == Err::<Book, StoreError>(StoreError::NotFound)
                && final(self)@ == old(self)@,
            has_book(old(self)@.books, id) && !has_author(old(self)@.authors, req.author_id) ==> r
                == Err::<Book, StoreError>(StoreError::ConstraintViolation) && final(self)@ == old(
                self,
            )@,
            has_book(old(self)@.books, id) && has_author(old(self)@.authors, req.author_id)
                && !clock_left(old(self)@) ==> r == Err::<Book, StoreError>(StoreError::Exhausted)
                && final(self)@ == old(self)@,
            has_book(old(self)@.books, id) && has_author(old(self)@.authors, req.author_id)
                && clock_left(old(self)@) ==> r == Ok::<Book, StoreError>(
                updated_book(old(self)@, id, req),
            ) && final(self)@ == after_update_book(old(self)@, id, req),
    {
        let i = match self.book_index(id) {
            Some(i) => i,
            None => return Err(StoreError::NotFound),
        };
        if self.author_index(req.author_id).is_none() {
            return Err(StoreError::ConstraintViolation);
        }
        if self.clock == u64::MAX {
            return Err(StoreError::Exhausted);
        }
        let stamp = self.clock + 1;
        proof {
            lemma_books_remove(self@.books, self@.next_book_id, self@.clock, i as int);
        }
        let old_row = self.books.remove(i);
        let row = Book {
            id: old_row.id,
            user_id: old_row.user_id,
            author_id: req.author_id,
            title: req.title,
            year: req.year,
            cover: req.cover,
            created_at: old_row.created_at,
            updated_at: stamp,
        };
        let out = row.duplicate();
        proof {
            lemma_books_prepend(self@.books, self@.next_book_id, self@.clock, row, self@.next_book_id);
        }
        let ghost before = self.books@;
        self.books.insert(0, row);
        assert(self.books@ =~= seq![out] + before);
        self.clock = stamp;
        Ok(out)
    }

    /// Removes the book keyed `id`.
    pub fn delete_book(&mut self, id: i32) -> (r: Result<(), StoreError>)
        requires
            old(self).wf(),
        ensures
            final(self).wf(),
            !has_book(old(self)@.books, id) ==> r == Err::<(), StoreError>(StoreError::NotFound)
                && final(self)@ == old(self)@,
            has_book(old(self)@.books, id) ==> r == Ok::<(), StoreError>(()) && final(self)@
                == after_delete_book(old(self)@, id),
    {
        let i = match self.book_index(id) {
            Some(i) => i,
            None => return Err(StoreError::NotFound),
        };
        proof {
            lemma_books_remove(self@.books, self@.next_book_id, self@.clock, i as int);
        }
        self.books.remove(i);
        Ok(())
    }

    /// The books that reference the author `author_id`, in table order.
    pub fn related_books(&self, author_id: i32) -> (r: Vec<Book>)
        ensures
            r@ == related_books(self@.books, author_id),
    {
        let mut out: Vec<Book> = Vec::new();
        let mut i: usize = 0;
        proof {
            assert(self.books@.subrange(0, 0) =~= Seq::<Book>::empty());
            reveal(Seq::filter);
        }
        while i < self.books.len()
            invariant
                0 <= i <= self.books@.len(),
                out@ == related_books(self.books@.subrange(0, i as int), author_id),
            decreases self.books@.len() - i,
        {
            if self.books[i].author_id == author_id {
                out.push(self.books[i].duplicate());
            }
            proof {
                let pre = self.books@.subrange(0, i as int);
                pre.lemma_filter_push(self.books@[i as int], by_author(author_id));
                assert(pre.push(self.books@[i as int]) =~= self.books@.subrange(0, i + 1));
            }
            i += 1;
        }
        proof {
            assert(self.books@.subrange(0, self.books@.len() as int) == self.books@);
        }
        out
    }
}

} // verus!
