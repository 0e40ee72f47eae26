use vstd::prelude::*;

use crate::model::{res_author, res_book, ReqAuthor, ReqBook, ResAuthor, ResBook};
use crate::store::{
    after_delete_author, after_delete_book, after_insert_author, after_insert_book, author_id_left,
    author_row, book_id_left, book_row, by_author, clock_left, has_author, has_book, new_book,
    related_books, wf_state, lemma_author_pos, lemma_authors_prepend, lemma_authors_remove,
    lemma_book_pos, lemma_books_prepend, lemma_books_remove, StoreView,
};

verus! {

proof fn lemma_fresh_author_id(s: StoreView)
    requires
        wf_state(s),
    ensures
        !has_author(s.authors, s.next_author_id as i32),
{
    if has_author(s.authors, s.next_author_id as i32) {
        let k = choose|k: int| 0 <= k < s.authors.len() && s.authors[k].id == s.next_author_id as i32;
        assert(s.authors[k].id < s.next_author_id);
    }
}

proof fn lemma_fresh_book_id(s: StoreView)
    requires
        wf_state(s),
    ensures
        !has_book(s.books, s.next_book_id as i32),
{
    if has_book(s.books, s.next_book_id as i32) {
        let k = choose|k: int| 0 <= k < s.books.len() && s.books[k].id == s.next_book_id as i32;
        assert(s.books[k].id < s.next_book_id);
    }
}

/// Creating an author and then reading it back by the id it was given
/// yields exactly the fields that were sent, owned by the creator.
pub proof fn create_then_show_author(s: StoreView, owner: u32, req: ReqAuthor)
    requires
        wf_state(s),
        author_id_left(s),
        clock_left(s),
    ensures
        ({
            let t = after_insert_author(s, owner, req);
            let id = s.next_author_id as i32;
            &&& wf_state(t)
            &&& has_author(t.authors, id)
            &&& author_row(t, id).user_id == owner
            &&& res_author(author_row(t, id)) == (ResAuthor {
                id,
                firstname: req.firstname,
                lastname: req.lastname,
                bio: req.bio,
            })
        }),
{
    let t = after_insert_author(s, owner, req);
    let id = s.next_author_id as i32;
    lemma_fresh_author_id(s);
    lemma_authors_prepend(s.authors, s.next_author_id, s.clock, t.authors[0], s.next_author_id + 1);
    lemma_author_pos(t.authors, t.next_author_id, t.clock, id, 0);
}

/// Creating a book and then reading it back by the id it was given yields
/// exactly the fields that were sent, owned by the creator.
pub proof fn create_then_show_book(s: StoreView, owner: u32, req: ReqBook)
    requires
        wf_state(s),
        has_author(s.authors, req.author_id),
        book_id_left(s),
        clock_left(s),
    ensures
        ({
            let t = after_insert_book(s, owner, req);
            let id = s.next_book_id as i32;
            &&& wf_state(t)
            &&& has_book(t.books, id)
            &&& book_row(t, id).user_id == owner
            &&& res_book(book_row(t, id)) == (ResBook {
                id,
                title: req.title,
                year: req.year,
                cover: req.cover,
                author_id: req.author_id,
            })
        }),
{
    let t = after_insert_book(s, owner, req);
    let id = s.next_book_id as i32;
    lemma_fresh_book_id(s);
    lemma_books_prepend(s.books, s.next_book_id, s.clock, t.books[0], s.next_book_id + 1);
    lemma_book_pos(t.books, t.next_book_id, t.clock, id, 0);
}

/// Deleting is not idempotent: once an author is deleted its id is gone, so
/// a second delete of it finds nothing.
pub proof fn delete_author_twice(s: StoreView, id: i32)
    requires
        wf_state(s),
        has_author(s.authors, id),
    ensures
        wf_state(after_delete_author(s, id)),
        !has_author(after_delete_author(s, id).authors, id),
{
    let i = choose|i: int| 0 <= i < s.authors.len() && s.authors[i].id == id;
    lemma_author_pos(s.authors, s.next_author_id, s.clock, id, i);
    lemma_authors_remove(s.authors, s.next_author_id, s.clock, i);
}

/// Deleting is not idempotent: once a book is deleted its id is gone, so a
/// second delete of it finds nothing.
pub proof fn delete_book_twice(s: StoreView, id: i32)
    requires
        wf_state(s),
        has_book(s.books, id),
    ensures
        wf_state(after_delete_book(s, id)),
        !has_book(after_delete_book(s, id).books, id),
{
    let i = choose|i: int| 0 <= i < s.books.len() && s.books[i].id == id;
    lemma_book_pos(s.books, s.next_book_id, s.clock, id, i);
    lemma_books_remove(s.books, s.next_book_id, s.clock, i);
}

/// In every well-formed store both listings come in non-increasing order of
/// their last-write stamp.
pub proof fn listings_are_ordered(s: StoreView)
    requires
        wf_state(s),
    ensures
        forall|i: int, j: int|
            0 <= i <= j < s.authors.len() ==> s.authors[j].updated_at <= s.authors[i].updated_at,
        forall|i: int, j: int|
            0 <= i <= j < s.books.len() ==> s.books[j].updated_at <= s.books[i].updated_at,
{
}

/// Creating a book adds it to the books of its own author, and to no other
/// author's books: so after creating N books for one author and M for
/// others, that author has exactly the N.
pub proof fn create_book_related(s: StoreView, owner: u32, req: ReqBook, author_id: i32)
    requires
        wf_state(s),
        has_author(s.authors, req.author_id),
        book_id_left(s),
        clock_left(s),
    ensures
        related_books(after_insert_book(s, owner, req).books, author_id) == if req.author_id
            == author_id {
            seq![new_book(s, owner, req)] + related_books(s.books, author_id)
        } else {
            related_books(s.books, author_id)
        },
        req.author_id == author_id ==> related_books(after_insert_book(s, owner, req).books, author_id).len()
            == related_books(s.books, author_id).len() + 1,
{
    s.books.lemma_filter_prepend(new_book(s, owner, req), by_author(author_id));
    assert(Seq::<crate::model::Book>::empty() + related_books(s.books, author_id) == related_books(s.books, author_id));
}

/// An empty store relates no books to any author.
pub proof fn no_books_initially(s: StoreView, author_id: i32)
    requires
        s.books.len() == 0,
    ensures
        related_books(s.books, author_id).len() == 0,
{
    reveal(Seq::filter);
}

} // verus!
