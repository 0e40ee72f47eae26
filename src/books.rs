use vstd::prelude::*;

use crate::auth::AuthenticatedUser;
use crate::model::{res_book, Book, ReqBook, ResBook, RespBookList};
use crate::response::{store_failure, ErrorResponse, Response, Status, SuccessResponse};
use crate::store::{
    after_delete_book, after_insert_book, after_update_book, book_id_left, book_row, clock_left,
    has_author, has_book, new_book, updated_book, Store,
};

verus! {

/// Every book, most recently written first, with the count.
pub fn index(store: &Store, _user: &AuthenticatedUser) -> (r: Response<RespBookList>)
    requires
        store.wf(),
    ensures
        r matches Ok(ok) && ok.status == Status::Success && ok.body.total == store@.books.len()
            && ok.body.books@ == store@.books.map_values(|b: Book| res_book(b)),
{
    let rows = store.books();
    let mut out: Vec<ResBook> = Vec::new();
    let mut i: usize = 0;
    while i < rows.len()
        invariant
            0 <= i <= rows@.len(),
            rows@ == store@.books,
            out@.len() == i,
            forall|k: int| 0 <= k < i ==> out@[k] == res_book(rows@[k]),
        decreases rows@.len() - i,
    {
        out.push(ResBook::from(&rows[i]));
        i += 1;
    }
    assert(out@ =~= store@.books.map_values(|b: Book| res_book(b)));
    let total = out.len();
    Ok(SuccessResponse { status: Status::Success, body: RespBookList { total, books: out } })
}

/// One book by id.
pub fn show(store: &Store, _user: &AuthenticatedUser, id: i32) -> (r: Response<ResBook>)
    requires
        store.wf(),
    ensures
        has_book(store@.books, id) ==> (r matches Ok(ok) && ok.status == Status::Success
            && ok.body == res_book(book_row(store@, id))),
        !has_book(store@.books, id) ==> (r matches Err(e) && e.status == Status::NotFound
            && e.message@ == "Cannot find a book with the specified ID."@),
{
    match store.find_book(id) {
        Some(b) => Ok(SuccessResponse { status: Status::Success, body: ResBook::from(b) }),
        None => Err(
            ErrorResponse {
                status: Status::NotFound,
                message: "Cannot find a book with the specified ID.".to_string(),
            },
        ),
    }
}

/// Creates a book owned by the caller. The author reference is not looked
/// at here: the store refuses one that names no author.
pub fn create(store: &mut Store, user: &AuthenticatedUser, req: ReqBook) -> (r: Response<ResBook>)
    requires
        old(store).wf(),
    ensures
        final(store).wf(),
        !has_author(old(store)@.authors, req.author_id) ==> (r matches Err(e) && e.status
            == Status::BadRequest && final(store)@ == old(store)@),
        has_author(old(store)@.authors, req.author_id) && !(book_id_left(old(store)@)
            && clock_left(old(store)@)) ==> (r matches Err(e) && e.status
            == Status::InternalServerError && final(store)@ == old(store)@),
        has_author(old(store)@.authors, req.author_id) && book_id_left(old(store)@) && clock_left(
            old(store)@,
        ) ==> (r matches Ok(ok) && ok.status == Status::Created && ok.body == res_book(
            new_book(old(store)@, user.id, req),
        ) && final(store)@ == after_insert_book(old(store)@, user.id, req)),
        r matches Ok(ok) ==> final(store)@.books[0].id == ok.body.id
            && final(store)@.books[0].user_id == user.id,
{
    match store.insert_book(user.id, req) {
        Ok(b) => Ok(SuccessResponse { status: Status::Created, body: ResBook::from(&b) }),
        Err(e) => Err(store_failure(e, "No book with that specified ID.")),
    }
}

/// Overwrites a book's author reference, title, year and cover; its owner stays.
pub fn update(store: &mut Store, _user: &AuthenticatedUser, id: i32, req: ReqBook) -> (r: Response<
    ResBook,
>)
    requires
        old(store).wf(),
    ensures
        final(store).wf(),
        !has_book(old(store)@.books, id) ==> (r matches Err(e) && e.status == Status::NotFound
            && e.message@ == "No book with that specified ID."@ && final(store)@ == old(store)@),
        has_book(old(store)@.books, id) && !has_author(old(store)@.authors, req.author_id) ==> (r
            matches Err(e) && e.status == Status::BadRequest && final(store)@ == old(store)@),
        has_book(old(store)@.books, id) && has_author(old(store)@.authors, req.author_id)
            && !clock_left(old(store)@) ==> (r matches Err(e) && e.status
            == Status::InternalServerError && final(store)@ == old(store)@),
        has_book(old(store)@.books, id) && has_author(old(store)@.authors, req.author_id)
            && clock_left(old(store)@) ==> (r matches Ok(ok) && ok.status == Status::Success
            && ok.body == res_book(updated_book(old(store)@, id, req)) && final(store)@
            == after_update_book(old(store)@, id, req)),
{
    match store.update_book(id, req) {
        Ok(b) => Ok(SuccessResponse { status: Status::Success, body: ResBook::from(&b) }),
        Err(e) => Err(store_failure(e, "No book with that specified ID.")),
    }
}

/// Deletes a book.
pub fn delete(store: &mut Store, _user: &AuthenticatedUser, id: i32) -> (r: Response<String>)
    requires
        old(store).wf(),
    ensures
        final(store).wf(),
        !has_book(old(store)@.books, id) ==> (r matches Err(e) && e.status == Status::NotFound
            && e.message@ == "No book with that specified ID."@ && final(store)@ == old(store)@),
        has_book(old(store)@.books, id) ==> (r matches Ok(ok) && ok.status == Status::Success
            && ok.body@ == "Book deleted."@ && final(store)@ == after_delete_book(old(store)@, id)),
{
    match store.delete_book(id) {
        Ok(()) => Ok(SuccessResponse { status: Status::Success, body: "Book deleted.".to_string() }),
        Err(e) => Err(store_failure(e, "No book with that specified ID.")),
    }
}

} // verus!
