use vstd::prelude::*;

use crate::auth::AuthenticatedUser;
use crate::model::{res_author, res_book, Author, Book, ReqAuthor, ResAuthor, ResAuthorList, ResBook, RespBookList};
use crate::response::{store_failure, ErrorResponse, Response, Status, SuccessResponse};
use crate::store::{
    after_delete_author, after_insert_author, after_update_author, author_id_left, author_row,
    clock_left, has_author, new_author, related_books, updated_author, Store,
};

verus! {

/// Every author, most recently written first, with the count.
pub fn index(store: &Store, _user: &AuthenticatedUser) -> (r: Response<ResAuthorList>)
    requires
        store.wf(),
    ensures
        r matches Ok(ok) && ok.status == Status::Success && ok.body.total == store@.authors.len()
            && ok.body.authors@ == store@.authors.map_values(|a: Author| res_author(a)),
{
    let rows = store.authors();
    let mut out: Vec<ResAuthor> = Vec::new();
    let mut i: usize = 0;
    while i < rows.len()
        invariant
            0 <= i <= rows@.len(),
            rows@ == store@.authors,
            out@.len() == i,
            forall|k: int| 0 <= k < i ==> out@[k] == res_author(rows@[k]),
        decreases rows@.len() - i,
    {
        out.push(ResAuthor::from(&rows[i]));
        i += 1;
    }
    assert(out@ =~= store@.authors.map_values(|a: Author| res_author(a)));
    let total = out.len();
    Ok(SuccessResponse { status: Status::Success, body: ResAuthorList { total, authors: out } })
}

/// One author by id.
pub fn show(store: &Store, _user: &AuthenticatedUser, id: i32) -> (r: Response<ResAuthor>)
    requires
        store.wf(),
    ensures
        has_author(store@.authors, id) ==> (r matches Ok(ok) && ok.status == Status::Success
            && ok.body == res_author(author_row(store@, id))),
        !has_author(store@.authors, id) ==> (r matches Err(e) && e.status == Status::NotFound
            && e.message@ == "No author found with the specified ID"@),
{
    match store.find_author(id) {
        Some(a) => Ok(SuccessResponse { status: Status::Success, body: ResAuthor::from(a) }),
        None => Err(
            ErrorResponse {
                status: Status::NotFound,
                message: "No author found with the specified ID".to_string(),
            },
        ),
    }
}

/// Creates an author owned by the caller.
pub fn create(store: &mut Store, user: &AuthenticatedUser, req: ReqAuthor) -> (r: Response<
    ResAuthor,
>)
    requires
        old(store).wf(),
    ensures
        final(store).wf(),
        author_id_left(old(store)@) && clock_left(old(store)@) ==> (r matches Ok(ok) && ok.status
            == Status::Created && ok.body == res_author(new_author(old(store)@, user.id, req))
            && final(store)@ == after_insert_author(old(store)@, user.id, req)),
        !(author_id_left(old(store)@) && clock_left(old(store)@)) ==> (r matches Err(e) && e.status
            == Status::InternalServerError && final(store)@ == old(store)@),
        r matches Ok(ok) ==> final(store)@.authors[0].id == ok.body.id
            && final(store)@.authors[0].user_id == user.id,
{
    match store.insert_author(user.id, req) {
        Ok(a) => Ok(SuccessResponse { status: Status::Created, body: ResAuthor::from(&a) }),
        Err(e) => Err(store_failure(e, "No author with the specified ID.")),
    }
}

/// Overwrites an author's names and biography; its owner stays.
pub fn update(store: &mut Store, _user: &AuthenticatedUser, id: i32, req: ReqAuthor) -> (r:
    Response<ResAuthor>)
    requires
        old(store).wf(),
    ensures
        final(store).wf(),
        !has_author(old(store)@.authors, id) ==> (r matches Err(e) && e.status == Status::NotFound
            && e.message@ == "No author with the specified ID."@ && final(store)@ == old(store)@),
        has_author(old(store)@.authors, id) && !clock_left(old(store)@) ==> (r matches Err(e)
            && e.status == Status::InternalServerError && final(store)@ == old(store)@),
        has_author(old(store)@.authors, id) && clock_left(old(store)@) ==> (r matches Ok(ok)
            && ok.status == Status::Success && ok.body == res_author(
            updated_author(old(store)@, id, req),
        ) && final(store)@ == after_update_author(old(store)@, id, req)),
{
    match store.update_author(id, req) {
        Ok(a) => Ok(SuccessResponse { status: Status::Success, body: ResAuthor::from(&a) }),
        Err(e) => Err(store_failure(e, "No author with the specified ID.")),
    }
}

/// Deletes an author; its books are left in place.
pub fn delete(store: &mut Store, _user: &AuthenticatedUser, id: i32) -> (r: Response<String>)
    requires
        old(store).wf(),
    ensures
        final(store).wf(),
        !has_author(old(store)@.authors, id) ==> (r matches Err(e) && e.status == Status::NotFound
            && e.message@ == "No author with the specified ID."@ && final(store)@ == old(store)@),
        has_author(old(store)@.authors, id) ==> (r matches Ok(ok) && ok.status == Status::Success
            && ok.body@ == "Author deleted."@ && final(store)@ == after_delete_author(
            old(store)@,
            id,
        )),
{
    match store.delete_author(id) {
        Ok(()) => Ok(SuccessResponse { status: Status::Success, body: "Author deleted.".to_string() }),
        Err(e) => Err(store_failure(e, "No author with the specified ID.")),
    }
}

/// The books of an existing author, with the count.
pub fn get_books(store: &Store, _user: &AuthenticatedUser, id: i32) -> (r: Response<RespBookList>)
    requires
        store.wf(),
    ensures
        !has_author(store@.authors, id) ==> (r matches Err(e) && e.status == Status::NotFound
            && e.message@ == "No author found with the specified ID."@),
        has_author(store@.authors, id) ==> (r matches Ok(ok) && ok.status == Status::Success
            && ok.body.total == related_books(store@.books, id).len() && ok.body.books@
            == related_books(store@.books, id).map_values(|b: Book| res_book(b))),
{
    let author = match store.find_author(id) {
        Some(a) => a,
        None => {
            return Err(
                ErrorResponse {
                    status: Status::NotFound,
                    message: "No author found with the specified ID.".to_string(),
                },
            );
        },
    };
    let books = store.related_books(author.id);
    let mut out: Vec<ResBook> = Vec::new();
    let mut i: usize = 0;
    while i < books.len()
        invariant
            0 <= i <= books@.len(),
            books@ == related_books(store@.books, id),
            out@.len() == i,
            forall|k: int| 0 <= k < i ==> out@[k] == res_book(books@[k]),
        decreases books@.len() - i,
    {
        out.push(ResBook::from(&books[i]));
        i += 1;
    }
    assert(out@ =~= related_books(store@.books, id).map_values(|b: Book| res_book(b)));
    let total = out.len();
    Ok(SuccessResponse { status: Status::Success, body: RespBookList { total, books: out } })
}

} // verus!
