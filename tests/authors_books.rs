use bookstore::auth::{authenticate, AuthError, AuthenticatedUser, Claims};
use bookstore::model::{ReqAuthor, ReqBook};
use bookstore::response::{store_failure, Status};
use bookstore::store::{Store, StoreError};
use bookstore::{authors, books};

fn caller() -> AuthenticatedUser {
    AuthenticatedUser { id: 42 }
}

fn ada() -> ReqAuthor {
    ReqAuthor {
        firstname: "Ada".to_string(),
        lastname: "Lovelace".to_string(),
        bio: "mathematician".to_string(),
    }
}

fn book_for(author_id: i32, title: &str) -> ReqBook {
    ReqBook { author_id, title: title.to_string(), cover: None, year: None }
}

#[test]
fn end_to_end_author_with_book() {
    let mut store = Store::new();
    let user = caller();
    let created = authors::create(&mut store, &user, ada()).ok().unwrap();
    assert_eq!(created.status, Status::Created);
    assert_eq!(created.status.code(), 201);
    assert_eq!(created.body.id, 1);
    assert_eq!(created.body.firstname, "Ada");
    assert_eq!(created.body.lastname, "Lovelace");
    assert_eq!(created.body.bio, "mathematician");

    let req = ReqBook { author_id: 1, title: "Notes".to_string(), cover: None, year: Some(1843) };
    let book = books::create(&mut store, &user, req).ok().unwrap();
    assert_eq!(book.status.code(), 201);
    assert_eq!(book.body.id, 1);
    assert_eq!(book.body.author_id, 1);
    assert_eq!(book.body.title, "Notes");
    assert_eq!(book.body.year, Some(1843));
    assert_eq!(book.body.cover, None);

    let list = authors::get_books(&store, &user, 1).ok().unwrap();
    assert_eq!(list.status.code(), 200);
    assert_eq!(list.body.total, 1);
    assert_eq!(list.body.books.len(), 1);
    assert_eq!(list.body.books[0].id, 1);

    let deleted = authors::delete(&mut store, &user, 1).ok().unwrap();
    assert_eq!(deleted.status.code(), 200);
    assert_eq!(deleted.body, "Author deleted.");

    let missing = authors::show(&store, &user, 1).err().unwrap();
    assert_eq!(missing.status.code(), 404);
    // no cascade: the book stays, its author reference dangling
    assert!(books::show(&store, &user, 1).is_ok());
}

#[test]
fn created_rows_are_owned_by_the_caller() {
    let mut store = Store::new();
    let user = AuthenticatedUser { id: 9 };
    authors::create(&mut store, &user, ada()).ok().unwrap();
    books::create(&mut store, &user, book_for(1, "Notes")).ok().unwrap();
    assert_eq!(store.authors()[0].user_id, 9);
    assert_eq!(store.books()[0].user_id, 9);
    // an update by another caller keeps the owner
    let other = AuthenticatedUser { id: 10 };
    authors::update(&mut store, &other, 1, ada()).ok().unwrap();
    books::update(&mut store, &other, 1, book_for(1, "Sketch")).ok().unwrap();
    assert_eq!(store.authors()[0].user_id, 9);
    assert_eq!(store.books()[0].user_id, 9);
}

#[test]
fn absent_ids_give_not_found() {
    let mut store = Store::new();
    let user = caller();
    authors::create(&mut store, &user, ada()).ok().unwrap();
    books::create(&mut store, &user, book_for(1, "Notes")).ok().unwrap();

    let e = authors::show(&store, &user, 5).err().unwrap();
    assert_eq!(e.status, Status::NotFound);
    assert_eq!(e.message, "No author found with the specified ID");
    let e = authors::update(&mut store, &user, 5, ada()).err().unwrap();
    assert_eq!(e.status, Status::NotFound);
    assert_eq!(e.message, "No author with the specified ID.");
    let e = authors::delete(&mut store, &user, 5).err().unwrap();
    assert_eq!(e.status, Status::NotFound);
    let e = authors::get_books(&store, &user, 5).err().unwrap();
    assert_eq!(e.status, Status::NotFound);
    assert_eq!(e.message, "No author found with the specified ID.");

    let e = books::show(&store, &user, 5).err().unwrap();
    assert_eq!(e.status, Status::NotFound);
    assert_eq!(e.message, "Cannot find a book with the specified ID.");
    // a missing book wins over a missing author reference
    let e = books::update(&mut store, &user, 5, book_for(999999, "X")).err().unwrap();
    assert_eq!(e.status, Status::NotFound);
    assert_eq!(e.message, "No book with that specified ID.");
    let e = books::delete(&mut store, &user, 5).err().unwrap();
    assert_eq!(e.status, Status::NotFound);
}

#[test]
fn create_then_show_round_trip() {
    let mut store = Store::new();
    let user = caller();
    let a = authors::create(&mut store, &user, ada()).ok().unwrap().body;
    let shown = authors::show(&store, &user, a.id).ok().unwrap();
    assert_eq!(shown.status, Status::Success);
    assert_eq!(shown.body.id, a.id);
    assert_eq!(shown.body.firstname, "Ada");
    assert_eq!(shown.body.lastname, "Lovelace");
    assert_eq!(shown.body.bio, "mathematician");

    let req = ReqBook {
        author_id: a.id,
        title: "Notes".to_string(),
        cover: Some("covers/notes.png".to_string()),
        year: Some(1843),
    };
    let b = books::create(&mut store, &user, req).ok().unwrap().body;
    let shown = books::show(&store, &user, b.id).ok().unwrap().body;
    assert_eq!(shown.id, b.id);
    assert_eq!(shown.author_id, a.id);
    assert_eq!(shown.title, "Notes");
    assert_eq!(shown.year, Some(1843));
    assert_eq!(shown.cover, Some("covers/notes.png".to_string()));
    let row = &store.books()[0];
    assert_eq!(row.created_at, row.updated_at);
}

#[test]
fn delete_twice_then_not_found() {
    let mut store = Store::new();
    let user = caller();
    authors::create(&mut store, &user, ada()).ok().unwrap();
    books::create(&mut store, &user, book_for(1, "Notes")).ok().unwrap();
    assert!(books::delete(&mut store, &user, 1).is_ok());
    assert_eq!(books::delete(&mut store, &user, 1).err().unwrap().status, Status::NotFound);
    assert_eq!(authors::delete(&mut store, &user, 1).ok().unwrap().body, "Author deleted.");
    assert_eq!(authors::delete(&mut store, &user, 1).err().unwrap().status, Status::NotFound);
}

#[test]
fn listing_is_most_recently_updated_first() {
    let mut store = Store::new();
    let user = caller();
    for name in ["A", "B", "C"] {
        let req = ReqAuthor { firstname: name.to_string(), lastname: "L".to_string(), bio: String::new() };
        authors::create(&mut store, &user, req).ok().unwrap();
    }
    let req = ReqAuthor { firstname: "A2".to_string(), lastname: "L".to_string(), bio: String::new() };
    authors::update(&mut store, &user, 1, req).ok().unwrap();

    let list = authors::index(&store, &user).ok().unwrap();
    assert_eq!(list.body.total, 3);
    let ids: Vec<i32> = list.body.authors.iter().map(|a| a.id).collect();
    assert_eq!(ids, vec![1, 3, 2]);
    assert_eq!(list.body.authors[0].firstname, "A2");
    let rows = store.authors();
    for w in rows.windows(2) {
        assert!(w[0].updated_at >= w[1].updated_at);
    }
    // the update refreshed the stamp but kept the creation stamp
    assert_eq!(rows[0].created_at, 1);
    assert_eq!(rows[0].updated_at, 4);
}

#[test]
fn book_listing_is_most_recently_updated_first() {
    let mut store = Store::new();
    let user = caller();
    authors::create(&mut store, &user, ada()).ok().unwrap();
    for t in ["X", "Y", "Z"] {
        books::create(&mut store, &user, book_for(1, t)).ok().unwrap();
    }
    books::update(&mut store, &user, 2, book_for(1, "Y2")).ok().unwrap();
    let list = books::index(&store, &user).ok().unwrap();
    assert_eq!(list.body.total, 3);
    let ids: Vec<i32> = list.body.books.iter().map(|b| b.id).collect();
    assert_eq!(ids, vec![2, 3, 1]);
    assert_eq!(list.body.books[0].title, "Y2");
}

#[test]
fn get_books_counts_only_matching_books() {
    let mut store = Store::new();
    let user = caller();
    authors::create(&mut store, &user, ada()).ok().unwrap();
    authors::create(&mut store, &user, ada()).ok().unwrap();
    for i in 0..3 {
        books::create(&mut store, &user, book_for(1, &format!("mine {}", i))).ok().unwrap();
    }
    for i in 0..2 {
        books::create(&mut store, &user, book_for(2, &format!("other {}", i))).ok().unwrap();
    }
    let list = authors::get_books(&store, &user, 1).ok().unwrap().body;
    assert_eq!(list.total, 3);
    assert_eq!(list.books.len(), 3);
    assert!(list.books.iter().all(|b| b.author_id == 1));
    let list = authors::get_books(&store, &user, 2).ok().unwrap().body;
    assert_eq!(list.total, 2);
}

#[test]
fn get_books_of_author_without_books_is_empty() {
    let mut store = Store::new();
    let user = caller();
    authors::create(&mut store, &user, ada()).ok().unwrap();
    let list = authors::get_books(&store, &user, 1).ok().unwrap().body;
    assert_eq!(list.total, 0);
    assert!(list.books.is_empty());
}

#[test]
fn book_with_missing_author_is_a_constraint_violation() {
    let mut store = Store::new();
    let user = caller();
    authors::create(&mut store, &user, ada()).ok().unwrap();
    let e = books::create(&mut store, &user, book_for(999999, "Ghost")).err().unwrap();
    assert_eq!(e.status, Status::BadRequest);
    assert_eq!(e.status.code(), 400);
    assert_eq!(e.message, "The referenced author does not exist.");
    assert!(store.books().is_empty());
    assert_eq!(books::index(&store, &user).ok().unwrap().body.total, 0);
}

#[test]
fn reassigning_a_book_to_missing_author_fails() {
    let mut store = Store::new();
    let user = caller();
    authors::create(&mut store, &user, ada()).ok().unwrap();
    books::create(&mut store, &user, book_for(1, "Notes")).ok().unwrap();
    let e = books::update(&mut store, &user, 1, book_for(999999, "Notes")).err().unwrap();
    assert_eq!(e.status, Status::BadRequest);
    assert_eq!(store.books()[0].author_id, 1);
    assert_eq!(store.books()[0].title, "Notes");
}

#[test]
fn reassigning_a_book_moves_it_between_authors() {
    let mut store = Store::new();
    let user = caller();
    authors::create(&mut store, &user, ada()).ok().unwrap();
    authors::create(&mut store, &user, ada()).ok().unwrap();
    books::create(&mut store, &user, book_for(1, "Notes")).ok().unwrap();
    let b = books::update(&mut store, &user, 1, book_for(2, "Notes")).ok().unwrap();
    assert_eq!(b.status, Status::Success);
    assert_eq!(b.body.author_id, 2);
    assert_eq!(authors::get_books(&store, &user, 1).ok().unwrap().body.total, 0);
    assert_eq!(authors::get_books(&store, &user, 2).ok().unwrap().body.total, 1);
}

#[test]
fn store_reports_its_errors() {
    let mut store = Store::new();
    assert_eq!(store.delete_author(1), Err(StoreError::NotFound));
    assert_eq!(store.insert_book(1, book_for(1, "X")).err(), Some(StoreError::ConstraintViolation));
    assert!(store.find_author(1).is_none());
}

#[test]
fn store_failures_map_to_statuses() {
    let e = store_failure(StoreError::NotFound, "gone");
    assert_eq!(e.status.code(), 404);
    assert_eq!(e.message, "gone");
    let e = store_failure(StoreError::ConstraintViolation, "gone");
    assert_eq!(e.status.code(), 400);
    let e = store_failure(StoreError::Exhausted, "gone");
    assert_eq!(e.status.code(), 500);
}

fn claims(sub: u32, exp: u64) -> Claims {
    Claims { sub, role: "user".to_string(), exp }
}

#[test]
fn missing_token_is_unauthorized() {
    let r = authenticate(false, None, 1_000);
    assert_eq!(r, Err(AuthError::TokenAbsent));
    let resp = AuthError::TokenAbsent.to_response();
    assert_eq!(resp.status.code(), 401);
    assert_eq!(resp.message, "Token absent");
}

#[test]
fn expired_token_is_unauthorized() {
    let c = claims(3, 999);
    assert_eq!(authenticate(true, Some(&c), 1_000), Err(AuthError::Expired));
    assert_eq!(AuthError::Expired.to_response().status, Status::Unauthorized);
}

#[test]
fn undecodable_token_is_unauthorized() {
    // what a token signed with another secret decodes to
    assert_eq!(authenticate(true, None, 1_000), Err(AuthError::InvalidToken));
    let resp = AuthError::InvalidToken.to_response();
    assert_eq!(resp.status, Status::Unauthorized);
    assert_eq!(resp.message, "Invalid token");
}

#[test]
fn valid_token_yields_its_subject() {
    let c = claims(17, 1_000);
    assert_eq!(authenticate(true, Some(&c), 1_000), Ok(AuthenticatedUser { id: 17 }));
    assert_eq!(authenticate(true, Some(&c), 5), Ok(AuthenticatedUser { id: 17 }));
}
