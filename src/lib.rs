use vstd::prelude::*;

pub mod auth;
pub mod authors;
pub mod books;
pub mod laws;
pub mod model;
pub mod response;
pub mod store;

verus! {

} // verus!
