//! A verified data-access core for a small burger resource server.
//!
//! The crate models the storage table that backs the server's single
//! entity and proves the repository operations against that model:
//! identifiers stay unique, lookups classify their failures, substring
//! search returns exactly the matching rows, and random selection never
//! reaches outside the table.

pub mod handler;
pub mod laws;
pub mod model;
pub mod pool;
pub mod repository;
pub mod router;
pub mod text;

pub use model::Burger;
pub use model::InsertableBurger;
pub use model::RepoError;
