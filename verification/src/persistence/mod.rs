//! The database layer: the errors it reports, the rows it stores, and the
//! decisions it takes on what the database answers.
pub mod errors;
pub mod rows;
pub mod store;
