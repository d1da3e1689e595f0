pub mod schema;
pub mod worker;
