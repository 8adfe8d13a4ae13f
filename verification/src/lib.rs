//! Table models over SQL query results, kept apart from the database
//! connection and the user interface that display them.

pub mod bijective;
pub mod lifetimes;
pub mod model;
pub mod pet;
pub mod pets;
pub mod sqlmdl;
pub mod sqltmdl;
pub mod text;
