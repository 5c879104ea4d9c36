pub mod credits;
pub mod data;
pub mod models;
pub mod roots;
pub mod slots;

pub use data::StarWarsAPI;
pub use roots::{MutationRoot, QueryRoot};
