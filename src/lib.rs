pub mod value;
pub mod model;
pub mod clause;
pub mod query;
pub mod naming;
pub mod relations;
pub mod eloquent;
