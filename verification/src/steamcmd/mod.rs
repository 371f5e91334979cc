pub mod marker;
pub mod validate;
