pub mod arma;
pub mod json;
pub mod launcher;
pub mod mapseeding;
pub mod runtime;
