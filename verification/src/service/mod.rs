pub mod manage;
pub mod run;
