pub mod driver;
pub mod event;
pub mod program;
pub mod text;
