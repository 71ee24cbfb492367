pub mod args;
pub mod io;
pub mod target;
