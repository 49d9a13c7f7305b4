pub mod app;
pub mod gate;
pub mod laws;
pub mod mode;
pub mod number;
pub mod options;
pub mod output;
pub mod supervisor;
pub mod text;
