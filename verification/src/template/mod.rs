pub mod parser;
pub mod filters;
pub mod interpreter;
pub mod renderer;
