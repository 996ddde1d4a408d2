pub mod generate;
