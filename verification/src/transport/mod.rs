pub mod fake;
