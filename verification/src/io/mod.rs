pub mod diagnostic;
