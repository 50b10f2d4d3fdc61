pub mod decimal;
pub mod demos;
