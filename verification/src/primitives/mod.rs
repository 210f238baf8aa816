pub mod error;
pub mod ids;
pub mod position;
pub mod quantity;
pub mod tick;
