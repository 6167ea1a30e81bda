pub mod common;
pub mod mutation;
pub use common::is_valid_ptr;
