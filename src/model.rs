pub mod instruction;
pub mod session;
pub mod response;
pub mod transaction;
