pub mod cell;
pub mod credentials;
pub mod error;
pub mod json;
pub mod options;
pub mod parse;
pub mod point;
pub mod retry;
pub mod row;
pub mod session;
