pub mod error;
pub mod text;
pub mod timestamp;
pub mod signature;
pub mod json_doc;
pub mod credentials;
pub mod link;
pub mod session;
