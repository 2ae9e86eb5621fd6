//! Parsing and formatting of the HTTP version field of a request or response
//! start line, such as `HTTP/1.1`.

pub mod laws;
pub mod order;
pub mod syntax;
pub mod version;

pub use syntax::to_digit;
pub use version::HttpVersion;
