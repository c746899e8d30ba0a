pub mod decode;
pub mod document;
pub mod parse;
pub mod schema;
