pub mod archive;
pub mod db;
pub mod progress;
