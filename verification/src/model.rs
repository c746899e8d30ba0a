pub mod asset_name;
pub mod tool;
