pub mod image;
pub mod resource;
pub mod section;
