pub mod article;
pub mod candidate;
pub mod fetch;
pub mod greet;
pub mod html;
pub mod persist;
pub mod records;
pub mod title;
