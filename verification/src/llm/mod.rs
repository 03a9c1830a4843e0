pub mod base64_text;
pub mod budget;
pub mod client;
pub mod fit;
pub mod image_prep;
pub mod json;
