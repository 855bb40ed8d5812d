pub mod client;
pub mod constants;
pub mod error;
pub mod img;
pub mod model_list;
pub mod text;
pub mod tool;
