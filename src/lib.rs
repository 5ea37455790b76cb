pub mod error;
pub mod text;
pub mod json;
pub mod envelope;
pub mod fields;
pub mod protocol;
pub mod request;
pub mod click;
pub mod slide;
pub mod timing;
pub mod retry;
pub mod response;
pub mod flow;
