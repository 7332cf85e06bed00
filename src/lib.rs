pub mod error;
pub mod json;
pub mod permission;
pub mod request;
pub mod requesting_party_token;
pub mod response;
pub mod text;
pub mod uma2;
pub mod wire;
