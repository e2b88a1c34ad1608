pub mod access;
pub mod admission;
pub mod cache;
pub mod config;
pub mod date;
pub mod pipeline;
pub mod reload;
pub mod request;
pub mod resolver;
pub mod response;
pub mod route;
pub mod supervisor;
pub mod text;
