pub mod chat_repository;
pub mod decimal;
pub mod errors;
pub mod http;
pub mod message_repository;
pub mod models;
