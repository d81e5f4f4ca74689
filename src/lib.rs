pub mod models;
pub mod health;
pub mod text;
pub mod quality;
pub mod error;
pub mod conversion;
pub mod publish;
pub mod config;
