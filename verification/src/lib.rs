pub mod components;
pub mod config;
pub mod services;
pub mod text;
