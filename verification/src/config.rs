pub mod app_config;
