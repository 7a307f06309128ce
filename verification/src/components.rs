pub mod env_reader;
