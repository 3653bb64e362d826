pub mod advanced;
pub mod basics;
pub mod config;
pub mod data_structures;
pub mod exercises;
pub mod favorites;
pub mod http;
pub mod logging;
pub mod memory_pool;
pub mod references;
pub mod reqwest_client;
pub mod string_map;
pub mod text;
pub mod voting;
