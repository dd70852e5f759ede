pub mod backends;
pub mod codec;
pub mod config;
pub mod db;
pub mod github;
pub mod http;
pub mod jenkins;
pub mod json;
pub mod k8s;
pub mod laws;
pub mod packets;
pub mod proxy;
pub mod text;
