pub mod commands;
pub mod connection;
pub mod events;
pub mod keyed;
pub mod models;
pub mod paths;
pub mod persist;
pub mod protocol;
pub mod publish;
pub mod records;
pub mod stamps;
pub mod storage;
pub mod subscription;
pub mod supervisor;
pub mod text;
pub mod tls;
