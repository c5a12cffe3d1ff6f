//! Request handling, storage bookkeeping and authentication rules of an
//! S3-backed file service, with their contracts.

pub mod auth;
pub mod clock;
pub mod config;
pub mod db;
pub mod digest;
pub mod error;
pub mod events;
pub mod files;
pub mod models;
pub mod storage;
pub mod sync;
pub mod text;
