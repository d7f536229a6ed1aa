//! A persistent, shardable cron job scheduler: the scheduling and execution
//! rules, stated as contracts and proved.

pub mod hash;
pub mod status;
pub mod text;
pub mod clock;
pub mod schedule;
pub mod json;
pub mod payload;
pub mod job;
pub mod config;
pub mod shard;
pub mod tick;
pub mod tick_laws;
pub mod registry;
pub mod keyed;
pub mod engine;
pub mod store;
pub mod api;
pub mod adf;
pub mod auth;
