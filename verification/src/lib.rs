//! The decisions behind a C ABI over memory-mapped primitives: which handle
//! names which object, which token names which hold, what an argument has
//! to be, and which code and detail a failing call answers with.

pub mod arguments;
pub mod deque;
pub mod epoch;
pub mod epoch_barrier;
pub mod epochs;
pub mod error;
pub mod fence_clock;
pub mod frame_region;
pub mod graph;
pub mod handle;
pub mod hashmap;
pub mod heartbeat;
pub mod histogram;
pub mod holders;
pub mod holds;
pub mod hyper_log_log;
pub mod k_tower;
pub mod lamport;
pub mod laned_map;
pub mod lazy_value;
pub mod leader;
pub mod lifetime;
pub mod list;
pub mod locale;
pub mod lru_cache;
pub mod mpmc;
pub mod nan_value;
pub mod notifier;
pub mod ordered;
pub mod owner_lease;
pub mod pubsub;
pub mod qos_policy;
pub mod quic_bridge;
pub mod rate_limiter;
pub mod text;
