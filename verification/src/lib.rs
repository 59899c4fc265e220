//! A revalidating HTTP download cache with a streaming integrity verifier,
//! together with the catalog model that names the files to fetch and verify.
//!
//! The library computes and decides; it never touches the disk, the network
//! or the clock. Reading and writing files, talking to a server and asking
//! for the time are left to the caller, which hands the library what it read
//! and carries out what the library decided.
//!
//! - `caching_client`: where a cache entry lives, what is remembered of a
//!   response, which validators go out with the next request, and what a
//!   response does to the entry.
//! - `cache_control`, `headers`, `charset`, `time`: the parts of a response
//!   that the cache reads.
//! - `integrity`, `digest`, `hex`: checking a file against its checksum.
//! - `sdkm_config`, `sdkm_l1`, `sdkm_l2`, `sdkm_l3`, `sdkm`: the catalogs.
//! - `actions`, `logging`, `error`: what the user asks for, and what is said
//!   in return.
//! - `cache`, `names`, `lookup`, `text`: paths, tables and texts.

pub mod actions;
pub mod cache;
pub mod cache_control;
pub mod caching_client;
pub mod charset;
pub mod digest;
pub mod error;
pub mod headers;
pub mod hex;
pub mod integrity;
pub mod logging;
pub mod lookup;
pub mod names;
pub mod sdkm;
pub mod sdkm_config;
pub mod sdkm_l1;
pub mod sdkm_l2;
pub mod sdkm_l3;
pub mod text;
pub mod time;

