//! Protocol core of a client for the etcd v2 HTTP API.
//!
//! Everything that decides what is sent to a cluster and what a reply means
//! lives here as plain, verified functions: option encoding, request
//! construction for every resource, endpoint failover, and the reading of
//! cluster metadata and status codes. Sending bytes is left to the caller.

pub mod auth;
pub mod client;
pub mod dispatch;
pub mod error;
pub mod form;
pub mod json;
pub mod kv;
pub mod members;
pub mod options;
pub mod request;
pub mod stats;
pub mod text;

pub use client::{
    Client, ClientBuilder, ClusterInfo, DecodeReason, Duration, Endpoint, Health, Response,
    UndecodedHeader, VersionInfo,
};
pub use error::{ApiError, EtcdError, WatchError};
pub use request::{Accept, Dispatch, Method, Reply, Request};
