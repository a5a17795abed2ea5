//! Client-side orchestration for a remote content-extraction service: a
//! command abstraction over single-page and multi-page fetches, a
//! bounded-concurrency task queue with a counting-permit discipline, a
//! polling state machine that drives remote jobs to a terminal outcome, and
//! a TTL-based result cache with statistics.
//!
//! Every operation here is specified and verified. The outside world (the
//! HTTP transport, the filesystem, the clock, the terminal) enters only
//! through narrow boundaries: the [`api_service::ApiService`] and
//! [`storage::ContentRepository`] contracts that a surrounding program
//! implements, explicit time arguments in milliseconds, and a handful of
//! trusted wrappers whose reliance is stated where they stand.

pub mod cli;
pub mod text;
pub mod naming;
pub mod clock;
pub mod errors;

pub mod config;
pub mod environment;
pub mod loader;

pub mod scrape_model;
pub mod crawl_model;
pub mod client;
pub mod client_builder;
pub mod api_service;

pub mod commands;
pub mod scrape_command;
pub mod crawl_command;
pub mod poller;
pub mod task_queue;

pub mod cache_service;
pub mod progress_service;
pub mod task_service;

pub mod storage;
pub mod savers;
pub mod utils;

pub mod tui;
