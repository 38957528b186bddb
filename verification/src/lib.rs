//! Feed aggregation for a personalised content feed, and the hourly scheduler
//! of the analytics that the feed's ranking rests on.
//!
//! The library decides; its caller talks to the backends. A request for a
//! feed is a [`feed::FeedState`] that asks its caller for one action at a
//! time, and the scheduler is a [`scheduler::SchedulerState`] that does the
//! same. What is asked of the graph backend is a [`gateway::Request`], and
//! what comes back is a [`gateway::Outcome`] of plain [`row::Row`]s.
//!
//! - [`candidates`]: the candidate sources, their rows, and failed sources
//! - [`deduplicator`]: merging candidate sets, first seen first
//! - [`ranking`]: the similarity ranking and the bound on a feed
//! - [`reading`]: what reading a row by the shape of a request keeps
//! - [`feed`]: a request for a feed from identity to reply
//! - [`scheduler`]: the hourly analytics cycle
//! - [`search`]: the rules of the user search service
//! - [`http`], [`model`], [`settings`]: replies, their bodies, and defaults

pub mod candidates;
pub mod deduplicator;
pub mod feed;
pub mod gateway;
pub mod http;
pub mod model;
pub mod ranking;
pub mod reading;
pub mod row;
pub mod scheduler;
pub mod search;
pub mod settings;
