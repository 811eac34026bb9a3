//! Rules of a small per-day counter service: who may write a day's counters,
//! which requests count as pageviews, how stored rows become responses, and
//! the statements the row store is driven with.

pub mod auth;
pub mod calendar;
pub mod model;
pub mod pageview;
pub mod storage;
pub mod text;
