//! A watchdog for a moderation inbox: decides, cycle by cycle, whether an
//! unhandled report is old enough that the monitored service must be shut
//! down. The verdict over a report list, the classification of fetch
//! failures, the retry machine with its backoff and escalation, the
//! startup configuration and the notification payload all carry verified
//! contracts; the surrounding process does the network and process work.

pub mod account;
pub mod config;
pub mod error;
pub mod evaluate;
pub mod fetch;
pub mod report;
pub mod retry;
pub mod webhook;
