//! Verified core of a desktop client for the Harvest time-tracking service.

pub mod text;
pub mod models;
pub mod client;
pub mod http;
pub mod api;
pub mod clock;
pub mod credentials;
pub mod timer;
pub mod icon;
pub mod ui;
