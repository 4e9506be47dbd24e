//! A Prometheus exporter for Pi-hole: its configuration, its scrape logic and
//! the answers of its HTTP endpoints, with their contracts.
pub mod api;
pub mod catalog;
pub mod collect;
pub mod config;
pub mod http;
pub mod info;
pub mod metrics;
pub mod model;
pub mod samples;
pub mod startup;
pub mod text;
pub mod upstream;
