pub mod api;
pub mod client;
pub mod coin_futures;
pub mod config;
pub mod encode;
pub mod error;
pub mod json;
pub mod response;
pub mod rest_model;
pub mod service;
pub mod text;
