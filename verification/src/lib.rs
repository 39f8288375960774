//! A client for the query endpoint of InfluxDB v2.
//!
//! A Flux query is written as a template with `{{name}}` placeholders and
//! rendered under a map of typed parameters, so that every value enters the
//! query in the literal form of its kind. The client wraps the rendering into
//! the HTTP request that submits it and judges the response. The library
//! performs no I/O: requests and responses are plain data.

pub mod builder;
pub mod client;
pub mod error;
pub mod grammar;
pub mod laws;
pub mod params;
pub mod text;
pub mod value;

pub use builder::QueryBuilder;
pub use client::{
    classify_response, is_success, Client, Config, InfluxdbErrorResponse, Method, Request,
};
pub use error::{Error, RenderError};
pub use params::Params;
pub use value::{decode_string_literal, FluxValue};
