//! On-demand image conversion: the request pipeline of an HTTP image
//! service, from content negotiation and cache validation to the rules
//! that guard the transform stage.

pub mod config;
pub mod domain;
pub mod error;
pub mod text;
pub mod web;
