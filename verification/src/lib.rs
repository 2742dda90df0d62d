//! A web application firewall: policy rules decide which requests are
//! refused, and the rest are routed to upstream servers by host name or by
//! path prefix.

pub mod config;
pub mod domain;
pub mod outside;
pub mod request;
pub mod text;
pub mod virtualserver;
