//! Authentication and user-identity core of a content API: password hashing
//! with a pepper, signed time-bounded identity tokens, the closed set of
//! indexed lookup fields, and the registration / login / identity-refresh
//! decisions, stated as contracts and proved.

pub mod auth_token;
pub mod config;
pub mod error;
pub mod field;
pub mod hasher;
pub mod jwt;
pub mod local;
pub mod service;
pub mod table;
pub mod user;
