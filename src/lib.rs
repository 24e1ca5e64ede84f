//! Electronic invoice delivery: a durable job model for submissions, the
//! delivery backends' request shapes and status vocabularies, invoice field
//! extraction and validation, audit events and backend configuration.
//!
//! The library decides; the program around it performs. Every network
//! call, file write and wait happens outside, and its outcome comes back
//! into the library as a plain value.

pub mod text;
pub mod boundary;
pub mod xml;
pub mod models;
pub mod parsing;
pub mod validation;
pub mod delivery;
pub mod mock;
pub mod div_types;
pub mod div_service;
pub mod unifiedpost;
pub mod audit;
pub mod queue;
pub mod config;
pub mod commands;
