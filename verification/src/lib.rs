//! Core data model and command language of a DMX lighting console.
//!
//! The crate holds the fixture model (fixture ids and paths), the GDTF
//! attribute catalogue, the command parser with its syntax tree, and a few
//! small value types used by the engine.

pub mod text;
pub mod fixture;
pub mod attribute;
pub mod attribute_round_trip;
pub mod attribute_laws;
pub mod command;
pub mod parser;
pub mod clock;
pub mod selection;
pub mod channel;
pub mod effect;
pub mod gdtf;
pub mod wing;
pub mod queue;

