//! An object and property model for a dynamic scripting-language runtime.
//!
//! [`primitives`] holds the leaf values, [`object`] the property keys,
//! properties and object kinds together with their internal methods,
//! [`tracing`] the edges that a reachability tracer follows from an object,
//! and [`parser`] the lexical scanner for white space, line terminators and
//! comments. [`property_map`] says what is taken on trust about the ordered
//! mapping that holds the properties of an object.

pub mod object;
pub mod parser;
pub mod primitives;
pub mod property_map;
pub mod tracing;
