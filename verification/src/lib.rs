//! Realm records of an ECMAScript engine.
//!
//! Conceptually, a realm consists of a set of intrinsic objects, an ECMAScript global environment,
//! all of the ECMAScript code that is loaded within the scope of that global environment,
//! and other associated state and resources.

pub mod class;
pub mod engine;
pub mod environment;
pub mod error;
mod fx_map;
pub mod laws;
pub mod meaning;
pub mod object;
pub mod realm;
pub mod state;
pub mod string;
