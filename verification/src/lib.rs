//! A verified core for JSONLogic rule processing: the JSON value model,
//! path lookup, truthiness and numeric coercion, JSON rendering, the
//! evaluation context stack, and the rule compiler with its optimiser.

pub mod compile;
pub mod config;
pub mod constants;
pub mod context;
pub mod engine;
pub mod error;
pub mod eval;
pub mod interner;
pub mod json;
pub mod laws;
pub mod node;
pub mod opcode;
pub mod operator;
pub mod optimize;
pub mod path;
pub mod singletons;
pub mod strbuf;
pub mod text;
pub mod truthy;
pub mod value;
