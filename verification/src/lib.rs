//! An execution engine for a small language whose functions run their body
//! again and again until a limit expression holds.
//!
//! - `token` and `parser` read a list of tokens as a syntax tree; `ast` holds
//!   the tree, its grammar and what evaluating it means.
//! - `interp` holds the runtime data: values and their kinds, callables,
//!   exceptions and the environment.
//! - `laws`, `frame` and `budget` state what holds of every program.
//!
//! The engine performs no input or output. A program's writes are recorded
//! in the environment, in order, for whoever runs the engine to perform.
//! Every evaluation takes a step budget, so that it ends; `budget` shows
//! that the budget changes nothing but whether an evaluation is cut short.

pub mod ast;
pub mod budget;
pub mod cmd;
pub mod frame;
pub mod interp;
pub mod laws;
pub mod parser;
pub mod text;
pub mod token;
