//! Bridges Rust futures and Python's `asyncio`.
//!
//! [`convert`] turns a Rust future into a Python awaitable, [`run`] drives one to completion on an
//! event loop, [`locals`] finds the event loop and the context of the current task. What they do to
//! Python is on the record of an [`Interpreter`](interpreter::Interpreter), and their contracts say
//! what is on it. [`cancel`] and [`delivery`] hold what happens to a converted future afterwards.
//! [`effects`] states what each function does, down to the methods that are called, and [`laws`]
//! what holds across functions.

pub mod cancel;
pub mod convert;
pub mod delivery;
pub mod effects;
pub mod event_loop;
pub mod interpreter;
pub mod laws;
pub mod locals;
pub mod oneshot;
pub mod python;
pub mod run;
pub mod runtime;
