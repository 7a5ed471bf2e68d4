//! Registration of native functions and methods with a scripting engine, and the
//! dispatch of the engine's calls to them.
//!
//! The engine calls every registered callable through one entry point,
//! [`functions::invoke`]. A registration hands the engine a record
//! ([`sys::FunctionEntry`]) whose argument-info array ends in a sentinel cell
//! that names the callable; the entry point finds the callable again through that
//! cell, checks the number of arguments, and calls the native handler.
//!
//! Addresses of the engine's format are identities here: a callable is named by its
//! place in a [`registry::Registry`], a receiver and a class by an opaque word.

pub mod errors;
pub mod functions;
pub mod objects;
pub mod registry;
pub mod sys;
pub mod values;
pub mod zend;
