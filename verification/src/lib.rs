//! Servlets for a dataflow host, with their rules proved.
//!
//! A servlet is a unit of dataflow logic that a host loads and drives: the
//! host makes instances, sets each up once, activates it whenever data
//! arrives, and takes it down at the end. The host owns scheduling, the
//! pipes between servlets and the schema of the typed data. This crate is
//! the layer between the two. It gives the servlet typed objects to work
//! with, turns the host's calls into calls of the servlet and the servlet's
//! results into statuses, and holds both sides to the order of an
//! instance's life.
//!
//! * [`servlet`] says what a servlet is: the traits for the synchronous and
//!   the asynchronous mode, and the bootstrap that chooses between them.
//! * [`rust_servlet`] holds the entry points that the host calls, and the
//!   tables of the instances and tasks that the host knows by a word.
//! * [`pipe`] is the servlet's handle on a pipe, with the state that
//!   outlives an activation.
//! * [`protocol`] binds the fields of the schema to typed readers, and
//!   [`scalar`] says which value the bytes of a field stand for.
//! * [`host`] is the host as this crate sees it: one trait, threaded through
//!   every call.
//! * [`arena`] keeps the objects that the host holds words for.
//! * [`log`] and [`plumber_api_call`] prepare text for the host.
//! * [`example`] is a small servlet written against all of this.
//!
//! Everything here is verified with Verus. What is proved of a function that
//! calls the host, or the servlet, holds for every answer that either may
//! give.

pub mod arena;
pub mod example;
pub mod host;
pub mod log;
pub mod pipe;
pub mod plumber_api_call;
pub mod protocol;
pub mod rust_servlet;
pub mod scalar;
pub mod servlet;
