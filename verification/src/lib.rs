//! A safety layer over a stateful, global-mutable-state graphics API.
//!
//! The hard problem this library addresses: the underlying graphics machine
//! is a single implicit global (bound program, bound buffer targets, bound
//! framebuffer), and nearly every call's meaning depends on what is
//! currently bound.  The library models that machine as an explicit value
//! ([`machine::GlMachine`]) that records every foreign call it is asked to
//! make and tracks the binding state, and it hands out *binding tokens*
//! ([`context::program_context::ProgramBinding`] and friends) that prove, at
//! verification time, that the resource an operation needs is the one that
//! is currently bound.  A thin unverified shell may replay the recorded
//! calls against the real driver.

pub mod buffer;
pub mod context;
pub mod framebuffer;
pub mod index_data;
pub mod laws;
pub mod machine;
pub mod program;
pub mod renderbuffer;
pub mod shader;
pub mod text;
pub mod texture;
pub mod types;
pub mod uniform_data;
pub mod vertex_buffer;
pub mod vertex_data;
