//! A capability host composition engine.
//!
//! This library assembles the host side of a sandboxed execution environment
//! for a single untrusted guest module.  Declarative configuration selects a
//! set of pluggable backend resources ("capabilities"); the library resolves
//! each declared capability name, links the chosen resources into a shared
//! resource table, and sequences the run: build the primary environment,
//! build and adopt secondary instantiations for capabilities that call back
//! into guest code asynchronously, execute the module's entry point, and wait
//! for a shutdown signal when a serving capability is active.
//!
//! The execution engine itself (loading, instantiating and invoking a guest
//! module) and the individual capability backends are external collaborators:
//! the library decides *what* to build, link and invoke, and an unverified
//! driver performs those engine operations, reporting each outcome back as an
//! event to the run orchestrator.

pub mod builder;
pub mod capability;
pub mod config;
pub mod errors;
pub mod orchestrator;
pub mod table;
