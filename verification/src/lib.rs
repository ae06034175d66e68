//! A native-library build-and-bind pipeline.
//!
//! The library takes a description of one build unit (foreign C source
//! files, C header files, an artifact name and an output directory),
//! plans the compiler invocations that turn the sources into a single
//! linkable artifact, translates the headers' exported symbols into
//! host-language declarations, and computes the link directives a
//! consuming build must apply.  All decisions are made here and are
//! verified; launching the compiler and touching the filesystem are
//! left to the (unverified) caller, which feeds results back in as
//! plain values.

pub mod artifact;
pub mod bytes;
pub mod config;
pub mod decl;
pub mod emit;
pub mod error;
pub mod laws;
pub mod parse;
pub mod pipeline;
pub mod render;
pub mod scan;
pub mod toolchain;
pub mod translate;
