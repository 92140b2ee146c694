//! A source-to-source rewriting pass over ECMAScript syntax trees.
//!
//! Given a script whose code reads properties off an implicit receiver
//! (`this`), the pass rewrites every such read so it is routed through a
//! single tracking accessor method `this._c`, carrying the read's
//! fully-qualified property path as a string plus the read's original value.
//! A second pass erases the compile-time probe marker `this._p(e)`, whose
//! lexical extent is where property names are collected.
//!
//! Parsing source text into this tree and printing the rewritten tree back
//! out are the host's business; the library works on plain syntax trees.

pub mod ast;
pub mod config;
pub mod eraser;
pub mod rewrite;
pub mod scope;
pub mod transform;
pub mod visitor;
