//! Builds a strongly typed book outline — ordered groups of chapters, each
//! possibly holding nested sub-chapters — out of a generic, dynamically typed
//! tree of nodes such as a markup parser produces.
//!
//! The crate is organised around three responsibilities:
//! - classifying a generic node as one of the legal chapter shapes
//!   ([`node`], [`outline`]),
//! - building a [`chapter::Chapter`] for each shape, applying field defaults
//!   ([`outline`]),
//! - driving that construction over ordered sequences of nodes, at the top
//!   level and for nested section lists ([`outline`]).
//!
//! Parsing markup text into the generic tree, and probing the real
//! filesystem, are left to the caller: the build functions take the tree as a
//! [`node::Node`] value and the set of existing paths as a
//! [`filesystem::Filesystem`] value.

pub mod chapter;
pub mod filesystem;
pub mod laws;
pub mod node;
pub mod outline;
pub mod text;
