//! A decoder for the class-file container format: a big-endian,
//! densely packed binary layout holding a versioned header, a constant
//! table with a two-slot quirk for wide numeric entries, typed
//! cross-references into that table, context-checked access-flag words,
//! and named, variable-shape attribute records.
//!
//! Decoding runs in two strictly ordered phases. The structural phase
//! reads the whole file in one pass, keeping every attribute payload as
//! opaque bytes, because attribute identity is name-based and the names
//! live in the very table being built. The classification pass then
//! resolves each attribute's name against the complete table and
//! re-parses its payload into a typed record, recursing into the nested
//! attribute lists of Code and Record payloads. A structural failure
//! aborts the decode with no partial value; a classification failure is
//! confined to its attribute and reported in a diagnostics list.

pub mod access_flags;
pub mod attr_parse;
pub mod attributes;
pub mod class;
pub mod class_version;
pub mod classify;
pub mod const_pool;
pub mod const_types;
pub mod error;
pub mod reader;
pub mod text;
pub mod wire;
