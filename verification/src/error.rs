use vstd::prelude::*;

verus! {

/// The kind of entry a table slot is expected to hold, carried inside
/// resolution errors and used by the kind check of typed references.
#[derive(Clone, Copy, PartialEq, Eq, Structural, Debug)]
pub enum EntryKind {
    Utf8,
    Integer,
    Float,
    Long,
    Double,
    Class,
    StringJ,
    FieldRef,
    MethodRef,
    InterfaceMethodRef,
    NameAndType,
    MethodHandle,
    MethodType,
    Dynamic,
    InvokeDynamic,
    Module,
    Package,
    /// Any entry kind is acceptable at the referenced slot.
    Any,
}

/// Where an unrecognized one-byte tag was met.
#[derive(Clone, Copy, PartialEq, Eq, Structural, Debug)]
pub enum TagContext {
    /// The kind tag in front of a constant-table entry.
    ConstantTag,
    /// The reference-kind byte of a method-handle entry.
    MethodHandleKind,
}

/// Which legal-bit mask a raw access-flag word was checked against.
#[derive(Clone, Copy, PartialEq, Eq, Structural, Debug)]
pub enum FlagContext {
    Class,
    Field,
    Method,
    InnerClass,
    Module,
    Requires,
    Exports,
    Opens,
    MethodParameter,
}

/// Everything that can go wrong while decoding a class file.
///
/// Errors met during header, table, flag or list-structure decoding are
/// fatal and abort the whole decode; errors met while classifying one
/// attribute are caught by the classification pass and reported as
/// diagnostics instead.
#[derive(Clone, Copy, PartialEq, Eq, Structural, Debug)]
pub enum ParseError {
    /// The input ended before the bytes a structure declared were read.
    Io,
    /// The four leading bytes were not the expected sentinel.
    InvalidMagic(u32),
    /// The major version is not one of the supported releases.
    UnrecognizedVersion(u16),
    /// A one-byte kind tag matched no known kind.
    UnrecognizedTag(TagContext, u8),
    /// A raw flag word had a bit set outside its context's legal mask.
    InvalidAccessFlags(FlagContext, u16),
    /// A table reference could not be resolved: slot number and the kind
    /// that was expected there.
    Resolution(u16, EntryKind),
}

} // verus!
