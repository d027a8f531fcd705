use vstd::prelude::*;

use crate::error::{FlagContext, ParseError};
use crate::reader::{spec_read_u16, Reader};

verus! {

/// The fixed legal-bit mask of each flag context.
pub open spec fn spec_legal_mask(c: FlagContext) -> u16 {
    match c {
        FlagContext::Class => 0xF631,
        FlagContext::Field => 0x1DFF,
        FlagContext::Method => 0x1DFF,
        FlagContext::InnerClass => 0x761F,
        FlagContext::Module => 0x9020,
        FlagContext::Requires => 0x9060,
        FlagContext::Exports => 0x9000,
        FlagContext::Opens => 0x9000,
        FlagContext::MethodParameter => 0x9010,
    }
}

/// A raw flag word is legal in a context when no bit falls outside the
/// context's mask.
pub open spec fn spec_flags_legal(bits: u16, c: FlagContext) -> bool {
    bits & !spec_legal_mask(c) == 0
}

/// A context-checked set of access flags. The invariant is that every
/// set bit lies inside the legal mask of the context the set was
/// validated against.
#[derive(Debug, PartialEq, Eq, Structural, Copy, Clone)]
pub struct AccessFlags {
    pub bits: u16,
    pub context: FlagContext,
}

impl AccessFlags {
    /// No set bit falls outside the context's legal mask.
    pub open spec fn wf(&self) -> bool {
        spec_flags_legal(self.bits, self.context)
    }

    /// The fixed legal-bit mask of a flag context.
    pub fn legal_mask(c: FlagContext) -> (r: u16)
        ensures
            r == spec_legal_mask(c),
    {
        match c {
            FlagContext::Class => 0xF631,
            FlagContext::Field => 0x1DFF,
            FlagContext::Method => 0x1DFF,
            FlagContext::InnerClass => 0x761F,
            FlagContext::Module => 0x9020,
            FlagContext::Requires => 0x9060,
            FlagContext::Exports => 0x9000,
            FlagContext::Opens => 0x9000,
            FlagContext::MethodParameter => 0x9010,
        }
    }

    /// Checks a raw flag word against a context's mask. A bit outside
    /// the mask is fatal to the enclosing structure's decode.
    pub fn validate(bits: u16, c: FlagContext) -> (r: Result<AccessFlags, ParseError>)
        ensures
            spec_flags_legal(bits, c) ==> r == Ok::<AccessFlags, ParseError>(
                AccessFlags { bits, context: c },
            ),
            !spec_flags_legal(bits, c) ==> r == Err::<AccessFlags, ParseError>(
                ParseError::InvalidAccessFlags(c, bits),
            ),
    {
        let mask = Self::legal_mask(c);
        if bits & !mask == 0 {
            Ok(AccessFlags { bits, context: c })
        } else {
            Err(ParseError::InvalidAccessFlags(c, bits))
        }
    }

    /// Membership query: whether every bit of `flag` is set.
    pub fn contains(&self, flag: u16) -> (r: bool)
        ensures
            r == (self.bits & flag == flag),
    {
        self.bits & flag == flag
    }

    /// The raw word the set was validated from.
    pub fn bits(&self) -> (r: u16)
        ensures
            r == self.bits,
    {
        self.bits
    }
}

/// The sequential decode of a flag word in a given context.
pub open spec fn spec_parse_flags(b: Seq<u8>, pos: int, c: FlagContext) -> Result<
    (AccessFlags, int),
    ParseError,
> {
    match spec_read_u16(b, pos) {
        Err(e) => Err(e),
        Ok((bits, p)) => if spec_flags_legal(bits, c) {
            Ok((AccessFlags { bits, context: c }, p))
        } else {
            Err(ParseError::InvalidAccessFlags(c, bits))
        },
    }
}

/// Decodes and validates one flag word from the byte source.
pub fn read_flags(reader: &mut Reader, c: FlagContext) -> (r: Result<AccessFlags, ParseError>)
    requires
        old(reader).wf(),
    ensures
        final(reader).wf(),
        final(reader).data@ == old(reader).data@,
        match spec_parse_flags(old(reader).data@, old(reader).pos as int, c) {
            Ok((v, p)) => r == Ok::<AccessFlags, ParseError>(v) && final(reader).pos == p && v.wf(),
            Err(e) => r == Err::<AccessFlags, ParseError>(e),
        },
{
    let bits = reader.read_u16()?;
    AccessFlags::validate(bits, c)
}

} // verus!
