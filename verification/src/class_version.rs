use vstd::prelude::*;

use crate::error::ParseError;
use crate::reader::{spec_read_u16, Reader};

verus! {

/// The closed set of supported major releases, one per major version
/// number in the supported range.
#[allow(non_camel_case_types)]
#[derive(Debug, PartialEq, Eq, Structural, Copy, Clone)]
pub enum MajorVersion {
    JDK_1_1,
    JDK_1_2,
    JDK_1_3,
    JDK_1_4,
    JDK_5,
    JDK_6,
    JDK_7,
    JDK_8,
    JDK_9,
    JDK_10,
    JDK_11,
    JDK_12,
    JDK_13,
    JDK_14,
    JDK_15,
    JDK_16,
    JDK_17,
    JDK_18,
    JDK_19,
    JDK_20,
    JDK_21,
    JDK_22,
}

/// The wire number of each supported release.
pub open spec fn spec_version_number(v: MajorVersion) -> u16 {
    match v {
        MajorVersion::JDK_1_1 => 45,
        MajorVersion::JDK_1_2 => 46,
        MajorVersion::JDK_1_3 => 47,
        MajorVersion::JDK_1_4 => 48,
        MajorVersion::JDK_5 => 49,
        MajorVersion::JDK_6 => 50,
        MajorVersion::JDK_7 => 51,
        MajorVersion::JDK_8 => 52,
        MajorVersion::JDK_9 => 53,
        MajorVersion::JDK_10 => 54,
        MajorVersion::JDK_11 => 55,
        MajorVersion::JDK_12 => 56,
        MajorVersion::JDK_13 => 57,
        MajorVersion::JDK_14 => 58,
        MajorVersion::JDK_15 => 59,
        MajorVersion::JDK_16 => 60,
        MajorVersion::JDK_17 => 61,
        MajorVersion::JDK_18 => 62,
        MajorVersion::JDK_19 => 63,
        MajorVersion::JDK_20 => 64,
        MajorVersion::JDK_21 => 65,
        MajorVersion::JDK_22 => 66,
    }
}

/// The release a wire number stands for, if it is supported.
pub open spec fn spec_version_of(n: u16) -> Option<MajorVersion> {
    if n == 45 {
        Some(MajorVersion::JDK_1_1)
    } else if n == 46 {
        Some(MajorVersion::JDK_1_2)
    } else if n == 47 {
        Some(MajorVersion::JDK_1_3)
    } else if n == 48 {
        Some(MajorVersion::JDK_1_4)
    } else if n == 49 {
        Some(MajorVersion::JDK_5)
    } else if n == 50 {
        Some(MajorVersion::JDK_6)
    } else if n == 51 {
        Some(MajorVersion::JDK_7)
    } else if n == 52 {
        Some(MajorVersion::JDK_8)
    } else if n == 53 {
        Some(MajorVersion::JDK_9)
    } else if n == 54 {
        Some(MajorVersion::JDK_10)
    } else if n == 55 {
        Some(MajorVersion::JDK_11)
    } else if n == 56 {
        Some(MajorVersion::JDK_12)
    } else if n == 57 {
        Some(MajorVersion::JDK_13)
    } else if n == 58 {
        Some(MajorVersion::JDK_14)
    } else if n == 59 {
        Some(MajorVersion::JDK_15)
    } else if n == 60 {
        Some(MajorVersion::JDK_16)
    } else if n == 61 {
        Some(MajorVersion::JDK_17)
    } else if n == 62 {
        Some(MajorVersion::JDK_18)
    } else if n == 63 {
        Some(MajorVersion::JDK_19)
    } else if n == 64 {
        Some(MajorVersion::JDK_20)
    } else if n == 65 {
        Some(MajorVersion::JDK_21)
    } else if n == 66 {
        Some(MajorVersion::JDK_22)
    } else {
        None
    }
}

impl MajorVersion {
    /// Maps a wire number to its release; a number outside the closed
    /// enumeration is a fatal version error.
    pub fn try_from_u16(n: u16) -> (r: Result<MajorVersion, ParseError>)
        ensures
            match spec_version_of(n) {
                Some(v) => r == Ok::<MajorVersion, ParseError>(v),
                None => r == Err::<MajorVersion, ParseError>(ParseError::UnrecognizedVersion(n)),
            },
    {
        if n == 45 {
            Ok(MajorVersion::JDK_1_1)
        } else if n == 46 {
            Ok(MajorVersion::JDK_1_2)
        } else if n == 47 {
            Ok(MajorVersion::JDK_1_3)
        } else if n == 48 {
            Ok(MajorVersion::JDK_1_4)
        } else if n == 49 {
            Ok(MajorVersion::JDK_5)
        } else if n == 50 {
            Ok(MajorVersion::JDK_6)
        } else if n == 51 {
            Ok(MajorVersion::JDK_7)
        } else if n == 52 {
            Ok(MajorVersion::JDK_8)
        } else if n == 53 {
            Ok(MajorVersion::JDK_9)
        } else if n == 54 {
            Ok(MajorVersion::JDK_10)
        } else if n == 55 {
            Ok(MajorVersion::JDK_11)
        } else if n == 56 {
            Ok(MajorVersion::JDK_12)
        } else if n == 57 {
            Ok(MajorVersion::JDK_13)
        } else if n == 58 {
            Ok(MajorVersion::JDK_14)
        } else if n == 59 {
            Ok(MajorVersion::JDK_15)
        } else if n == 60 {
            Ok(MajorVersion::JDK_16)
        } else if n == 61 {
            Ok(MajorVersion::JDK_17)
        } else if n == 62 {
            Ok(MajorVersion::JDK_18)
        } else if n == 63 {
            Ok(MajorVersion::JDK_19)
        } else if n == 64 {
            Ok(MajorVersion::JDK_20)
        } else if n == 65 {
            Ok(MajorVersion::JDK_21)
        } else if n == 66 {
            Ok(MajorVersion::JDK_22)
        } else {
            Err(ParseError::UnrecognizedVersion(n))
        }
    }

    /// The wire number of this release.
    pub fn number(&self) -> (r: u16)
        ensures
            r == spec_version_number(*self),
    {
        match self {
            MajorVersion::JDK_1_1 => 45,
            MajorVersion::JDK_1_2 => 46,
            MajorVersion::JDK_1_3 => 47,
            MajorVersion::JDK_1_4 => 48,
            MajorVersion::JDK_5 => 49,
            MajorVersion::JDK_6 => 50,
            MajorVersion::JDK_7 => 51,
            MajorVersion::JDK_8 => 52,
            MajorVersion::JDK_9 => 53,
            MajorVersion::JDK_10 => 54,
            MajorVersion::JDK_11 => 55,
            MajorVersion::JDK_12 => 56,
            MajorVersion::JDK_13 => 57,
            MajorVersion::JDK_14 => 58,
            MajorVersion::JDK_15 => 59,
            MajorVersion::JDK_16 => 60,
            MajorVersion::JDK_17 => 61,
            MajorVersion::JDK_18 => 62,
            MajorVersion::JDK_19 => 63,
            MajorVersion::JDK_20 => 64,
            MajorVersion::JDK_21 => 65,
            MajorVersion::JDK_22 => 66,
        }
    }
}

/// The two-part version carried by the header: the release the major
/// number maps to, and the raw minor number.
#[derive(Debug, PartialEq, Eq, Structural, Copy, Clone)]
pub struct ClassVersion {
    pub major: MajorVersion,
    pub minor: u16,
}

impl ClassVersion {
    pub fn new(major: MajorVersion, minor: u16) -> (r: Self)
        ensures
            r.major == major,
            r.minor == minor,
    {
        Self { major, minor }
    }
}

/// The sequential decode of the version pair: minor first, then the
/// major number, which must map to a supported release.
pub open spec fn spec_parse_version(b: Seq<u8>, pos: int) -> Result<
    (ClassVersion, int),
    ParseError,
> {
    match spec_read_u16(b, pos) {
        Err(e) => Err(e),
        Ok((minor, p1)) => match spec_read_u16(b, p1) {
            Err(e) => Err(e),
            Ok((n, p2)) => match spec_version_of(n) {
                Some(major) => Ok((ClassVersion { major, minor }, p2)),
                None => Err(ParseError::UnrecognizedVersion(n)),
            },
        },
    }
}

/// Decodes the version pair from the byte source.
pub fn read_version(reader: &mut Reader) -> (r: Result<ClassVersion, ParseError>)
    requires
        old(reader).wf(),
    ensures
        final(reader).wf(),
        final(reader).data@ == old(reader).data@,
        match spec_parse_version(old(reader).data@, old(reader).pos as int) {
            Ok((v, p)) => r == Ok::<ClassVersion, ParseError>(v) && final(reader).pos == p,
            Err(e) => r == Err::<ClassVersion, ParseError>(e),
        },
{
    let minor = reader.read_u16()?;
    let n = reader.read_u16()?;
    let major = MajorVersion::try_from_u16(n)?;
    Ok(ClassVersion::new(major, minor))
}

} // verus!
