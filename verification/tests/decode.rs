use classfile::attributes::{Attribute, AttributeInfo, LineNumber, Unknown};
use classfile::class::{decode_class, Class};
use classfile::class_version::MajorVersion;
use classfile::const_types::{ConstItem, Index};
use classfile::error::{FlagContext, ParseError};

fn push_u16(out: &mut Vec<u8>, v: u16) {
    out.push((v >> 8) as u8);
    out.push(v as u8);
}

fn push_u32(out: &mut Vec<u8>, v: u32) {
    out.push((v >> 24) as u8);
    out.push((v >> 16) as u8);
    out.push((v >> 8) as u8);
    out.push(v as u8);
}

fn push_utf8_entry(out: &mut Vec<u8>, s: &str) {
    out.push(1);
    push_u16(out, s.len() as u16);
    out.extend_from_slice(s.as_bytes());
}

/// A class file header up to and including the constant table, with the
/// given string entries in slots 1.., under major version 52.
fn header_with_strings(strings: &[&str]) -> Vec<u8> {
    let mut out = Vec::new();
    push_u32(&mut out, 0xCAFEBABE);
    push_u16(&mut out, 0); // minor
    push_u16(&mut out, 52); // major
    push_u16(&mut out, (strings.len() + 1) as u16);
    for s in strings {
        push_utf8_entry(&mut out, s);
    }
    out
}

#[test]
fn minimal_class_decodes() {
    // Scenario: a header starting CA FE BA BE 00 00 00 34 is accepted,
    // with minor 0 and the major number mapped to the 52 release.
    let mut bytes = header_with_strings(&[]);
    push_u16(&mut bytes, 0x0021); // class flags: public, super
    push_u16(&mut bytes, 1); // this
    push_u16(&mut bytes, 0); // super
    push_u16(&mut bytes, 0); // interfaces
    push_u16(&mut bytes, 0); // fields
    push_u16(&mut bytes, 0); // methods
    push_u16(&mut bytes, 0); // attributes
    assert_eq!(bytes[0..8], [0xCA, 0xFE, 0xBA, 0xBE, 0x00, 0x00, 0x00, 0x34]);
    let (class, diags): (Class, Vec<ParseError>) = decode_class(bytes).unwrap();
    assert_eq!(class.magic, 0xCAFEBABE);
    assert_eq!(class.version.minor, 0);
    assert_eq!(class.version.major, MajorVersion::JDK_8);
    assert_eq!(class.constant_pool.entries.len(), 1);
    assert!(class.access_flags.contains(0x0001));
    assert_eq!(class.this_class.index(), 1);
    assert_eq!(class.super_class.index(), 0);
    assert!(class.interfaces.is_empty());
    assert!(class.fields.is_empty());
    assert!(class.methods.is_empty());
    assert!(class.attributes.is_empty());
    assert!(diags.is_empty());
}

#[test]
fn bad_magic_is_fatal() {
    // Scenario: input beginning 00 00 00 00 fails outright, with no
    // partial structure.
    let bytes = vec![0, 0, 0, 0, 1, 2, 3, 4, 5, 6];
    assert_eq!(decode_class(bytes), Err(ParseError::InvalidMagic(0)));
}

#[test]
fn unknown_version_is_fatal() {
    let mut bytes = Vec::new();
    push_u32(&mut bytes, 0xCAFEBABE);
    push_u16(&mut bytes, 0);
    push_u16(&mut bytes, 16);
    assert_eq!(decode_class(bytes), Err(ParseError::UnrecognizedVersion(16)));
}

#[test]
fn bad_class_flags_are_fatal() {
    let mut bytes = header_with_strings(&[]);
    push_u16(&mut bytes, 0x0002); // private: outside the class mask
    assert_eq!(
        decode_class(bytes),
        Err(ParseError::InvalidAccessFlags(FlagContext::Class, 0x0002))
    );
}

#[test]
fn truncated_input_is_fatal() {
    let mut bytes = header_with_strings(&[]);
    push_u16(&mut bytes, 0x0021);
    // ends before the class references
    assert_eq!(decode_class(bytes), Err(ParseError::Io));
}

/// A class whose single method carries a Code attribute, and whose Code
/// payload carries a LineNumberTable attribute of its own.
fn class_with_nested_code() -> Vec<u8> {
    let mut bytes = header_with_strings(&["Code", "LineNumberTable"]);
    push_u16(&mut bytes, 0x0021); // class flags
    push_u16(&mut bytes, 1); // this
    push_u16(&mut bytes, 0); // super
    push_u16(&mut bytes, 0); // interfaces
    push_u16(&mut bytes, 0); // fields
    push_u16(&mut bytes, 1); // one method
    push_u16(&mut bytes, 0x0001); // method flags: public
    push_u16(&mut bytes, 1); // name
    push_u16(&mut bytes, 1); // descriptor
    push_u16(&mut bytes, 1); // one method attribute
    push_u16(&mut bytes, 1); // its name: "Code"
    // the Code payload, with one nested LineNumberTable attribute
    let mut payload = Vec::new();
    push_u16(&mut payload, 1); // max_stack
    push_u16(&mut payload, 2); // max_locals
    push_u32(&mut payload, 1); // code length
    payload.push(0xB1); // one uninterpreted opcode byte
    push_u16(&mut payload, 0); // exception table length
    push_u16(&mut payload, 1); // one nested attribute
    push_u16(&mut payload, 2); // its name: "LineNumberTable"
    push_u32(&mut payload, 6); // its length
    push_u16(&mut payload, 1); // one line-number row
    push_u16(&mut payload, 0); // start_pc
    push_u16(&mut payload, 7); // line_number
    push_u32(&mut bytes, payload.len() as u32);
    bytes.extend_from_slice(&payload);
    push_u16(&mut bytes, 0); // class attributes
    bytes
}

#[test]
fn classification_recurses_into_code() {
    // Scenario: after phase one both payloads are opaque bytes; the
    // classification pass types the Code payload and recurses into its
    // nested list.
    let (class, diags) = decode_class(class_with_nested_code()).unwrap();
    assert!(diags.is_empty());
    assert_eq!(class.methods.len(), 1);
    let method = &class.methods[0];
    assert_eq!(method.attributes.len(), 1);
    match &method.attributes[0].info {
        AttributeInfo::Code(code) => {
            assert_eq!(code.max_stack, 1);
            assert_eq!(code.max_locals, 2);
            assert_eq!(code.code, vec![0xB1]);
            assert!(code.exception_table.is_empty());
            assert_eq!(code.attributes.len(), 1);
            match &code.attributes[0].info {
                AttributeInfo::LineNumberTable(t) => {
                    assert_eq!(
                        t.line_number_table,
                        vec![LineNumber { start_pc: 0, line_number: 7 }]
                    );
                }
                other => panic!("nested attribute not classified: {:?}", other),
            }
        }
        other => panic!("Code attribute not classified: {:?}", other),
    }
}

/// A class with two class-level attributes: one under an unknown
/// vendor name, one valid SourceFile.
fn class_with_vendor_attribute() -> Vec<u8> {
    let mut bytes = header_with_strings(&["XyzVendor", "SourceFile", "A.java"]);
    push_u16(&mut bytes, 0x0021);
    push_u16(&mut bytes, 1);
    push_u16(&mut bytes, 0);
    push_u16(&mut bytes, 0); // interfaces
    push_u16(&mut bytes, 0); // fields
    push_u16(&mut bytes, 0); // methods
    push_u16(&mut bytes, 2); // two class attributes
    push_u16(&mut bytes, 1); // "XyzVendor"
    push_u32(&mut bytes, 3);
    bytes.extend_from_slice(&[1, 2, 3]);
    push_u16(&mut bytes, 2); // "SourceFile"
    push_u32(&mut bytes, 2);
    push_u16(&mut bytes, 3); // its payload: a reference to "A.java"
    bytes
}

#[test]
fn unknown_attribute_keeps_its_bytes() {
    // Scenario: an attribute under an unrecognized name classifies into
    // the explicit Unknown payload with the original bytes, and its
    // sibling is decoded as usual.
    let (class, diags) = decode_class(class_with_vendor_attribute()).unwrap();
    assert!(diags.is_empty());
    assert_eq!(class.attributes.len(), 2);
    assert_eq!(
        class.attributes[0],
        Attribute {
            attribute_name_index: Index::new(1),
            info: AttributeInfo::Unknown(Unknown { bytes: vec![1, 2, 3] }),
        }
    );
    match &class.attributes[1].info {
        AttributeInfo::SourceFile(sf) => assert_eq!(sf.sourcefile_index.index(), 3),
        other => panic!("SourceFile not classified: {:?}", other),
    }
}

#[test]
fn classification_is_idempotent() {
    let (mut class, _) = decode_class(class_with_vendor_attribute()).unwrap();
    let mut diags: Vec<ParseError> = Vec::new();
    class.attributes[0].classify(&class.constant_pool, &mut diags);
    class.attributes[1].classify(&class.constant_pool, &mut diags);
    assert!(diags.is_empty());
    assert_eq!(
        class.attributes[0],
        Attribute {
            attribute_name_index: Index::new(1),
            info: AttributeInfo::Unknown(Unknown { bytes: vec![1, 2, 3] }),
        }
    );
    match &class.attributes[1].info {
        AttributeInfo::SourceFile(sf) => assert_eq!(sf.sourcefile_index.index(), 3),
        other => panic!("SourceFile not kept: {:?}", other),
    }
}

#[test]
fn malformed_payload_is_isolated() {
    // a recognized name whose bytes fail to parse leaves the attribute
    // opaque, reports a diagnostic, and never aborts the decode
    let mut bytes = header_with_strings(&["SourceFile", "A.java"]);
    push_u16(&mut bytes, 0x0021);
    push_u16(&mut bytes, 1);
    push_u16(&mut bytes, 0);
    push_u16(&mut bytes, 0);
    push_u16(&mut bytes, 0);
    push_u16(&mut bytes, 0);
    push_u16(&mut bytes, 2);
    push_u16(&mut bytes, 1); // "SourceFile", but one byte short
    push_u32(&mut bytes, 1);
    bytes.push(0);
    push_u16(&mut bytes, 1); // a well-formed sibling
    push_u32(&mut bytes, 2);
    push_u16(&mut bytes, 2);
    let (class, diags) = decode_class(bytes).unwrap();
    assert_eq!(diags, vec![ParseError::Io]);
    assert_eq!(
        class.attributes[0].info,
        AttributeInfo::Unknown(Unknown { bytes: vec![0] })
    );
    match &class.attributes[1].info {
        AttributeInfo::SourceFile(sf) => assert_eq!(sf.sourcefile_index.index(), 2),
        other => panic!("sibling was not classified: {:?}", other),
    }
}

#[test]
fn unresolvable_attribute_name_is_isolated() {
    // a name reference pointing at slot 0 cannot resolve; the attribute
    // stays opaque and the failure comes back as a diagnostic
    let mut bytes = header_with_strings(&[]);
    push_u16(&mut bytes, 0x0021);
    push_u16(&mut bytes, 1);
    push_u16(&mut bytes, 0);
    push_u16(&mut bytes, 0);
    push_u16(&mut bytes, 0);
    push_u16(&mut bytes, 0);
    push_u16(&mut bytes, 1);
    push_u16(&mut bytes, 0); // name index 0: a mandatory reference
    push_u32(&mut bytes, 1);
    bytes.push(9);
    let (class, diags) = decode_class(bytes).unwrap();
    assert_eq!(diags.len(), 1);
    assert_eq!(
        class.attributes[0].info,
        AttributeInfo::Unknown(Unknown { bytes: vec![9] })
    );
}
