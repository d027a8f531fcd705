use classfile::attributes::{AttributeInfo, MethodParameter};
use classfile::class::decode_class;
use classfile::const_pool::read_pool;
use classfile::error::{FlagContext, ParseError};
use classfile::reader::Reader;

fn w16(out: &mut Vec<u8>, v: u16) {
    out.push((v >> 8) as u8);
    out.push(v as u8);
}

fn w32(out: &mut Vec<u8>, v: u32) {
    out.push((v >> 24) as u8);
    out.push((v >> 16) as u8);
    out.push((v >> 8) as u8);
    out.push(v as u8);
}

/// A header, table of string entries, empty interface/field/method
/// lists, and a declared number of class-level attributes.
fn class_prefix(strings: &[&str], attr_count: u16) -> Vec<u8> {
    let mut out = Vec::new();
    w32(&mut out, 0xCAFEBABE);
    w16(&mut out, 0);
    w16(&mut out, 52);
    w16(&mut out, (strings.len() + 1) as u16);
    for s in strings {
        out.push(1);
        w16(&mut out, s.len() as u16);
        out.extend_from_slice(s.as_bytes());
    }
    w16(&mut out, 0x0021); // class flags
    w16(&mut out, 1); // this
    w16(&mut out, 0); // super
    w16(&mut out, 0); // interfaces
    w16(&mut out, 0); // fields
    w16(&mut out, 0); // methods
    w16(&mut out, attr_count);
    out
}

#[test]
fn record_classification_recurses_into_components() {
    let mut bytes = class_prefix(&["Record", "Signature", "comp"], 1);
    let mut payload = Vec::new();
    w16(&mut payload, 1); // one component
    w16(&mut payload, 3); // its name
    w16(&mut payload, 3); // its descriptor
    w16(&mut payload, 1); // one component attribute
    w16(&mut payload, 2); // named "Signature"
    w32(&mut payload, 2);
    w16(&mut payload, 3); // signature reference
    w16(&mut bytes, 1); // attribute named "Record"
    w32(&mut bytes, payload.len() as u32);
    bytes.extend_from_slice(&payload);
    let (class, diags) = decode_class(bytes).unwrap();
    assert!(diags.is_empty());
    match &class.attributes[0].info {
        AttributeInfo::Record(rec) => {
            assert_eq!(rec.components.len(), 1);
            let comp = &rec.components[0];
            assert_eq!(comp.name_index.index(), 3);
            assert_eq!(comp.descriptor_index.index(), 3);
            match &comp.attributes[0].info {
                AttributeInfo::Signature(sig) => assert_eq!(sig.signature_index.index(), 3),
                other => panic!("component attribute not classified: {:?}", other),
            }
        }
        other => panic!("Record not classified: {:?}", other),
    }
}

#[test]
fn module_attribute_decodes_all_directive_lists() {
    let mut bytes = class_prefix(&["Module", "m"], 1);
    let mut payload = Vec::new();
    w16(&mut payload, 2); // module name reference
    w16(&mut payload, 0x0020); // module flags: open
    w16(&mut payload, 0); // no version
    w16(&mut payload, 1); // one requires row
    w16(&mut payload, 2);
    w16(&mut payload, 0x0040); // requires flags: static phase
    w16(&mut payload, 0);
    w16(&mut payload, 1); // one exports row
    w16(&mut payload, 2);
    w16(&mut payload, 0x1000); // exports flags: synthetic
    w16(&mut payload, 1); // exported to one module
    w16(&mut payload, 2);
    w16(&mut payload, 0); // no opens
    w16(&mut payload, 1); // one uses row
    w16(&mut payload, 2);
    w16(&mut payload, 1); // one provides row
    w16(&mut payload, 2);
    w16(&mut payload, 1); // with one provider
    w16(&mut payload, 2);
    w16(&mut bytes, 1); // attribute named "Module"
    w32(&mut bytes, payload.len() as u32);
    bytes.extend_from_slice(&payload);
    let (class, diags) = decode_class(bytes).unwrap();
    assert!(diags.is_empty());
    match &class.attributes[0].info {
        AttributeInfo::Module(m) => {
            assert_eq!(m.name_index.index(), 2);
            assert_eq!(m.flags.bits(), 0x0020);
            assert_eq!(m.version_index.index(), 0);
            assert_eq!(m.requires.len(), 1);
            assert_eq!(m.requires[0].flags.bits(), 0x0040);
            assert_eq!(m.exports.len(), 1);
            assert_eq!(m.exports[0].to_index.len(), 1);
            assert!(m.opens.is_empty());
            assert_eq!(m.uses.len(), 1);
            assert_eq!(m.provides.len(), 1);
            assert_eq!(m.provides[0].with_index.len(), 1);
        }
        other => panic!("Module not classified: {:?}", other),
    }
}

#[test]
fn bad_module_flags_are_a_classification_diagnostic() {
    let mut bytes = class_prefix(&["Module", "m"], 1);
    let mut payload = Vec::new();
    w16(&mut payload, 2);
    w16(&mut payload, 0x0004); // outside the module mask
    w16(&mut bytes, 1);
    w32(&mut bytes, payload.len() as u32);
    bytes.extend_from_slice(&payload);
    let (class, diags) = decode_class(bytes).unwrap();
    // the malformed payload is isolated: reported, left opaque
    assert_eq!(
        diags,
        vec![ParseError::InvalidAccessFlags(FlagContext::Module, 0x0004)]
    );
    assert!(matches!(class.attributes[0].info, AttributeInfo::Unknown(_)));
}

#[test]
fn method_parameters_use_a_one_byte_count() {
    let mut bytes = class_prefix(&["MethodParameters", "p"], 1);
    let mut payload = Vec::new();
    payload.push(1); // one-byte parameter count
    w16(&mut payload, 2); // parameter name
    w16(&mut payload, 0x0010); // parameter flags: final
    w16(&mut bytes, 1);
    w32(&mut bytes, payload.len() as u32);
    bytes.extend_from_slice(&payload);
    let (class, diags) = decode_class(bytes).unwrap();
    assert!(diags.is_empty());
    match &class.attributes[0].info {
        AttributeInfo::MethodParameters(ps) => {
            assert_eq!(ps.parameters.len(), 1);
            let p: &MethodParameter = &ps.parameters[0];
            assert_eq!(p.name_index.index(), 2);
            assert_eq!(p.access_flags.bits(), 0x0010);
        }
        other => panic!("MethodParameters not classified: {:?}", other),
    }
}

#[test]
fn annotations_are_kept_verbatim() {
    let mut bytes = class_prefix(&["RuntimeVisibleAnnotations"], 1);
    w16(&mut bytes, 1);
    w32(&mut bytes, 3);
    bytes.extend_from_slice(&[7, 8, 9]);
    let (class, diags) = decode_class(bytes).unwrap();
    assert!(diags.is_empty());
    match &class.attributes[0].info {
        AttributeInfo::RuntimeVisibleAnnotations(a) => assert_eq!(a.bytes, vec![7, 8, 9]),
        other => panic!("annotations not classified: {:?}", other),
    }
}

#[test]
fn empty_marker_attributes_classify() {
    let mut bytes = class_prefix(&["Deprecated", "Synthetic"], 2);
    w16(&mut bytes, 1);
    w32(&mut bytes, 0);
    w16(&mut bytes, 2);
    w32(&mut bytes, 0);
    let (class, diags) = decode_class(bytes).unwrap();
    assert!(diags.is_empty());
    assert!(matches!(class.attributes[0].info, AttributeInfo::Deprecated(_)));
    assert!(matches!(class.attributes[1].info, AttributeInfo::Synthetic(_)));
}

#[test]
fn zero_count_table_keeps_only_the_reserved_slot() {
    let mut r = Reader::new(vec![0, 0]);
    let pool = read_pool(&mut r).unwrap();
    assert_eq!(pool.entries.len(), 1);
    assert!(pool.entries[0].is_none());
}

#[test]
fn inner_classes_use_their_own_flag_context() {
    // 0x0002 (private) is legal for an inner class though not for a
    // top-level class
    let mut bytes = class_prefix(&["InnerClasses"], 1);
    let mut payload = Vec::new();
    w16(&mut payload, 1); // one row
    w16(&mut payload, 2); // inner class info
    w16(&mut payload, 0); // no outer class
    w16(&mut payload, 0); // anonymous
    w16(&mut payload, 0x0002); // inner-class flags: private
    w16(&mut bytes, 1);
    w32(&mut bytes, payload.len() as u32);
    bytes.extend_from_slice(&payload);
    let (class, diags) = decode_class(bytes).unwrap();
    assert!(diags.is_empty());
    match &class.attributes[0].info {
        AttributeInfo::InnerClasses(ic) => {
            assert_eq!(ic.classes.len(), 1);
            assert_eq!(ic.classes[0].inner_class_info_index.index(), 2);
            assert_eq!(ic.classes[0].outer_class_info_index.index(), 0);
            assert_eq!(ic.classes[0].inner_class_access_flags.bits(), 0x0002);
        }
        other => panic!("InnerClasses not classified: {:?}", other),
    }
}

#[test]
fn bootstrap_methods_carry_their_arguments() {
    let mut bytes = class_prefix(&["BootstrapMethods"], 1);
    let mut payload = Vec::new();
    w16(&mut payload, 1); // one bootstrap method
    w16(&mut payload, 4); // its method-handle reference
    w16(&mut payload, 2); // two arguments
    w16(&mut payload, 5);
    w16(&mut payload, 6);
    w16(&mut bytes, 1);
    w32(&mut bytes, payload.len() as u32);
    bytes.extend_from_slice(&payload);
    let (class, diags) = decode_class(bytes).unwrap();
    assert!(diags.is_empty());
    match &class.attributes[0].info {
        AttributeInfo::BootstrapMethods(bm) => {
            assert_eq!(bm.bootstrap_methods.len(), 1);
            assert_eq!(bm.bootstrap_methods[0].bootstrap_method_ref.index(), 4);
            let args: Vec<u16> = bm.bootstrap_methods[0]
                .bootstrap_arguments
                .iter()
                .map(|a| a.index())
                .collect();
            assert_eq!(args, vec![5, 6]);
        }
        other => panic!("BootstrapMethods not classified: {:?}", other),
    }
}

#[test]
fn source_debug_extension_decodes_its_text() {
    let mut bytes = class_prefix(&["SourceDebugExtension"], 1);
    let mut payload = Vec::new();
    w16(&mut payload, 2); // string length
    payload.extend_from_slice(b"hi");
    w16(&mut bytes, 1);
    w32(&mut bytes, payload.len() as u32);
    bytes.extend_from_slice(&payload);
    let (class, diags) = decode_class(bytes).unwrap();
    assert!(diags.is_empty());
    match &class.attributes[0].info {
        AttributeInfo::SourceDebugExtension(sde) => {
            assert_eq!(sde.debug_extension.str, "hi");
            assert_eq!(sde.debug_extension.bytes, b"hi".to_vec());
        }
        other => panic!("SourceDebugExtension not classified: {:?}", other),
    }
}
