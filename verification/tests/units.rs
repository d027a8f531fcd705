use classfile::access_flags::AccessFlags;
use classfile::class_version::{ClassVersion, MajorVersion};
use classfile::const_pool::{read_pool, ConstPool};
use classfile::const_types::{
    Index, Integer, Long, MethodHandle, MethodHandleReferenceKind, Utf8, read_item, ConstItem,
};
use classfile::error::{EntryKind, FlagContext, ParseError, TagContext};
use classfile::reader::Reader;

#[test]
fn reader_primitives_are_big_endian() {
    let mut r = Reader::new(vec![0x12, 0x34, 0x56, 0x78, 0x9A, 0xBC, 0xDE, 0xF0, 0x01, 0x02]);
    assert_eq!(r.read_u16(), Ok(0x1234));
    assert_eq!(r.read_u32(), Ok(0x56789ABC));
    assert_eq!(r.read_u8(), Ok(0xDE));
    let rest = r.read_bytes(3).unwrap();
    assert_eq!(rest, vec![0xF0, 0x01, 0x02]);
    assert_eq!(r.read_u8(), Err(ParseError::Io));
}

#[test]
fn reader_u64_and_truncation() {
    let mut r = Reader::new(vec![0x01, 0x02, 0x03, 0x04, 0x05, 0x06, 0x07, 0x08]);
    assert_eq!(r.read_u64(), Ok(0x0102030405060708));
    let mut r2 = Reader::new(vec![0x01, 0x02]);
    assert_eq!(r2.read_u32(), Err(ParseError::Io));
    // a failed read leaves the cursor where it was
    assert_eq!(r2.read_u16(), Ok(0x0102));
}

#[test]
fn version_maps_wire_numbers() {
    assert_eq!(MajorVersion::try_from_u16(45), Ok(MajorVersion::JDK_1_1));
    assert_eq!(MajorVersion::try_from_u16(52), Ok(MajorVersion::JDK_8));
    assert_eq!(MajorVersion::try_from_u16(66), Ok(MajorVersion::JDK_22));
    assert_eq!(
        MajorVersion::try_from_u16(44),
        Err(ParseError::UnrecognizedVersion(44))
    );
    assert_eq!(
        MajorVersion::try_from_u16(67),
        Err(ParseError::UnrecognizedVersion(67))
    );
    assert_eq!(MajorVersion::JDK_17.number(), 61);
    let v = ClassVersion::new(MajorVersion::JDK_11, 3);
    assert_eq!(v.major, MajorVersion::JDK_11);
    assert_eq!(v.minor, 3);
}

#[test]
fn access_flags_respect_context_masks() {
    let f = AccessFlags::validate(0x0021, FlagContext::Class).unwrap();
    assert!(f.contains(0x0001));
    assert!(f.contains(0x0020));
    assert!(!f.contains(0x0010));
    assert_eq!(f.bits(), 0x0021);
    // PRIVATE is legal on a method but not on a class
    assert!(AccessFlags::validate(0x0002, FlagContext::Method).is_ok());
    assert_eq!(
        AccessFlags::validate(0x0002, FlagContext::Class),
        Err(ParseError::InvalidAccessFlags(FlagContext::Class, 0x0002))
    );
    assert_eq!(
        AccessFlags::validate(0x0004, FlagContext::Module),
        Err(ParseError::InvalidAccessFlags(FlagContext::Module, 0x0004))
    );
    assert!(AccessFlags::validate(0x8000, FlagContext::Exports).is_ok());
}

#[test]
fn integer_entry_is_twos_complement() {
    let mut r = Reader::new(vec![3, 0xFF, 0xFF, 0xFF, 0xFF]);
    match read_item(&mut r) {
        Ok(ConstItem::Integer(Integer { value })) => assert_eq!(value, -1),
        other => panic!("unexpected entry: {:?}", other),
    }
    let mut r2 = Reader::new(vec![3, 0x80, 0x00, 0x00, 0x00]);
    match read_item(&mut r2) {
        Ok(ConstItem::Integer(Integer { value })) => assert_eq!(value, i32::MIN),
        other => panic!("unexpected entry: {:?}", other),
    }
}

#[test]
fn long_entry_is_twos_complement() {
    let mut r = Reader::new(vec![5, 0xFF, 0xFF, 0xFF, 0xFF, 0xFF, 0xFF, 0xFF, 0xFE]);
    match read_item(&mut r) {
        Ok(ConstItem::Long(Long { value })) => assert_eq!(value, -2),
        other => panic!("unexpected entry: {:?}", other),
    }
}

#[test]
fn unknown_tag_is_fatal() {
    let mut r = Reader::new(vec![2, 0, 0]);
    assert_eq!(
        read_item(&mut r),
        Err(ParseError::UnrecognizedTag(TagContext::ConstantTag, 2))
    );
}

#[test]
fn method_handle_kinds() {
    assert_eq!(
        MethodHandleReferenceKind::try_from_u8(6),
        Ok(MethodHandleReferenceKind::InvokeStatic)
    );
    assert_eq!(
        MethodHandleReferenceKind::try_from_u8(10),
        Err(ParseError::UnrecognizedTag(TagContext::MethodHandleKind, 10))
    );
    let mut r = Reader::new(vec![15, 9, 0x00, 0x07]);
    match read_item(&mut r) {
        Ok(ConstItem::MethodHandle(MethodHandle {
            reference_kind,
            reference_index,
        })) => {
            assert_eq!(reference_kind, MethodHandleReferenceKind::InvokeInterface);
            assert_eq!(reference_index, 7);
        }
        other => panic!("unexpected entry: {:?}", other),
    }
}

#[test]
fn utf8_entry_decodes_modified_encoding() {
    // 0xC0 0x80 is the modified scheme's two-byte form of U+0000
    let mut r = Reader::new(vec![1, 0x00, 0x02, 0xC0, 0x80]);
    match read_item(&mut r) {
        Ok(ConstItem::Utf8(Utf8 { bytes, str })) => {
            assert_eq!(bytes, vec![0xC0, 0x80]);
            assert_eq!(str, "\u{0}");
        }
        other => panic!("unexpected entry: {:?}", other),
    }
}

#[test]
fn utf8_entry_falls_back_to_lossy_decode() {
    // 0xFF is valid in neither scheme; the lossy fallback replaces it
    let mut r = Reader::new(vec![1, 0x00, 0x01, 0xFF]);
    match read_item(&mut r) {
        Ok(ConstItem::Utf8(Utf8 { bytes, str })) => {
            assert_eq!(bytes, vec![0xFF]);
            assert_eq!(str, "\u{FFFD}");
        }
        other => panic!("unexpected entry: {:?}", other),
    }
}

fn pool_with_single_long() -> ConstPool {
    // declared count 3: slot 0 reserved, a Long in slot 1, its
    // placeholder in slot 2
    let bytes = vec![0x00, 0x03, 5, 0, 0, 0, 0, 0, 0, 0, 42];
    let mut r = Reader::new(bytes);
    read_pool(&mut r).unwrap()
}

#[test]
fn wide_entry_occupies_two_slots() {
    let pool = pool_with_single_long();
    assert_eq!(pool.entries.len(), 3);
    assert!(pool.entries[0].is_none());
    assert_eq!(pool.entries[1], Some(ConstItem::Long(Long { value: 42 })));
    assert!(pool.entries[2].is_none());
}

#[test]
fn placeholder_slot_never_resolves() {
    let pool = pool_with_single_long();
    let placeholder: Index<Long> = Index::new(2);
    assert_eq!(
        placeholder.get(&pool),
        Err(ParseError::Resolution(2, EntryKind::Long))
    );
}

#[test]
fn zero_index_resolution() {
    let pool = pool_with_single_long();
    let zero: Index<Long> = Index::new(0);
    // mandatory: slot 0 always fails
    assert_eq!(zero.get(&pool), Err(ParseError::Resolution(0, EntryKind::Long)));
    // optional: slot 0 always succeeds with "absent"
    assert_eq!(pool.get_optional(&zero), Ok(None));
}

#[test]
fn resolution_checks_bounds_and_kind() {
    let pool = pool_with_single_long();
    let good: Index<Long> = Index::new(1);
    assert_eq!(good.get(&pool), Ok(&Long { value: 42 }));
    assert_eq!(good.index(), 1);
    let out_of_bounds: Index<Long> = Index::new(9);
    assert_eq!(
        out_of_bounds.get(&pool),
        Err(ParseError::Resolution(9, EntryKind::Long))
    );
    let wrong_kind: Index<Integer> = Index::new(1);
    assert_eq!(
        wrong_kind.get(&pool),
        Err(ParseError::Resolution(1, EntryKind::Integer))
    );
    // the untyped form resolves any present entry
    let any: Index<ConstItem> = Index::new(1);
    assert_eq!(any.get(&pool), Ok(&ConstItem::Long(Long { value: 42 })));
}

#[test]
fn wide_entry_in_last_slot_is_truncated() {
    // declared count 2 leaves no room for the Long's placeholder: the
    // table keeps the wide entry in its last slot and stays at the
    // declared count
    let bytes = vec![0x00, 0x02, 5, 0, 0, 0, 0, 0, 0, 0, 1];
    let mut r = Reader::new(bytes);
    let pool = read_pool(&mut r).unwrap();
    assert_eq!(pool.entries.len(), 2);
    assert_eq!(pool.entries[1], Some(ConstItem::Long(Long { value: 1 })));
}

#[test]
fn pool_len_reproduces_declared_count() {
    // mixed table: Integer, Long (+placeholder), Utf8 under count 5
    let bytes = vec![
        0x00, 0x05, //
        3, 0, 0, 0, 7, // Integer 7 at slot 1
        5, 0, 0, 0, 0, 0, 0, 0, 9, // Long 9 at slots 2 and 3
        1, 0x00, 0x01, b'a', // Utf8 "a" at slot 4
    ];
    let mut r = Reader::new(bytes);
    let pool = read_pool(&mut r).unwrap();
    assert_eq!(pool.entries.len(), 5);
    assert!(pool.entries[0].is_none());
    assert_eq!(pool.entries[1], Some(ConstItem::Integer(Integer { value: 7 })));
    assert_eq!(pool.entries[2], Some(ConstItem::Long(Long { value: 9 })));
    assert!(pool.entries[3].is_none());
    match &pool.entries[4] {
        Some(ConstItem::Utf8(u)) => assert_eq!(u.str, "a"),
        other => panic!("unexpected entry: {:?}", other),
    }
}

#[test]
fn truncated_pool_is_fatal() {
    let bytes = vec![0x00, 0x03, 3, 0, 0]; // Integer cut short
    let mut r = Reader::new(bytes);
    assert!(matches!(read_pool(&mut r), Err(ParseError::Io)));
}

#[test]
fn entry_tags_round_trip_through_decode() {
    // each decoded entry reports the tag it was read under
    let mut r = Reader::new(vec![3, 0, 0, 0, 1]);
    let item = read_item(&mut r).unwrap();
    assert_eq!(item.tag(), 3);
    let mut r2 = Reader::new(vec![5, 0, 0, 0, 0, 0, 0, 0, 1]);
    assert_eq!(read_item(&mut r2).unwrap().tag(), 5);
    let mut r3 = Reader::new(vec![20, 0, 1]);
    assert_eq!(read_item(&mut r3).unwrap().tag(), 20);
}
