use vstd::prelude::*;

use crate::error::{EntryKind, ParseError, TagContext};
use crate::reader::{
    as_signed32, as_signed64, spec_read_u16, spec_read_u32, spec_read_u64, spec_read_u8,
    spec_read_bytes, Reader,
};
use crate::text::{decode_text, decoded_text};
use crate::wire::Readable;

verus! {

/// A slot number into the constant table, annotated with the entry type
/// expected at that slot. The annotation is documentation and ergonomics
/// only: resolution always performs the runtime kind check.
#[derive(Debug, PartialEq, Eq)]
pub struct Index<T: TryFromItem> {
    pub index: u16,
    pub marker: core::marker::PhantomData<T>,
}

impl<T: TryFromItem> Clone for Index<T> {
    fn clone(&self) -> (r: Self)
        ensures
            r == *self,
    {
        Index { index: self.index, marker: core::marker::PhantomData }
    }
}

impl<T: TryFromItem> Copy for Index<T> {

}

/// A slot number whose owning field declares itself optional: the value
/// zero means "no reference" instead of being a resolution error.
pub type OptionalIndex<T> = Index<T>;

impl<T: TryFromItem> Index<T> {
    pub open spec fn spec_new(index: u16) -> Index<T> {
        Index { index, marker: core::marker::PhantomData }
    }

    pub fn new(index: u16) -> (r: Index<T>)
        ensures
            r == Index::<T>::spec_new(index),
    {
        Index { index, marker: core::marker::PhantomData }
    }

    pub fn index(&self) -> (r: u16)
        ensures
            r == self.index,
    {
        self.index
    }
}

/// On the wire a typed reference is its two-byte slot number.
impl<T: TryFromItem> Readable for Index<T> {
    type Model = Index<T>;

    open spec fn spec_parse(b: Seq<u8>, pos: int) -> Result<(Index<T>, int), ParseError> {
        match spec_read_u16(b, pos) {
            Err(e) => Err(e),
            Ok((n, p)) => Ok((Index::spec_new(n), p)),
        }
    }

    open spec fn model(self) -> Index<T> {
        self
    }

    fn read(reader: &mut Reader) -> (r: Result<Index<T>, ParseError>) {
        let n = reader.read_u16()?;
        Ok(Index::new(n))
    }
}

/// A string entry: the raw payload bytes are kept beside the decoded
/// text, for diagnostics and byte-exact re-encoding.
#[derive(Debug, Clone, PartialEq, Eq)]
pub struct Utf8 {
    pub bytes: Vec<u8>,
    pub str: String,
}

/// The mathematical content of a string entry.
pub struct Utf8Model {
    pub bytes: Seq<u8>,
    pub text: Seq<char>,
}

impl View for Utf8 {
    type V = Utf8Model;

    open spec fn view(&self) -> Utf8Model {
        Utf8Model { bytes: self.bytes@, text: self.str@ }
    }
}

#[derive(Debug, Clone, Copy, PartialEq, Eq, Structural)]
pub struct Integer {
    pub value: i32,
}

/// A 32-bit float entry, kept as its raw big-endian bit pattern.
#[derive(Debug, Clone, Copy, PartialEq, Eq, Structural)]
pub struct Float {
    pub bits: u32,
}

#[derive(Debug, Clone, Copy, PartialEq, Eq, Structural)]
pub struct Long {
    pub value: i64,
}

/// A 64-bit float entry, kept as its raw big-endian bit pattern.
#[derive(Debug, Clone, Copy, PartialEq, Eq, Structural)]
pub struct Double {
    pub bits: u64,
}

#[derive(Debug, Clone, Copy, PartialEq, Eq)]
pub struct Class {
    pub name_index: Index<Utf8>,
}

#[derive(Debug, Clone, Copy, PartialEq, Eq)]
pub struct StringJ {
    pub string_index: Index<Utf8>,
}

#[derive(Debug, Clone, Copy, PartialEq, Eq)]
pub struct FieldRef {
    pub class_index: Index<Class>,
    pub name_and_type_index: Index<NameAndType>,
}

#[derive(Debug, Clone, Copy, PartialEq, Eq)]
pub struct MethodRef {
    pub class_index: Index<Class>,
    pub name_and_type_index: Index<NameAndType>,
}

#[derive(Debug, Clone, Copy, PartialEq, Eq)]
pub struct InterfaceMethodRef {
    pub class_index: Index<Class>,
    pub name_and_type_index: Index<NameAndType>,
}

#[derive(Debug, Clone, Copy, PartialEq, Eq)]
pub struct NameAndType {
    pub name_index: Index<Utf8>,
    pub descriptor_index: Index<Utf8>,
}

/// The kind of target a method-handle entry points at.
#[derive(Debug, Clone, Copy, PartialEq, Eq, Structural)]
pub enum MethodHandleReferenceKind {
    GetField,
    GetStatic,
    PutField,
    PutStatic,
    InvokeVirtual,
    InvokeStatic,
    InvokeSpecial,
    NewInvokeSpecial,
    InvokeInterface,
}

/// The wire byte of each method-handle reference kind.
pub open spec fn spec_reference_kind_number(k: MethodHandleReferenceKind) -> u8 {
    match k {
        MethodHandleReferenceKind::GetField => 1,
        MethodHandleReferenceKind::GetStatic => 2,
        MethodHandleReferenceKind::PutField => 3,
        MethodHandleReferenceKind::PutStatic => 4,
        MethodHandleReferenceKind::InvokeVirtual => 5,
        MethodHandleReferenceKind::InvokeStatic => 6,
        MethodHandleReferenceKind::InvokeSpecial => 7,
        MethodHandleReferenceKind::NewInvokeSpecial => 8,
        MethodHandleReferenceKind::InvokeInterface => 9,
    }
}

/// The reference kind a wire byte stands for, if any.
pub open spec fn spec_reference_kind_of(n: u8) -> Option<MethodHandleReferenceKind> {
    if n == 1 {
        Some(MethodHandleReferenceKind::GetField)
    } else if n == 2 {
        Some(MethodHandleReferenceKind::GetStatic)
    } else if n == 3 {
        Some(MethodHandleReferenceKind::PutField)
    } else if n == 4 {
        Some(MethodHandleReferenceKind::PutStatic)
    } else if n == 5 {
        Some(MethodHandleReferenceKind::InvokeVirtual)
    } else if n == 6 {
        Some(MethodHandleReferenceKind::InvokeStatic)
    } else if n == 7 {
        Some(MethodHandleReferenceKind::InvokeSpecial)
    } else if n == 8 {
        Some(MethodHandleReferenceKind::NewInvokeSpecial)
    } else if n == 9 {
        Some(MethodHandleReferenceKind::InvokeInterface)
    } else {
        None
    }
}

impl MethodHandleReferenceKind {
    /// Maps a wire byte to its reference kind; any other byte is an
    /// unrecognized-tag error, fatal to the table decode.
    pub fn try_from_u8(n: u8) -> (r: Result<MethodHandleReferenceKind, ParseError>)
        ensures
            match spec_reference_kind_of(n) {
                Some(k) => r == Ok::<MethodHandleReferenceKind, ParseError>(k),
                None => r == Err::<MethodHandleReferenceKind, ParseError>(
                    ParseError::UnrecognizedTag(TagContext::MethodHandleKind, n),
                ),
            },
    {
        if n == 1 {
            Ok(MethodHandleReferenceKind::GetField)
        } else if n == 2 {
            Ok(MethodHandleReferenceKind::GetStatic)
        } else if n == 3 {
            Ok(MethodHandleReferenceKind::PutField)
        } else if n == 4 {
            Ok(MethodHandleReferenceKind::PutStatic)
        } else if n == 5 {
            Ok(MethodHandleReferenceKind::InvokeVirtual)
        } else if n == 6 {
            Ok(MethodHandleReferenceKind::InvokeStatic)
        } else if n == 7 {
            Ok(MethodHandleReferenceKind::InvokeSpecial)
        } else if n == 8 {
            Ok(MethodHandleReferenceKind::NewInvokeSpecial)
        } else if n == 9 {
            Ok(MethodHandleReferenceKind::InvokeInterface)
        } else {
            Err(ParseError::UnrecognizedTag(TagContext::MethodHandleKind, n))
        }
    }
}

/// If the reference kind is 1-4 the index points at a field reference,
/// if 5-8 at a method reference, and if 9 at an interface-method
/// reference; the kind check happens at resolution time, so the slot is
/// kept raw here.
#[derive(Debug, Clone, Copy, PartialEq, Eq, Structural)]
pub struct MethodHandle {
    pub reference_kind: MethodHandleReferenceKind,
    pub reference_index: u16,
}

#[derive(Debug, Clone, Copy, PartialEq, Eq)]
pub struct MethodType {
    pub descriptor_index: Index<Utf8>,
}

#[derive(Debug, Clone, Copy, PartialEq, Eq)]
pub struct Dynamic {
    /// An index into the bootstrap-method table, not the constant table.
    pub bootstrap_method_attr_index: u16,
    pub name_and_type_index: Index<NameAndType>,
}

#[derive(Debug, Clone, Copy, PartialEq, Eq)]
pub struct InvokeDynamic {
    /// An index into the bootstrap-method table, not the constant table.
    pub bootstrap_method_attr_index: u16,
    pub name_and_type_index: Index<NameAndType>,
}

#[derive(Debug, Clone, Copy, PartialEq, Eq)]
pub struct Module {
    pub name_index: Index<Utf8>,
}

#[derive(Debug, Clone, Copy, PartialEq, Eq)]
pub struct Package {
    pub name_index: Index<Utf8>,
}

/// One decoded constant-table entry: a closed tagged union of the
/// seventeen known kinds.
#[derive(Debug, Clone, PartialEq, Eq)]
pub enum ConstItem {
    Utf8(Utf8),
    Integer(Integer),
    Float(Float),
    Long(Long),
    Double(Double),
    Class(Class),
    StringJ(StringJ),
    FieldRef(FieldRef),
    MethodRef(MethodRef),
    InterfaceMethodRef(InterfaceMethodRef),
    NameAndType(NameAndType),
    MethodHandle(MethodHandle),
    MethodType(MethodType),
    Dynamic(Dynamic),
    InvokeDynamic(InvokeDynamic),
    Module(Module),
    Package(Package),
}

/// The mathematical content of a constant-table entry: identical to the
/// entry except that string payloads become sequences.
pub enum ConstItemModel {
    Utf8(Utf8Model),
    Integer(Integer),
    Float(Float),
    Long(Long),
    Double(Double),
    Class(Class),
    StringJ(StringJ),
    FieldRef(FieldRef),
    MethodRef(MethodRef),
    InterfaceMethodRef(InterfaceMethodRef),
    NameAndType(NameAndType),
    MethodHandle(MethodHandle),
    MethodType(MethodType),
    Dynamic(Dynamic),
    InvokeDynamic(InvokeDynamic),
    Module(Module),
    Package(Package),
}

impl View for ConstItem {
    type V = ConstItemModel;

    open spec fn view(&self) -> ConstItemModel {
        match *self {
            ConstItem::Utf8(x) => ConstItemModel::Utf8(x@),
            ConstItem::Integer(x) => ConstItemModel::Integer(x),
            ConstItem::Float(x) => ConstItemModel::Float(x),
            ConstItem::Long(x) => ConstItemModel::Long(x),
            ConstItem::Double(x) => ConstItemModel::Double(x),
            ConstItem::Class(x) => ConstItemModel::Class(x),
            ConstItem::StringJ(x) => ConstItemModel::StringJ(x),
            ConstItem::FieldRef(x) => ConstItemModel::FieldRef(x),
            ConstItem::MethodRef(x) => ConstItemModel::MethodRef(x),
            ConstItem::InterfaceMethodRef(x) => ConstItemModel::InterfaceMethodRef(x),
            ConstItem::NameAndType(x) => ConstItemModel::NameAndType(x),
            ConstItem::MethodHandle(x) => ConstItemModel::MethodHandle(x),
            ConstItem::MethodType(x) => ConstItemModel::MethodType(x),
            ConstItem::Dynamic(x) => ConstItemModel::Dynamic(x),
            ConstItem::InvokeDynamic(x) => ConstItemModel::InvokeDynamic(x),
            ConstItem::Module(x) => ConstItemModel::Module(x),
            ConstItem::Package(x) => ConstItemModel::Package(x),
        }
    }
}

/// The runtime kind of an entry, matched against a typed reference's
/// expectation during resolution.
pub open spec fn item_kind(item: ConstItem) -> EntryKind {
    match item {
        ConstItem::Utf8(_) => EntryKind::Utf8,
        ConstItem::Integer(_) => EntryKind::Integer,
        ConstItem::Float(_) => EntryKind::Float,
        ConstItem::Long(_) => EntryKind::Long,
        ConstItem::Double(_) => EntryKind::Double,
        ConstItem::Class(_) => EntryKind::Class,
        ConstItem::StringJ(_) => EntryKind::StringJ,
        ConstItem::FieldRef(_) => EntryKind::FieldRef,
        ConstItem::MethodRef(_) => EntryKind::MethodRef,
        ConstItem::InterfaceMethodRef(_) => EntryKind::InterfaceMethodRef,
        ConstItem::NameAndType(_) => EntryKind::NameAndType,
        ConstItem::MethodHandle(_) => EntryKind::MethodHandle,
        ConstItem::MethodType(_) => EntryKind::MethodType,
        ConstItem::Dynamic(_) => EntryKind::Dynamic,
        ConstItem::InvokeDynamic(_) => EntryKind::InvokeDynamic,
        ConstItem::Module(_) => EntryKind::Module,
        ConstItem::Package(_) => EntryKind::Package,
    }
}

/// The wire tag in front of each entry kind.
pub open spec fn spec_item_tag(item: ConstItem) -> u8 {
    match item {
        ConstItem::Utf8(_) => 1,
        ConstItem::Integer(_) => 3,
        ConstItem::Float(_) => 4,
        ConstItem::Long(_) => 5,
        ConstItem::Double(_) => 6,
        ConstItem::Class(_) => 7,
        ConstItem::StringJ(_) => 8,
        ConstItem::FieldRef(_) => 9,
        ConstItem::MethodRef(_) => 10,
        ConstItem::InterfaceMethodRef(_) => 11,
        ConstItem::NameAndType(_) => 12,
        ConstItem::MethodHandle(_) => 15,
        ConstItem::MethodType(_) => 16,
        ConstItem::Dynamic(_) => 17,
        ConstItem::InvokeDynamic(_) => 18,
        ConstItem::Module(_) => 19,
        ConstItem::Package(_) => 20,
    }
}

impl ConstItem {
    /// The one-byte kind tag this entry is written under.
    pub fn tag(&self) -> (r: u8)
        ensures
            r == spec_item_tag(*self),
    {
        match self {
            ConstItem::Utf8(_) => 1,
            ConstItem::Integer(_) => 3,
            ConstItem::Float(_) => 4,
            ConstItem::Long(_) => 5,
            ConstItem::Double(_) => 6,
            ConstItem::Class(_) => 7,
            ConstItem::StringJ(_) => 8,
            ConstItem::FieldRef(_) => 9,
            ConstItem::MethodRef(_) => 10,
            ConstItem::InterfaceMethodRef(_) => 11,
            ConstItem::NameAndType(_) => 12,
            ConstItem::MethodHandle(_) => 15,
            ConstItem::MethodType(_) => 16,
            ConstItem::Dynamic(_) => 17,
            ConstItem::InvokeDynamic(_) => 18,
            ConstItem::Module(_) => 19,
            ConstItem::Package(_) => 20,
        }
    }
}

/// A wide entry occupies its own slot and forces the following slot to
/// stay absent.
pub open spec fn model_is_wide(m: ConstItemModel) -> bool {
    m is Long || m is Double
}

/// The checked downcast from a table entry to one expected payload
/// type, used by typed-reference resolution.
pub trait TryFromItem: Sized {
    /// The entry kind this payload type stands for.
    spec fn spec_kind() -> EntryKind;

    /// The payload this type extracts from an entry, if the entry is of
    /// the matching kind.
    spec fn spec_of_item(item: ConstItem) -> Option<Self>;

    /// Extraction succeeds exactly on entries of the matching kind.
    proof fn lemma_kind_consistent(item: ConstItem)
        ensures
            Self::spec_of_item(item) is Some <==> (Self::spec_kind() == EntryKind::Any
                || item_kind(item) == Self::spec_kind());

    /// The entry kind this payload type stands for.
    fn kind() -> (k: EntryKind)
        ensures
            k == Self::spec_kind();

    /// The checked downcast itself.
    fn try_from_item(item: &ConstItem) -> (r: Option<&Self>)
        ensures
            match r {
                Some(v) => Self::spec_of_item(*item) == Some(*v),
                None => Self::spec_of_item(*item) is None,
            };
}

impl TryFromItem for ConstItem {
    open spec fn spec_kind() -> EntryKind {
        EntryKind::Any
    }

    open spec fn spec_of_item(item: ConstItem) -> Option<ConstItem> {
        Some(item)
    }

    proof fn lemma_kind_consistent(item: ConstItem) {
    }

    fn kind() -> (k: EntryKind) {
        EntryKind::Any
    }

    fn try_from_item(item: &ConstItem) -> (r: Option<&ConstItem>) {
        Some(item)
    }
}

impl TryFromItem for Utf8 {
    open spec fn spec_kind() -> EntryKind {
        EntryKind::Utf8
    }

    open spec fn spec_of_item(item: ConstItem) -> Option<Utf8> {
        match item {
            ConstItem::Utf8(x) => Some(x),
            _ => None,
        }
    }

    proof fn lemma_kind_consistent(item: ConstItem) {
    }

    fn kind() -> (k: EntryKind) {
        EntryKind::Utf8
    }

    fn try_from_item(item: &ConstItem) -> (r: Option<&Utf8>) {
        match item {
            ConstItem::Utf8(x) => Some(x),
            _ => None,
        }
    }
}

impl TryFromItem for Integer {
    open spec fn spec_kind() -> EntryKind {
        EntryKind::Integer
    }

    open spec fn spec_of_item(item: ConstItem) -> Option<Integer> {
        match item {
            ConstItem::Integer(x) => Some(x),
            _ => None,
        }
    }

    proof fn lemma_kind_consistent(item: ConstItem) {
    }

    fn kind() -> (k: EntryKind) {
        EntryKind::Integer
    }

    fn try_from_item(item: &ConstItem) -> (r: Option<&Integer>) {
        match item {
            ConstItem::Integer(x) => Some(x),
            _ => None,
        }
    }
}

impl TryFromItem for Float {
    open spec fn spec_kind() -> EntryKind {
        EntryKind::Float
    }

    open spec fn spec_of_item(item: ConstItem) -> Option<Float> {
        match item {
            ConstItem::Float(x) => Some(x),
            _ => None,
        }
    }

    proof fn lemma_kind_consistent(item: ConstItem) {
    }

    fn kind() -> (k: EntryKind) {
        EntryKind::Float
    }

    fn try_from_item(item: &ConstItem) -> (r: Option<&Float>) {
        match item {
            ConstItem::Float(x) => Some(x),
            _ => None,
        }
    }
}

impl TryFromItem for Long {
    open spec fn spec_kind() -> EntryKind {
        EntryKind::Long
    }

    open spec fn spec_of_item(item: ConstItem) -> Option<Long> {
        match item {
            ConstItem::Long(x) => Some(x),
            _ => None,
        }
    }

    proof fn lemma_kind_consistent(item: ConstItem) {
    }

    fn kind() -> (k: EntryKind) {
        EntryKind::Long
    }

    fn try_from_item(item: &ConstItem) -> (r: Option<&Long>) {
        match item {
            ConstItem::Long(x) => Some(x),
            _ => None,
        }
    }
}

impl TryFromItem for Double {
    open spec fn spec_kind() -> EntryKind {
        EntryKind::Double
    }

    open spec fn spec_of_item(item: ConstItem) -> Option<Double> {
        match item {
            ConstItem::Double(x) => Some(x),
            _ => None,
        }
    }

    proof fn lemma_kind_consistent(item: ConstItem) {
    }

    fn kind() -> (k: EntryKind) {
        EntryKind::Double
    }

    fn try_from_item(item: &ConstItem) -> (r: Option<&Double>) {
        match item {
            ConstItem::Double(x) => Some(x),
            _ => None,
        }
    }
}

impl TryFromItem for Class {
    open spec fn spec_kind() -> EntryKind {
        EntryKind::Class
    }

    open spec fn spec_of_item(item: ConstItem) -> Option<Class> {
        match item {
            ConstItem::Class(x) => Some(x),
            _ => None,
        }
    }

    proof fn lemma_kind_consistent(item: ConstItem) {
    }

    fn kind() -> (k: EntryKind) {
        EntryKind::Class
    }

    fn try_from_item(item: &ConstItem) -> (r: Option<&Class>) {
        match item {
            ConstItem::Class(x) => Some(x),
            _ => None,
        }
    }
}

impl TryFromItem for StringJ {
    open spec fn spec_kind() -> EntryKind {
        EntryKind::StringJ
    }

    open spec fn spec_of_item(item: ConstItem) -> Option<StringJ> {
        match item {
            ConstItem::StringJ(x) => Some(x),
            _ => None,
        }
    }

    proof fn lemma_kind_consistent(item: ConstItem) {
    }

    fn kind() -> (k: EntryKind) {
        EntryKind::StringJ
    }

    fn try_from_item(item: &ConstItem) -> (r: Option<&StringJ>) {
        match item {
            ConstItem::StringJ(x) => Some(x),
            _ => None,
        }
    }
}

impl TryFromItem for FieldRef {
    open spec fn spec_kind() -> EntryKind {
        EntryKind::FieldRef
    }

    open spec fn spec_of_item(item: ConstItem) -> Option<FieldRef> {
        match item {
            ConstItem::FieldRef(x) => Some(x),
            _ => None,
        }
    }

    proof fn lemma_kind_consistent(item: ConstItem) {
    }

    fn kind() -> (k: EntryKind) {
        EntryKind::FieldRef
    }

    fn try_from_item(item: &ConstItem) -> (r: Option<&FieldRef>) {
        match item {
            ConstItem::FieldRef(x) => Some(x),
            _ => None,
        }
    }
}

impl TryFromItem for MethodRef {
    open spec fn spec_kind() -> EntryKind {
        EntryKind::MethodRef
    }

    open spec fn spec_of_item(item: ConstItem) -> Option<MethodRef> {
        match item {
            ConstItem::MethodRef(x) => Some(x),
            _ => None,
        }
    }

    proof fn lemma_kind_consistent(item: ConstItem) {
    }

    fn kind() -> (k: EntryKind) {
        EntryKind::MethodRef
    }

    fn try_from_item(item: &ConstItem) -> (r: Option<&MethodRef>) {
        match item {
            ConstItem::MethodRef(x) => Some(x),
            _ => None,
        }
    }
}

impl TryFromItem for InterfaceMethodRef {
    open spec fn spec_kind() -> EntryKind {
        EntryKind::InterfaceMethodRef
    }

    open spec fn spec_of_item(item: ConstItem) -> Option<InterfaceMethodRef> {
        match item {
            ConstItem::InterfaceMethodRef(x) => Some(x),
            _ => None,
        }
    }

    proof fn lemma_kind_consistent(item: ConstItem) {
    }

    fn kind() -> (k: EntryKind) {
        EntryKind::InterfaceMethodRef
    }

    fn try_from_item(item: &ConstItem) -> (r: Option<&InterfaceMethodRef>) {
        match item {
            ConstItem::InterfaceMethodRef(x) => Some(x),
            _ => None,
        }
    }
}

impl TryFromItem for NameAndType {
    open spec fn spec_kind() -> EntryKind {
        EntryKind::NameAndType
    }

    open spec fn spec_of_item(item: ConstItem) -> Option<NameAndType> {
        match item {
            ConstItem::NameAndType(x) => Some(x),
            _ => None,
        }
    }

    proof fn lemma_kind_consistent(item: ConstItem) {
    }

    fn kind() -> (k: EntryKind) {
        EntryKind::NameAndType
    }

    fn try_from_item(item: &ConstItem) -> (r: Option<&NameAndType>) {
        match item {
            ConstItem::NameAndType(x) => Some(x),
            _ => None,
        }
    }
}

impl TryFromItem for MethodHandle {
    open spec fn spec_kind() -> EntryKind {
        EntryKind::MethodHandle
    }

    open spec fn spec_of_item(item: ConstItem) -> Option<MethodHandle> {
        match item {
            ConstItem::MethodHandle(x) => Some(x),
            _ => None,
        }
    }

    proof fn lemma_kind_consistent(item: ConstItem) {
    }

    fn kind() -> (k: EntryKind) {
        EntryKind::MethodHandle
    }

    fn try_from_item(item: &ConstItem) -> (r: Option<&MethodHandle>) {
        match item {
            ConstItem::MethodHandle(x) => Some(x),
            _ => None,
        }
    }
}

impl TryFromItem for MethodType {
    open spec fn spec_kind() -> EntryKind {
        EntryKind::MethodType
    }

    open spec fn spec_of_item(item: ConstItem) -> Option<MethodType> {
        match item {
            ConstItem::MethodType(x) => Some(x),
            _ => None,
        }
    }

    proof fn lemma_kind_consistent(item: ConstItem) {
    }

    fn kind() -> (k: EntryKind) {
        EntryKind::MethodType
    }

    fn try_from_item(item: &ConstItem) -> (r: Option<&MethodType>) {
        match item {
            ConstItem::MethodType(x) => Some(x),
            _ => None,
        }
    }
}

impl TryFromItem for Dynamic {
    open spec fn spec_kind() -> EntryKind {
        EntryKind::Dynamic
    }

    open spec fn spec_of_item(item: ConstItem) -> Option<Dynamic> {
        match item {
            ConstItem::Dynamic(x) => Some(x),
            _ => None,
        }
    }

    proof fn lemma_kind_consistent(item: ConstItem) {
    }

    fn kind() -> (k: EntryKind) {
        EntryKind::Dynamic
    }

    fn try_from_item(item: &ConstItem) -> (r: Option<&Dynamic>) {
        match item {
            ConstItem::Dynamic(x) => Some(x),
            _ => None,
        }
    }
}

impl TryFromItem for InvokeDynamic {
    open spec fn spec_kind() -> EntryKind {
        EntryKind::InvokeDynamic
    }

    open spec fn spec_of_item(item: ConstItem) -> Option<InvokeDynamic> {
        match item {
            ConstItem::InvokeDynamic(x) => Some(x),
            _ => None,
        }
    }

    proof fn lemma_kind_consistent(item: ConstItem) {
    }

    fn kind() -> (k: EntryKind) {
        EntryKind::InvokeDynamic
    }

    fn try_from_item(item: &ConstItem) -> (r: Option<&InvokeDynamic>) {
        match item {
            ConstItem::InvokeDynamic(x) => Some(x),
            _ => None,
        }
    }
}

impl TryFromItem for Module {
    open spec fn spec_kind() -> EntryKind {
        EntryKind::Module
    }

    open spec fn spec_of_item(item: ConstItem) -> Option<Module> {
        match item {
            ConstItem::Module(x) => Some(x),
            _ => None,
        }
    }

    proof fn lemma_kind_consistent(item: ConstItem) {
    }

    fn kind() -> (k: EntryKind) {
        EntryKind::Module
    }

    fn try_from_item(item: &ConstItem) -> (r: Option<&Module>) {
        match item {
            ConstItem::Module(x) => Some(x),
            _ => None,
        }
    }
}

impl TryFromItem for Package {
    open spec fn spec_kind() -> EntryKind {
        EntryKind::Package
    }

    open spec fn spec_of_item(item: ConstItem) -> Option<Package> {
        match item {
            ConstItem::Package(x) => Some(x),
            _ => None,
        }
    }

    proof fn lemma_kind_consistent(item: ConstItem) {
    }

    fn kind() -> (k: EntryKind) {
        EntryKind::Package
    }

    fn try_from_item(item: &ConstItem) -> (r: Option<&Package>) {
        match item {
            ConstItem::Package(x) => Some(x),
            _ => None,
        }
    }
}


/// The sequential decode of a string entry's payload: a two-byte length,
/// then exactly that many raw bytes, whose decoded text never fails.
pub open spec fn spec_parse_utf8(b: Seq<u8>, pos: int) -> Result<(Utf8Model, int), ParseError> {
    match spec_read_u16(b, pos) {
        Err(e) => Err(e),
        Ok((len, p1)) => match spec_read_bytes(b, p1, len as int) {
            Err(e) => Err(e),
            Ok((bytes, p2)) => Ok((Utf8Model { bytes, text: decoded_text(bytes) }, p2)),
        },
    }
}

/// The sequential decode of one tagged constant-table entry: a one-byte
/// kind tag, then the kind's fixed or length-prefixed payload. An
/// unknown tag is fatal to the whole table.
pub open spec fn spec_parse_item(b: Seq<u8>, pos: int) -> Result<(ConstItemModel, int), ParseError> {
    match spec_read_u8(b, pos) {
        Err(e) => Err(e),
        Ok((tag, p)) => if tag == 1 {
            match spec_parse_utf8(b, p) {
                Err(e) => Err(e),
                Ok((m, p2)) => Ok((ConstItemModel::Utf8(m), p2)),
            }
        } else if tag == 3 {
            match spec_read_u32(b, p) {
                Err(e) => Err(e),
                Ok((u, p2)) => Ok(
                    (ConstItemModel::Integer(Integer { value: as_signed32(u) as i32 }), p2),
                ),
            }
        } else if tag == 4 {
            match spec_read_u32(b, p) {
                Err(e) => Err(e),
                Ok((u, p2)) => Ok((ConstItemModel::Float(Float { bits: u }), p2)),
            }
        } else if tag == 5 {
            match spec_read_u64(b, p) {
                Err(e) => Err(e),
                Ok((u, p2)) => Ok(
                    (ConstItemModel::Long(Long { value: as_signed64(u) as i64 }), p2),
                ),
            }
        } else if tag == 6 {
            match spec_read_u64(b, p) {
                Err(e) => Err(e),
                Ok((u, p2)) => Ok((ConstItemModel::Double(Double { bits: u }), p2)),
            }
        } else if tag == 7 {
            match spec_read_u16(b, p) {
                Err(e) => Err(e),
                Ok((n, p2)) => Ok(
                    (ConstItemModel::Class(Class { name_index: Index::spec_new(n) }), p2),
                ),
            }
        } else if tag == 8 {
            match spec_read_u16(b, p) {
                Err(e) => Err(e),
                Ok((n, p2)) => Ok(
                    (ConstItemModel::StringJ(StringJ { string_index: Index::spec_new(n) }), p2),
                ),
            }
        } else if tag == 9 {
            match spec_read_u16(b, p) {
                Err(e) => Err(e),
                Ok((c, p2)) => match spec_read_u16(b, p2) {
                    Err(e) => Err(e),
                    Ok((n, p3)) => Ok(
                        (
                            ConstItemModel::FieldRef(
                                FieldRef {
                                    class_index: Index::spec_new(c),
                                    name_and_type_index: Index::spec_new(n),
                                },
                            ),
                            p3,
                        ),
                    ),
                },
            }
        } else if tag == 10 {
            match spec_read_u16(b, p) {
                Err(e) => Err(e),
                Ok((c, p2)) => match spec_read_u16(b, p2) {
                    Err(e) => Err(e),
                    Ok((n, p3)) => Ok(
                        (
                            ConstItemModel::MethodRef(
                                MethodRef {
                                    class_index: Index::spec_new(c),
                                    name_and_type_index: Index::spec_new(n),
                                },
                            ),
                            p3,
                        ),
                    ),
                },
            }
        } else if tag == 11 {
            match spec_read_u16(b, p) {
                Err(e) => Err(e),
                Ok((c, p2)) => match spec_read_u16(b, p2) {
                    Err(e) => Err(e),
                    Ok((n, p3)) => Ok(
                        (
                            ConstItemModel::InterfaceMethodRef(
                                InterfaceMethodRef {
                                    class_index: Index::spec_new(c),
                                    name_and_type_index: Index::spec_new(n),
                                },
                            ),
                            p3,
                        ),
                    ),
                },
            }
        } else if tag == 12 {
            match spec_read_u16(b, p) {
                Err(e) => Err(e),
                Ok((n, p2)) => match spec_read_u16(b, p2) {
                    Err(e) => Err(e),
                    Ok((d, p3)) => Ok(
                        (
                            ConstItemModel::NameAndType(
                                NameAndType {
                                    name_index: Index::spec_new(n),
                                    descriptor_index: Index::spec_new(d),
                                },
                            ),
                            p3,
                        ),
                    ),
                },
            }
        } else if tag == 15 {
            match spec_read_u8(b, p) {
                Err(e) => Err(e),
                Ok((kb, p2)) => match spec_reference_kind_of(kb) {
                    None => Err(ParseError::UnrecognizedTag(TagContext::MethodHandleKind, kb)),
                    Some(k) => match spec_read_u16(b, p2) {
                        Err(e) => Err(e),
                        Ok((n, p3)) => Ok(
                            (
                                ConstItemModel::MethodHandle(
                                    MethodHandle { reference_kind: k, reference_index: n },
                                ),
                                p3,
                            ),
                        ),
                    },
                },
            }
        } else if tag == 16 {
            match spec_read_u16(b, p) {
                Err(e) => Err(e),
                Ok((n, p2)) => Ok(
                    (
                        ConstItemModel::MethodType(MethodType { descriptor_index: Index::spec_new(n) }),
                        p2,
                    ),
                ),
            }
        } else if tag == 17 {
            match spec_read_u16(b, p) {
                Err(e) => Err(e),
                Ok((a, p2)) => match spec_read_u16(b, p2) {
                    Err(e) => Err(e),
                    Ok((n, p3)) => Ok(
                        (
                            ConstItemModel::Dynamic(
                                Dynamic {
                                    bootstrap_method_attr_index: a,
                                    name_and_type_index: Index::spec_new(n),
                                },
                            ),
                            p3,
                        ),
                    ),
                },
            }
        } else if tag == 18 {
            match spec_read_u16(b, p) {
                Err(e) => Err(e),
                Ok((a, p2)) => match spec_read_u16(b, p2) {
                    Err(e) => Err(e),
                    Ok((n, p3)) => Ok(
                        (
                            ConstItemModel::InvokeDynamic(
                                InvokeDynamic {
                                    bootstrap_method_attr_index: a,
                                    name_and_type_index: Index::spec_new(n),
                                },
                            ),
                            p3,
                        ),
                    ),
                },
            }
        } else if tag == 19 {
            match spec_read_u16(b, p) {
                Err(e) => Err(e),
                Ok((n, p2)) => Ok(
                    (ConstItemModel::Module(Module { name_index: Index::spec_new(n) }), p2),
                ),
            }
        } else if tag == 20 {
            match spec_read_u16(b, p) {
                Err(e) => Err(e),
                Ok((n, p2)) => Ok(
                    (ConstItemModel::Package(Package { name_index: Index::spec_new(n) }), p2),
                ),
            }
        } else {
            Err(ParseError::UnrecognizedTag(TagContext::ConstantTag, tag))
        },
    }
}

/// The two's-complement value of a 32-bit word, as the signed type.
fn u32_to_i32(u: u32) -> (r: i32)
    ensures
        r == as_signed32(u),
{
    if u < 0x80000000 {
        u as i32
    } else {
        -((0xFFFFFFFFu32 - u) as i32) - 1
    }
}

/// The two's-complement value of a 64-bit word, as the signed type.
fn u64_to_i64(u: u64) -> (r: i64)
    ensures
        r == as_signed64(u),
{
    if u < 0x8000000000000000 {
        u as i64
    } else {
        -((0xFFFFFFFFFFFFFFFFu64 - u) as i64) - 1
    }
}

/// Decodes one two-byte slot number as a typed reference.
pub fn read_index<T: TryFromItem>(reader: &mut Reader) -> (r: Result<Index<T>, ParseError>)
    requires
        old(reader).wf(),
    ensures
        final(reader).wf(),
        final(reader).data@ == old(reader).data@,
        match spec_read_u16(old(reader).data@, old(reader).pos as int) {
            Ok((n, p)) => r == Ok::<Index<T>, ParseError>(Index::<T>::spec_new(n))
                && final(reader).pos == p,
            Err(e) => r == Err::<Index<T>, ParseError>(e),
        },
{
    let n = reader.read_u16()?;
    Ok(Index::new(n))
}

/// Decodes one tagged constant-table entry from the byte source.
#[verifier::rlimit(30)]
pub fn read_item(reader: &mut Reader) -> (r: Result<ConstItem, ParseError>)
    requires
        old(reader).wf(),
    ensures
        final(reader).wf(),
        final(reader).data@ == old(reader).data@,
        match spec_parse_item(old(reader).data@, old(reader).pos as int) {
            Ok((m, p)) => r matches Ok(item) && item@ == m && final(reader).pos == p,
            Err(e) => r matches Err(e2) && e2 == e,
        },
{
    let tag = reader.read_u8()?;
    match tag {
        1 => {
            let len = reader.read_u16()?;
            let bytes = reader.read_bytes(len as usize)?;
            let str = decode_text(&bytes);
            Ok(ConstItem::Utf8(Utf8 { bytes, str }))
        },
        3 => {
            let u = reader.read_u32()?;
            Ok(ConstItem::Integer(Integer { value: u32_to_i32(u) }))
        },
        4 => {
            let u = reader.read_u32()?;
            Ok(ConstItem::Float(Float { bits: u }))
        },
        5 => {
            let u = reader.read_u64()?;
            Ok(ConstItem::Long(Long { value: u64_to_i64(u) }))
        },
        6 => {
            let u = reader.read_u64()?;
            Ok(ConstItem::Double(Double { bits: u }))
        },
        7 => {
            let name_index = read_index(reader)?;
            Ok(ConstItem::Class(Class { name_index }))
        },
        8 => {
            let string_index = read_index(reader)?;
            Ok(ConstItem::StringJ(StringJ { string_index }))
        },
        9 => {
            let class_index = read_index(reader)?;
            let name_and_type_index = read_index(reader)?;
            Ok(ConstItem::FieldRef(FieldRef { class_index, name_and_type_index }))
        },
        10 => {
            let class_index = read_index(reader)?;
            let name_and_type_index = read_index(reader)?;
            Ok(ConstItem::MethodRef(MethodRef { class_index, name_and_type_index }))
        },
        11 => {
            let class_index = read_index(reader)?;
            let name_and_type_index = read_index(reader)?;
            Ok(ConstItem::InterfaceMethodRef(InterfaceMethodRef { class_index, name_and_type_index }))
        },
        12 => {
            let name_index = read_index(reader)?;
            let descriptor_index = read_index(reader)?;
            Ok(ConstItem::NameAndType(NameAndType { name_index, descriptor_index }))
        },
        15 => {
            let kb = reader.read_u8()?;
            let reference_kind = MethodHandleReferenceKind::try_from_u8(kb)?;
            let reference_index = reader.read_u16()?;
            Ok(ConstItem::MethodHandle(MethodHandle { reference_kind, reference_index }))
        },
        16 => {
            let descriptor_index = read_index(reader)?;
            Ok(ConstItem::MethodType(MethodType { descriptor_index }))
        },
        17 => {
            let bootstrap_method_attr_index = reader.read_u16()?;
            let name_and_type_index = read_index(reader)?;
            Ok(ConstItem::Dynamic(Dynamic { bootstrap_method_attr_index, name_and_type_index }))
        },
        18 => {
            let bootstrap_method_attr_index = reader.read_u16()?;
            let name_and_type_index = read_index(reader)?;
            Ok(ConstItem::InvokeDynamic(InvokeDynamic { bootstrap_method_attr_index, name_and_type_index }))
        },
        19 => {
            let name_index = read_index(reader)?;
            Ok(ConstItem::Module(Module { name_index }))
        },
        20 => {
            let name_index = read_index(reader)?;
            Ok(ConstItem::Package(Package { name_index }))
        },
        _ => Err(ParseError::UnrecognizedTag(TagContext::ConstantTag, tag)),
    }
}

} // verus!
