use vstd::prelude::*;

use crate::access_flags::AccessFlags;
use crate::const_types::{
    Class, ConstItem, Index, MethodHandle, Module as ModuleConst, NameAndType, OptionalIndex,
    Package, TryFromItem, Utf8, Utf8Model,
};

verus! {

/// A named, length-prefixed metadata record. Structural decode leaves
/// the payload opaque; the classification pass replaces it once with a
/// specifically typed payload.
#[derive(Debug, PartialEq)]
pub struct Attribute {
    pub attribute_name_index: Index<Utf8>,
    pub info: AttributeInfo,
}

/// An attribute list, as it appears at class, field, method, Code and
/// record-component level.
pub type Attributes = Vec<Attribute>;

/// The typed payload of an attribute, one variant per recognized name,
/// plus the explicit Unknown payload that keeps the raw bytes of an
/// unrecognized or malformed attribute.
#[derive(Debug, PartialEq)]
pub enum AttributeInfo {
    ConstantValue(ConstantValue),
    Code(Code),
    StackMapTable(StackMapTable),
    Exceptions(Exceptions),
    InnerClasses(InnerClasses),
    EnclosingMethod(EnclosingMethod),
    Synthetic(Synthetic),
    Signature(Signature),
    SourceFile(SourceFile),
    SourceDebugExtension(SourceDebugExtension),
    LineNumberTable(LineNumberTable),
    LocalVariableTable(LocalVariableTable),
    LocalVariableTypeTable(LocalVariableTypeTable),
    Deprecated(Deprecated),
    RuntimeVisibleAnnotations(RuntimeVisibleAnnotations),
    RuntimeInvisibleAnnotations(RuntimeInvisibleAnnotations),
    RuntimeVisibleParameterAnnotations(RuntimeVisibleParameterAnnotations),
    RuntimeInvisibleParameterAnnotations(RuntimeInvisibleParameterAnnotations),
    AnnotationDefault(AnnotationDefault),
    BootstrapMethods(BootstrapMethods),
    MethodParameters(MethodParameters),
    Module(Module),
    ModulePackages(ModulePackages),
    ModuleMainClass(ModuleMainClass),
    NestHost(NestHost),
    NestMembers(NestMembers),
    Record(Record),
    PermittedSubclasses(PermittedSubclasses),
    Unknown(Unknown),
}

#[derive(Debug, Clone, Copy, PartialEq, Eq)]
pub struct ConstantValue {
    pub constant_value_index: Index<ConstItem>,
}

/// The body of a method: sizing, the raw instruction stream (an
/// uninterpreted tagged sequence), the exception table, and a nested
/// attribute list of its own.
#[derive(Debug, PartialEq)]
pub struct Code {
    pub max_stack: u16,
    pub max_locals: u16,
    pub code: Vec<u8>,
    pub exception_table: Vec<ExceptionTable>,
    pub attributes: Attributes,
}

#[derive(Debug, Clone, Copy, PartialEq, Eq)]
pub struct ExceptionTable {
    pub start_pc: u16,
    pub end_pc: u16,
    pub handler_pc: u16,
    pub catch_type: OptionalIndex<Class>,
}

/// A recognized attribute whose internal layout is taken over verbatim
/// rather than decoded further.
#[derive(Debug, Clone, PartialEq, Eq)]
pub struct NotImplemented {
    pub bytes: Vec<u8>,
}

pub type StackMapTable = NotImplemented;

#[derive(Debug, Clone, PartialEq, Eq)]
pub struct Exceptions {
    pub exception_index_table: Vec<Index<Class>>,
}

#[derive(Debug, Clone, PartialEq, Eq)]
pub struct InnerClasses {
    pub classes: Vec<InnerClass>,
}

#[derive(Debug, Clone, Copy, PartialEq, Eq)]
pub struct InnerClass {
    pub inner_class_info_index: Index<Class>,
    pub outer_class_info_index: OptionalIndex<Class>,
    pub inner_name_index: OptionalIndex<Utf8>,
    pub inner_class_access_flags: AccessFlags,
}

#[derive(Debug, Clone, Copy, PartialEq, Eq)]
pub struct EnclosingMethod {
    pub class_index: Index<Class>,
    pub method_index: OptionalIndex<NameAndType>,
}

#[derive(Debug, Clone, Copy, PartialEq, Eq)]
pub struct Synthetic();

#[derive(Debug, Clone, Copy, PartialEq, Eq)]
pub struct Signature {
    pub signature_index: Index<Utf8>,
}

#[derive(Debug, Clone, Copy, PartialEq, Eq)]
pub struct SourceFile {
    pub sourcefile_index: Index<Utf8>,
}

#[derive(Debug, Clone, PartialEq, Eq)]
pub struct SourceDebugExtension {
    pub debug_extension: Utf8,
}

#[derive(Debug, Clone, PartialEq, Eq)]
pub struct LineNumberTable {
    pub line_number_table: Vec<LineNumber>,
}

#[derive(Debug, Clone, Copy, PartialEq, Eq, Structural)]
pub struct LineNumber {
    pub start_pc: u16,
    pub line_number: u16,
}

#[derive(Debug, Clone, PartialEq, Eq)]
pub struct LocalVariableTable {
    pub local_variable_table: Vec<LocalVariable>,
}

#[derive(Debug, Clone, Copy, PartialEq, Eq)]
pub struct LocalVariable {
    pub start_pc: u16,
    pub length: u16,
    pub name_index: Index<Utf8>,
    pub descriptor_index: Index<Utf8>,
    pub index: u16,
}

#[derive(Debug, Clone, PartialEq, Eq)]
pub struct LocalVariableTypeTable {
    pub local_variable_type_table: Vec<LocalVariableType>,
}

#[derive(Debug, Clone, Copy, PartialEq, Eq)]
pub struct LocalVariableType {
    pub start_pc: u16,
    pub length: u16,
    pub name_index: Index<Utf8>,
    pub signature_index: Index<Utf8>,
    pub index: u16,
}

#[derive(Debug, Clone, Copy, PartialEq, Eq)]
pub struct Deprecated();

pub type RuntimeVisibleAnnotations = NotImplemented;

pub type RuntimeInvisibleAnnotations = NotImplemented;

pub type RuntimeVisibleParameterAnnotations = NotImplemented;

pub type RuntimeInvisibleParameterAnnotations = NotImplemented;

pub type AnnotationDefault = NotImplemented;

#[derive(Debug, Clone, PartialEq)]
pub struct BootstrapMethods {
    pub bootstrap_methods: Vec<BootstrapMethod>,
}

#[derive(Debug, Clone, PartialEq)]
pub struct BootstrapMethod {
    pub bootstrap_method_ref: Index<MethodHandle>,
    pub bootstrap_arguments: Vec<Index<ConstItem>>,
}

#[derive(Debug, Clone, PartialEq, Eq)]
pub struct MethodParameters {
    pub parameters: Vec<MethodParameter>,
}

#[derive(Debug, Clone, Copy, PartialEq, Eq)]
pub struct MethodParameter {
    pub name_index: Index<Utf8>,
    pub access_flags: AccessFlags,
}

#[derive(Debug, Clone, PartialEq, Eq)]
pub struct Module {
    pub name_index: Index<Utf8>,
    pub flags: AccessFlags,
    pub version_index: OptionalIndex<Utf8>,
    pub requires: Vec<Requires>,
    pub exports: Vec<Exports>,
    pub opens: Vec<Opens>,
    pub uses: Vec<Uses>,
    pub provides: Vec<Provides>,
}

#[derive(Debug, Clone, Copy, PartialEq, Eq)]
pub struct Requires {
    pub requires_index: Index<Utf8>,
    pub flags: AccessFlags,
    pub version_index: OptionalIndex<Utf8>,
}

#[derive(Debug, Clone, PartialEq, Eq)]
pub struct Exports {
    pub exports_index: Index<Utf8>,
    pub flags: AccessFlags,
    pub to_index: Vec<Index<ModuleConst>>,
}

#[derive(Debug, Clone, PartialEq, Eq)]
pub struct Opens {
    pub opens_index: Index<Utf8>,
    pub flags: AccessFlags,
    pub to_index: Vec<Index<Utf8>>,
}

#[derive(Debug, Clone, Copy, PartialEq, Eq)]
pub struct Uses {
    pub uses_index: Index<Class>,
}

#[derive(Debug, Clone, PartialEq, Eq)]
pub struct Provides {
    pub provides_index: Index<Class>,
    pub with_index: Vec<Index<Class>>,
}

#[derive(Debug, Clone, PartialEq, Eq)]
pub struct ModulePackages {
    pub package_index: Vec<Index<Package>>,
}

#[derive(Debug, Clone, Copy, PartialEq, Eq)]
pub struct ModuleMainClass {
    pub main_class_index: Index<Class>,
}

#[derive(Debug, Clone, Copy, PartialEq, Eq)]
pub struct NestHost {
    pub host_class_index: Index<Class>,
}

#[derive(Debug, Clone, PartialEq, Eq)]
pub struct NestMembers {
    pub classes: Vec<Index<Class>>,
}

#[derive(Debug, PartialEq)]
pub struct Record {
    pub components: Vec<RecordComponent>,
}

#[derive(Debug, PartialEq)]
pub struct RecordComponent {
    pub name_index: Index<Utf8>,
    pub descriptor_index: Index<Utf8>,
    pub attributes: Attributes,
}

#[derive(Debug, Clone, PartialEq, Eq)]
pub struct PermittedSubclasses {
    pub classes: Vec<Index<Class>>,
}

/// The opaque payload of phase one, and the terminal payload of an
/// attribute whose name is unrecognized or whose bytes fail to parse.
#[derive(Debug, Clone, PartialEq, Eq)]
pub struct Unknown {
    pub bytes: Vec<u8>,
}

/// The mathematical content of an attribute.
pub struct AttributeModel {
    pub name_index: u16,
    pub info: AttributeInfoModel,
}

/// The mathematical content of a Code payload.
pub struct CodeModel {
    pub max_stack: u16,
    pub max_locals: u16,
    pub code: Seq<u8>,
    pub exception_table: Seq<ExceptionTable>,
    pub attributes: Seq<AttributeModel>,
}

/// The mathematical content of one bootstrap-method row.
pub struct BootstrapMethodModel {
    pub bootstrap_method_ref: Index<MethodHandle>,
    pub bootstrap_arguments: Seq<Index<ConstItem>>,
}

/// The mathematical content of one module-exports row.
pub struct ExportsModel {
    pub exports_index: Index<Utf8>,
    pub flags: AccessFlags,
    pub to_index: Seq<Index<ModuleConst>>,
}

/// The mathematical content of one module-opens row.
pub struct OpensModel {
    pub opens_index: Index<Utf8>,
    pub flags: AccessFlags,
    pub to_index: Seq<Index<Utf8>>,
}

/// The mathematical content of one module-provides row.
pub struct ProvidesModel {
    pub provides_index: Index<Class>,
    pub with_index: Seq<Index<Class>>,
}

/// The mathematical content of a Module payload.
pub struct ModuleModel {
    pub name_index: Index<Utf8>,
    pub flags: AccessFlags,
    pub version_index: OptionalIndex<Utf8>,
    pub requires: Seq<Requires>,
    pub exports: Seq<ExportsModel>,
    pub opens: Seq<OpensModel>,
    pub uses: Seq<Uses>,
    pub provides: Seq<ProvidesModel>,
}

/// The mathematical content of one record component.
pub struct RecordComponentModel {
    pub name_index: Index<Utf8>,
    pub descriptor_index: Index<Utf8>,
    pub attributes: Seq<AttributeModel>,
}

/// The mathematical content of an attribute payload.
pub enum AttributeInfoModel {
    ConstantValue(ConstantValue),
    Code(CodeModel),
    StackMapTable(Seq<u8>),
    Exceptions(Seq<Index<Class>>),
    InnerClasses(Seq<InnerClass>),
    EnclosingMethod(EnclosingMethod),
    Synthetic,
    Signature(Signature),
    SourceFile(SourceFile),
    SourceDebugExtension(Utf8Model),
    LineNumberTable(Seq<LineNumber>),
    LocalVariableTable(Seq<LocalVariable>),
    LocalVariableTypeTable(Seq<LocalVariableType>),
    Deprecated,
    RuntimeVisibleAnnotations(Seq<u8>),
    RuntimeInvisibleAnnotations(Seq<u8>),
    RuntimeVisibleParameterAnnotations(Seq<u8>),
    RuntimeInvisibleParameterAnnotations(Seq<u8>),
    AnnotationDefault(Seq<u8>),
    BootstrapMethods(Seq<BootstrapMethodModel>),
    MethodParameters(Seq<MethodParameter>),
    Module(ModuleModel),
    ModulePackages(Seq<Index<Package>>),
    ModuleMainClass(ModuleMainClass),
    NestHost(NestHost),
    NestMembers(Seq<Index<Class>>),
    Record(Seq<RecordComponentModel>),
    PermittedSubclasses(Seq<Index<Class>>),
    Unknown(Seq<u8>),
}

/// The model of an attribute list.
pub open spec fn attrs_view(v: Seq<Attribute>) -> Seq<AttributeModel>
    decreases v,
{
    Seq::new(
        v.len(),
        |i: int|
            if 0 <= i < v.len() {
                attr_view(v[i])
            } else {
                vstd::pervasive::arbitrary()
            },
    )
}

/// The model of a record-component list.
pub open spec fn components_view(s: Seq<RecordComponent>) -> Seq<RecordComponentModel>
    decreases s,
{
    Seq::new(
        s.len(),
        |i: int|
            if 0 <= i < s.len() {
                component_view(s[i])
            } else {
                vstd::pervasive::arbitrary()
            },
    )
}

/// The model of one attribute.
pub open spec fn attr_view(a: Attribute) -> AttributeModel
    decreases a,
{
    AttributeModel { name_index: a.attribute_name_index.index, info: info_view(a.info) }
}

/// The model of one record component.
pub open spec fn component_view(c: RecordComponent) -> RecordComponentModel
    decreases c,
{
    RecordComponentModel {
        name_index: c.name_index,
        descriptor_index: c.descriptor_index,
        attributes: attrs_view(c.attributes@),
    }
}

/// The model of one bootstrap-method row.
pub open spec fn bootstrap_method_view(m: BootstrapMethod) -> BootstrapMethodModel {
    BootstrapMethodModel {
        bootstrap_method_ref: m.bootstrap_method_ref,
        bootstrap_arguments: m.bootstrap_arguments@,
    }
}

/// The model of one module-exports row.
pub open spec fn exports_view(e: Exports) -> ExportsModel {
    ExportsModel { exports_index: e.exports_index, flags: e.flags, to_index: e.to_index@ }
}

/// The model of one module-opens row.
pub open spec fn opens_view(o: Opens) -> OpensModel {
    OpensModel { opens_index: o.opens_index, flags: o.flags, to_index: o.to_index@ }
}

/// The model of one module-provides row.
pub open spec fn provides_view(p: Provides) -> ProvidesModel {
    ProvidesModel { provides_index: p.provides_index, with_index: p.with_index@ }
}

/// The model of a Module payload.
pub open spec fn module_view(m: Module) -> ModuleModel {
    ModuleModel {
        name_index: m.name_index,
        flags: m.flags,
        version_index: m.version_index,
        requires: m.requires@,
        exports: m.exports@.map_values(|e: Exports| exports_view(e)),
        opens: m.opens@.map_values(|o: Opens| opens_view(o)),
        uses: m.uses@,
        provides: m.provides@.map_values(|p: Provides| provides_view(p)),
    }
}

/// The model of an attribute payload.
pub open spec fn info_view(info: AttributeInfo) -> AttributeInfoModel
    decreases info,
{
    match info {
        AttributeInfo::ConstantValue(x) => AttributeInfoModel::ConstantValue(x),
        AttributeInfo::Code(c) => AttributeInfoModel::Code(
            CodeModel {
                max_stack: c.max_stack,
                max_locals: c.max_locals,
                code: c.code@,
                exception_table: c.exception_table@,
                attributes: attrs_view(c.attributes@),
            },
        ),
        AttributeInfo::StackMapTable(x) => AttributeInfoModel::StackMapTable(x.bytes@),
        AttributeInfo::Exceptions(x) => AttributeInfoModel::Exceptions(x.exception_index_table@),
        AttributeInfo::InnerClasses(x) => AttributeInfoModel::InnerClasses(x.classes@),
        AttributeInfo::EnclosingMethod(x) => AttributeInfoModel::EnclosingMethod(x),
        AttributeInfo::Synthetic(_) => AttributeInfoModel::Synthetic,
        AttributeInfo::Signature(x) => AttributeInfoModel::Signature(x),
        AttributeInfo::SourceFile(x) => AttributeInfoModel::SourceFile(x),
        AttributeInfo::SourceDebugExtension(x) => AttributeInfoModel::SourceDebugExtension(
            x.debug_extension@,
        ),
        AttributeInfo::LineNumberTable(x) => AttributeInfoModel::LineNumberTable(
            x.line_number_table@,
        ),
        AttributeInfo::LocalVariableTable(x) => AttributeInfoModel::LocalVariableTable(
            x.local_variable_table@,
        ),
        AttributeInfo::LocalVariableTypeTable(x) => AttributeInfoModel::LocalVariableTypeTable(
            x.local_variable_type_table@,
        ),
        AttributeInfo::Deprecated(_) => AttributeInfoModel::Deprecated,
        AttributeInfo::RuntimeVisibleAnnotations(x) => AttributeInfoModel::RuntimeVisibleAnnotations(
            x.bytes@,
        ),
        AttributeInfo::RuntimeInvisibleAnnotations(
            x,
        ) => AttributeInfoModel::RuntimeInvisibleAnnotations(x.bytes@),
        AttributeInfo::RuntimeVisibleParameterAnnotations(
            x,
        ) => AttributeInfoModel::RuntimeVisibleParameterAnnotations(x.bytes@),
        AttributeInfo::RuntimeInvisibleParameterAnnotations(
            x,
        ) => AttributeInfoModel::RuntimeInvisibleParameterAnnotations(x.bytes@),
        AttributeInfo::AnnotationDefault(x) => AttributeInfoModel::AnnotationDefault(x.bytes@),
        AttributeInfo::BootstrapMethods(x) => AttributeInfoModel::BootstrapMethods(
            x.bootstrap_methods@.map_values(|m: BootstrapMethod| bootstrap_method_view(m)),
        ),
        AttributeInfo::MethodParameters(x) => AttributeInfoModel::MethodParameters(x.parameters@),
        AttributeInfo::Module(x) => AttributeInfoModel::Module(module_view(x)),
        AttributeInfo::ModulePackages(x) => AttributeInfoModel::ModulePackages(x.package_index@),
        AttributeInfo::ModuleMainClass(x) => AttributeInfoModel::ModuleMainClass(x),
        AttributeInfo::NestHost(x) => AttributeInfoModel::NestHost(x),
        AttributeInfo::NestMembers(x) => AttributeInfoModel::NestMembers(x.classes@),
        AttributeInfo::Record(x) => AttributeInfoModel::Record(components_view(x.components@)),
        AttributeInfo::PermittedSubclasses(x) => AttributeInfoModel::PermittedSubclasses(x.classes@),
        AttributeInfo::Unknown(x) => AttributeInfoModel::Unknown(x.bytes@),
    }
}

impl View for Attribute {
    type V = AttributeModel;

    open spec fn view(&self) -> AttributeModel {
        attr_view(*self)
    }
}

impl View for AttributeInfo {
    type V = AttributeInfoModel;

    open spec fn view(&self) -> AttributeInfoModel {
        info_view(*self)
    }
}

} // verus!
