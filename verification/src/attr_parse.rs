use vstd::prelude::*;

use crate::access_flags::{spec_parse_flags, read_flags};
use crate::attributes::{
    attrs_view, bootstrap_method_view, component_view, exports_view, module_view,
    opens_view, provides_view, Attribute, AttributeInfo, AttributeInfoModel, AttributeModel,
    BootstrapMethod, BootstrapMethodModel, BootstrapMethods, Code, CodeModel, ConstantValue,
    Deprecated,
    EnclosingMethod, ExceptionTable, Exceptions, Exports, ExportsModel, InnerClass, InnerClasses,
    LineNumber, LineNumberTable, LocalVariable, LocalVariableTable, LocalVariableType,
    LocalVariableTypeTable, MethodParameter, MethodParameters, Module, ModuleMainClass,
    ModuleModel, ModulePackages, NestHost, NestMembers, NotImplemented, Opens, OpensModel,
    PermittedSubclasses, Provides, ProvidesModel, Record, RecordComponent, RecordComponentModel,
    Requires, Signature, SourceDebugExtension, SourceFile, Synthetic, Unknown, Uses,
};
use crate::const_types::{
    read_index, spec_parse_utf8, Class, ConstItem, Index, Module as ModuleConst, Package, Utf8,
    Utf8Model,
};
use crate::error::{FlagContext, ParseError};
use crate::reader::{spec_read_bytes, spec_read_u16, spec_read_u32, spec_read_u8, Reader};
use crate::wire::{list_view, read_list, spec_parse_list, Readable};

verus! {

impl Readable for ConstantValue {
    type Model = ConstantValue;

    open spec fn spec_parse(b: Seq<u8>, pos: int) -> Result<(ConstantValue, int), ParseError> {
        match spec_read_u16(b, pos) {
            Err(e) => Err(e),
            Ok((x_constant_value_index, p1)) => Ok((ConstantValue { constant_value_index: Index::spec_new(x_constant_value_index) }, p1)),
        }
    }

    open spec fn model(self) -> ConstantValue {
        self
    }

    fn read(reader: &mut Reader) -> (r: Result<ConstantValue, ParseError>) {
        let constant_value_index = read_index(reader)?;
        Ok(ConstantValue { constant_value_index })
    }
}

impl Readable for ExceptionTable {
    type Model = ExceptionTable;

    open spec fn spec_parse(b: Seq<u8>, pos: int) -> Result<(ExceptionTable, int), ParseError> {
        match spec_read_u16(b, pos) {
            Err(e) => Err(e),
            Ok((start_pc, p1)) => match spec_read_u16(b, p1) {
                Err(e) => Err(e),
                Ok((end_pc, p2)) => match spec_read_u16(b, p2) {
                    Err(e) => Err(e),
                    Ok((handler_pc, p3)) => match spec_read_u16(b, p3) {
                        Err(e) => Err(e),
                        Ok((x_catch_type, p4)) => Ok((ExceptionTable { start_pc, end_pc, handler_pc, catch_type: Index::spec_new(x_catch_type) }, p4)),
                    },
                },
            },
        }
    }

    open spec fn model(self) -> ExceptionTable {
        self
    }

    fn read(reader: &mut Reader) -> (r: Result<ExceptionTable, ParseError>) {
        let start_pc = reader.read_u16()?;
        let end_pc = reader.read_u16()?;
        let handler_pc = reader.read_u16()?;
        let catch_type = read_index(reader)?;
        Ok(ExceptionTable { start_pc, end_pc, handler_pc, catch_type })
    }
}

impl Readable for InnerClass {
    type Model = InnerClass;

    open spec fn spec_parse(b: Seq<u8>, pos: int) -> Result<(InnerClass, int), ParseError> {
        match spec_read_u16(b, pos) {
            Err(e) => Err(e),
            Ok((x_inner_class_info_index, p1)) => match spec_read_u16(b, p1) {
                Err(e) => Err(e),
                Ok((x_outer_class_info_index, p2)) => match spec_read_u16(b, p2) {
                    Err(e) => Err(e),
                    Ok((x_inner_name_index, p3)) => match spec_parse_flags(b, p3, FlagContext::InnerClass) {
                        Err(e) => Err(e),
                        Ok((inner_class_access_flags, p4)) => Ok((InnerClass { inner_class_info_index: Index::spec_new(x_inner_class_info_index), outer_class_info_index: Index::spec_new(x_outer_class_info_index), inner_name_index: Index::spec_new(x_inner_name_index), inner_class_access_flags }, p4)),
                    },
                },
            },
        }
    }

    open spec fn model(self) -> InnerClass {
        self
    }

    fn read(reader: &mut Reader) -> (r: Result<InnerClass, ParseError>) {
        let inner_class_info_index = read_index(reader)?;
        let outer_class_info_index = read_index(reader)?;
        let inner_name_index = read_index(reader)?;
        let inner_class_access_flags = read_flags(reader, FlagContext::InnerClass)?;
        Ok(InnerClass { inner_class_info_index, outer_class_info_index, inner_name_index, inner_class_access_flags })
    }
}

impl Readable for EnclosingMethod {
    type Model = EnclosingMethod;

    open spec fn spec_parse(b: Seq<u8>, pos: int) -> Result<(EnclosingMethod, int), ParseError> {
        match spec_read_u16(b, pos) {
            Err(e) => Err(e),
            Ok((x_class_index, p1)) => match spec_read_u16(b, p1) {
                Err(e) => Err(e),
                Ok((x_method_index, p2)) => Ok((EnclosingMethod { class_index: Index::spec_new(x_class_index), method_index: Index::spec_new(x_method_index) }, p2)),
            },
        }
    }

    open spec fn model(self) -> EnclosingMethod {
        self
    }

    fn read(reader: &mut Reader) -> (r: Result<EnclosingMethod, ParseError>) {
        let class_index = read_index(reader)?;
        let method_index = read_index(reader)?;
        Ok(EnclosingMethod { class_index, method_index })
    }
}

impl Readable for Signature {
    type Model = Signature;

    open spec fn spec_parse(b: Seq<u8>, pos: int) -> Result<(Signature, int), ParseError> {
        match spec_read_u16(b, pos) {
            Err(e) => Err(e),
            Ok((x_signature_index, p1)) => Ok((Signature { signature_index: Index::spec_new(x_signature_index) }, p1)),
        }
    }

    open spec fn model(self) -> Signature {
        self
    }

    fn read(reader: &mut Reader) -> (r: Result<Signature, ParseError>) {
        let signature_index = read_index(reader)?;
        Ok(Signature { signature_index })
    }
}

impl Readable for SourceFile {
    type Model = SourceFile;

    open spec fn spec_parse(b: Seq<u8>, pos: int) -> Result<(SourceFile, int), ParseError> {
        match spec_read_u16(b, pos) {
            Err(e) => Err(e),
            Ok((x_sourcefile_index, p1)) => Ok((SourceFile { sourcefile_index: Index::spec_new(x_sourcefile_index) }, p1)),
        }
    }

    open spec fn model(self) -> SourceFile {
        self
    }

    fn read(reader: &mut Reader) -> (r: Result<SourceFile, ParseError>) {
        let sourcefile_index = read_index(reader)?;
        Ok(SourceFile { sourcefile_index })
    }
}

impl Readable for LineNumber {
    type Model = LineNumber;

    open spec fn spec_parse(b: Seq<u8>, pos: int) -> Result<(LineNumber, int), ParseError> {
        match spec_read_u16(b, pos) {
            Err(e) => Err(e),
            Ok((start_pc, p1)) => match spec_read_u16(b, p1) {
                Err(e) => Err(e),
                Ok((line_number, p2)) => Ok((LineNumber { start_pc, line_number }, p2)),
            },
        }
    }

    open spec fn model(self) -> LineNumber {
        self
    }

    fn read(reader: &mut Reader) -> (r: Result<LineNumber, ParseError>) {
        let start_pc = reader.read_u16()?;
        let line_number = reader.read_u16()?;
        Ok(LineNumber { start_pc, line_number })
    }
}

impl Readable for LocalVariable {
    type Model = LocalVariable;

    open spec fn spec_parse(b: Seq<u8>, pos: int) -> Result<(LocalVariable, int), ParseError> {
        match spec_read_u16(b, pos) {
            Err(e) => Err(e),
            Ok((start_pc, p1)) => match spec_read_u16(b, p1) {
                Err(e) => Err(e),
                Ok((length, p2)) => match spec_read_u16(b, p2) {
                    Err(e) => Err(e),
                    Ok((x_name_index, p3)) => match spec_read_u16(b, p3) {
                        Err(e) => Err(e),
                        Ok((x_descriptor_index, p4)) => match spec_read_u16(b, p4) {
                            Err(e) => Err(e),
                            Ok((index, p5)) => Ok((LocalVariable { start_pc, length, name_index: Index::spec_new(x_name_index), descriptor_index: Index::spec_new(x_descriptor_index), index }, p5)),
                        },
                    },
                },
            },
        }
    }

    open spec fn model(self) -> LocalVariable {
        self
    }

    fn read(reader: &mut Reader) -> (r: Result<LocalVariable, ParseError>) {
        let start_pc = reader.read_u16()?;
        let length = reader.read_u16()?;
        let name_index = read_index(reader)?;
        let descriptor_index = read_index(reader)?;
        let index = reader.read_u16()?;
        Ok(LocalVariable { start_pc, length, name_index, descriptor_index, index })
    }
}

impl Readable for LocalVariableType {
    type Model = LocalVariableType;

    open spec fn spec_parse(b: Seq<u8>, pos: int) -> Result<(LocalVariableType, int), ParseError> {
        match spec_read_u16(b, pos) {
            Err(e) => Err(e),
            Ok((start_pc, p1)) => match spec_read_u16(b, p1) {
                Err(e) => Err(e),
                Ok((length, p2)) => match spec_read_u16(b, p2) {
                    Err(e) => Err(e),
                    Ok((x_name_index, p3)) => match spec_read_u16(b, p3) {
                        Err(e) => Err(e),
                        Ok((x_signature_index, p4)) => match spec_read_u16(b, p4) {
                            Err(e) => Err(e),
                            Ok((index, p5)) => Ok((LocalVariableType { start_pc, length, name_index: Index::spec_new(x_name_index), signature_index: Index::spec_new(x_signature_index), index }, p5)),
                        },
                    },
                },
            },
        }
    }

    open spec fn model(self) -> LocalVariableType {
        self
    }

    fn read(reader: &mut Reader) -> (r: Result<LocalVariableType, ParseError>) {
        let start_pc = reader.read_u16()?;
        let length = reader.read_u16()?;
        let name_index = read_index(reader)?;
        let signature_index = read_index(reader)?;
        let index = reader.read_u16()?;
        Ok(LocalVariableType { start_pc, length, name_index, signature_index, index })
    }
}

impl Readable for MethodParameter {
    type Model = MethodParameter;

    open spec fn spec_parse(b: Seq<u8>, pos: int) -> Result<(MethodParameter, int), ParseError> {
        match spec_read_u16(b, pos) {
            Err(e) => Err(e),
            Ok((x_name_index, p1)) => match spec_parse_flags(b, p1, FlagContext::MethodParameter) {
                Err(e) => Err(e),
                Ok((access_flags, p2)) => Ok((MethodParameter { name_index: Index::spec_new(x_name_index), access_flags }, p2)),
            },
        }
    }

    open spec fn model(self) -> MethodParameter {
        self
    }

    fn read(reader: &mut Reader) -> (r: Result<MethodParameter, ParseError>) {
        let name_index = read_index(reader)?;
        let access_flags = read_flags(reader, FlagContext::MethodParameter)?;
        Ok(MethodParameter { name_index, access_flags })
    }
}

impl Readable for Requires {
    type Model = Requires;

    open spec fn spec_parse(b: Seq<u8>, pos: int) -> Result<(Requires, int), ParseError> {
        match spec_read_u16(b, pos) {
            Err(e) => Err(e),
            Ok((x_requires_index, p1)) => match spec_parse_flags(b, p1, FlagContext::Requires) {
                Err(e) => Err(e),
                Ok((flags, p2)) => match spec_read_u16(b, p2) {
                    Err(e) => Err(e),
                    Ok((x_version_index, p3)) => Ok((Requires { requires_index: Index::spec_new(x_requires_index), flags, version_index: Index::spec_new(x_version_index) }, p3)),
                },
            },
        }
    }

    open spec fn model(self) -> Requires {
        self
    }

    fn read(reader: &mut Reader) -> (r: Result<Requires, ParseError>) {
        let requires_index = read_index(reader)?;
        let flags = read_flags(reader, FlagContext::Requires)?;
        let version_index = read_index(reader)?;
        Ok(Requires { requires_index, flags, version_index })
    }
}

impl Readable for Uses {
    type Model = Uses;

    open spec fn spec_parse(b: Seq<u8>, pos: int) -> Result<(Uses, int), ParseError> {
        match spec_read_u16(b, pos) {
            Err(e) => Err(e),
            Ok((x_uses_index, p1)) => Ok((Uses { uses_index: Index::spec_new(x_uses_index) }, p1)),
        }
    }

    open spec fn model(self) -> Uses {
        self
    }

    fn read(reader: &mut Reader) -> (r: Result<Uses, ParseError>) {
        let uses_index = read_index(reader)?;
        Ok(Uses { uses_index })
    }
}

impl Readable for ModuleMainClass {
    type Model = ModuleMainClass;

    open spec fn spec_parse(b: Seq<u8>, pos: int) -> Result<(ModuleMainClass, int), ParseError> {
        match spec_read_u16(b, pos) {
            Err(e) => Err(e),
            Ok((x_main_class_index, p1)) => Ok((ModuleMainClass { main_class_index: Index::spec_new(x_main_class_index) }, p1)),
        }
    }

    open spec fn model(self) -> ModuleMainClass {
        self
    }

    fn read(reader: &mut Reader) -> (r: Result<ModuleMainClass, ParseError>) {
        let main_class_index = read_index(reader)?;
        Ok(ModuleMainClass { main_class_index })
    }
}

impl Readable for NestHost {
    type Model = NestHost;

    open spec fn spec_parse(b: Seq<u8>, pos: int) -> Result<(NestHost, int), ParseError> {
        match spec_read_u16(b, pos) {
            Err(e) => Err(e),
            Ok((x_host_class_index, p1)) => Ok((NestHost { host_class_index: Index::spec_new(x_host_class_index) }, p1)),
        }
    }

    open spec fn model(self) -> NestHost {
        self
    }

    fn read(reader: &mut Reader) -> (r: Result<NestHost, ParseError>) {
        let host_class_index = read_index(reader)?;
        Ok(NestHost { host_class_index })
    }
}

impl Readable for Synthetic {
    type Model = Synthetic;

    open spec fn spec_parse(b: Seq<u8>, pos: int) -> Result<(Synthetic, int), ParseError> {
        Ok((Synthetic(), pos))
    }

    open spec fn model(self) -> Synthetic {
        self
    }

    fn read(_reader: &mut Reader) -> (r: Result<Synthetic, ParseError>) {
        Ok(Synthetic())
    }
}

impl Readable for Deprecated {
    type Model = Deprecated;

    open spec fn spec_parse(b: Seq<u8>, pos: int) -> Result<(Deprecated, int), ParseError> {
        Ok((Deprecated(), pos))
    }

    open spec fn model(self) -> Deprecated {
        self
    }

    fn read(_reader: &mut Reader) -> (r: Result<Deprecated, ParseError>) {
        Ok(Deprecated())
    }
}

impl Readable for Exceptions {
    type Model = Seq<Index<Class>>;

    open spec fn spec_parse(b: Seq<u8>, pos: int) -> Result<(Seq<Index<Class>>, int), ParseError> {
        match spec_read_u16(b, pos) {
            Err(e) => Err(e),
            Ok((n, p1)) => spec_parse_list::<Index<Class>>(b, p1, n as nat),
        }
    }

    open spec fn model(self) -> Seq<Index<Class>> {
        self.exception_index_table@
    }

    fn read(reader: &mut Reader) -> (r: Result<Exceptions, ParseError>) {
        let n = reader.read_u16()?;
        let items = read_list::<Index<Class>>(reader, n as usize)?;
        proof {
            assert(items@ =~= list_view(items@));
        }
        Ok(Exceptions { exception_index_table: items })
    }
}

impl Readable for InnerClasses {
    type Model = Seq<InnerClass>;

    open spec fn spec_parse(b: Seq<u8>, pos: int) -> Result<(Seq<InnerClass>, int), ParseError> {
        match spec_read_u16(b, pos) {
            Err(e) => Err(e),
            Ok((n, p1)) => spec_parse_list::<InnerClass>(b, p1, n as nat),
        }
    }

    open spec fn model(self) -> Seq<InnerClass> {
        self.classes@
    }

    fn read(reader: &mut Reader) -> (r: Result<InnerClasses, ParseError>) {
        let n = reader.read_u16()?;
        let items = read_list::<InnerClass>(reader, n as usize)?;
        proof {
            assert(items@ =~= list_view(items@));
        }
        Ok(InnerClasses { classes: items })
    }
}

impl Readable for LineNumberTable {
    type Model = Seq<LineNumber>;

    open spec fn spec_parse(b: Seq<u8>, pos: int) -> Result<(Seq<LineNumber>, int), ParseError> {
        match spec_read_u16(b, pos) {
            Err(e) => Err(e),
            Ok((n, p1)) => spec_parse_list::<LineNumber>(b, p1, n as nat),
        }
    }

    open spec fn model(self) -> Seq<LineNumber> {
        self.line_number_table@
    }

    fn read(reader: &mut Reader) -> (r: Result<LineNumberTable, ParseError>) {
        let n = reader.read_u16()?;
        let items = read_list::<LineNumber>(reader, n as usize)?;
        proof {
            assert(items@ =~= list_view(items@));
        }
        Ok(LineNumberTable { line_number_table: items })
    }
}

impl Readable for LocalVariableTable {
    type Model = Seq<LocalVariable>;

    open spec fn spec_parse(b: Seq<u8>, pos: int) -> Result<(Seq<LocalVariable>, int), ParseError> {
        match spec_read_u16(b, pos) {
            Err(e) => Err(e),
            Ok((n, p1)) => spec_parse_list::<LocalVariable>(b, p1, n as nat),
        }
    }

    open spec fn model(self) -> Seq<LocalVariable> {
        self.local_variable_table@
    }

    fn read(reader: &mut Reader) -> (r: Result<LocalVariableTable, ParseError>) {
        let n = reader.read_u16()?;
        let items = read_list::<LocalVariable>(reader, n as usize)?;
        proof {
            assert(items@ =~= list_view(items@));
        }
        Ok(LocalVariableTable { local_variable_table: items })
    }
}

impl Readable for LocalVariableTypeTable {
    type Model = Seq<LocalVariableType>;

    open spec fn spec_parse(b: Seq<u8>, pos: int) -> Result<(Seq<LocalVariableType>, int), ParseError> {
        match spec_read_u16(b, pos) {
            Err(e) => Err(e),
            Ok((n, p1)) => spec_parse_list::<LocalVariableType>(b, p1, n as nat),
        }
    }

    open spec fn model(self) -> Seq<LocalVariableType> {
        self.local_variable_type_table@
    }

    fn read(reader: &mut Reader) -> (r: Result<LocalVariableTypeTable, ParseError>) {
        let n = reader.read_u16()?;
        let items = read_list::<LocalVariableType>(reader, n as usize)?;
        proof {
            assert(items@ =~= list_view(items@));
        }
        Ok(LocalVariableTypeTable { local_variable_type_table: items })
    }
}

impl Readable for MethodParameters {
    type Model = Seq<MethodParameter>;

    open spec fn spec_parse(b: Seq<u8>, pos: int) -> Result<(Seq<MethodParameter>, int), ParseError> {
        match spec_read_u8(b, pos) {
            Err(e) => Err(e),
            Ok((n, p1)) => spec_parse_list::<MethodParameter>(b, p1, n as nat),
        }
    }

    open spec fn model(self) -> Seq<MethodParameter> {
        self.parameters@
    }

    fn read(reader: &mut Reader) -> (r: Result<MethodParameters, ParseError>) {
        let n = reader.read_u8()?;
        let items = read_list::<MethodParameter>(reader, n as usize)?;
        proof {
            assert(items@ =~= list_view(items@));
        }
        Ok(MethodParameters { parameters: items })
    }
}

impl Readable for ModulePackages {
    type Model = Seq<Index<Package>>;

    open spec fn spec_parse(b: Seq<u8>, pos: int) -> Result<(Seq<Index<Package>>, int), ParseError> {
        match spec_read_u16(b, pos) {
            Err(e) => Err(e),
            Ok((n, p1)) => spec_parse_list::<Index<Package>>(b, p1, n as nat),
        }
    }

    open spec fn model(self) -> Seq<Index<Package>> {
        self.package_index@
    }

    fn read(reader: &mut Reader) -> (r: Result<ModulePackages, ParseError>) {
        let n = reader.read_u16()?;
        let items = read_list::<Index<Package>>(reader, n as usize)?;
        proof {
            assert(items@ =~= list_view(items@));
        }
        Ok(ModulePackages { package_index: items })
    }
}

impl Readable for NestMembers {
    type Model = Seq<Index<Class>>;

    open spec fn spec_parse(b: Seq<u8>, pos: int) -> Result<(Seq<Index<Class>>, int), ParseError> {
        match spec_read_u16(b, pos) {
            Err(e) => Err(e),
            Ok((n, p1)) => spec_parse_list::<Index<Class>>(b, p1, n as nat),
        }
    }

    open spec fn model(self) -> Seq<Index<Class>> {
        self.classes@
    }

    fn read(reader: &mut Reader) -> (r: Result<NestMembers, ParseError>) {
        let n = reader.read_u16()?;
        let items = read_list::<Index<Class>>(reader, n as usize)?;
        proof {
            assert(items@ =~= list_view(items@));
        }
        Ok(NestMembers { classes: items })
    }
}

impl Readable for PermittedSubclasses {
    type Model = Seq<Index<Class>>;

    open spec fn spec_parse(b: Seq<u8>, pos: int) -> Result<(Seq<Index<Class>>, int), ParseError> {
        match spec_read_u16(b, pos) {
            Err(e) => Err(e),
            Ok((n, p1)) => spec_parse_list::<Index<Class>>(b, p1, n as nat),
        }
    }

    open spec fn model(self) -> Seq<Index<Class>> {
        self.classes@
    }

    fn read(reader: &mut Reader) -> (r: Result<PermittedSubclasses, ParseError>) {
        let n = reader.read_u16()?;
        let items = read_list::<Index<Class>>(reader, n as usize)?;
        proof {
            assert(items@ =~= list_view(items@));
        }
        Ok(PermittedSubclasses { classes: items })
    }
}


impl Readable for Exports {
    type Model = ExportsModel;

    open spec fn spec_parse(b: Seq<u8>, pos: int) -> Result<(ExportsModel, int), ParseError> {
        match spec_read_u16(b, pos) {
            Err(e) => Err(e),
            Ok((x_idx, p1)) => match spec_parse_flags(b, p1, FlagContext::Exports) {
                Err(e) => Err(e),
                Ok((flags, p2)) => match spec_read_u16(b, p2) {
                    Err(e) => Err(e),
                    Ok((n, p3)) => match spec_parse_list::<Index<ModuleConst>>(b, p3, n as nat) {
                        Err(e) => Err(e),
                        Ok((to, p4)) => Ok(
                            (
                                ExportsModel {
                                    exports_index: Index::spec_new(x_idx),
                                    flags,
                                    to_index: to,
                                },
                                p4,
                            ),
                        ),
                    },
                },
            },
        }
    }

    open spec fn model(self) -> ExportsModel {
        exports_view(self)
    }

    fn read(reader: &mut Reader) -> (r: Result<Exports, ParseError>) {
        let exports_index = read_index(reader)?;
        let flags = read_flags(reader, FlagContext::Exports)?;
        let n = reader.read_u16()?;
        let to_index = read_list::<Index<ModuleConst>>(reader, n as usize)?;
        proof {
            assert(to_index@ =~= list_view(to_index@));
        }
        Ok(Exports { exports_index, flags, to_index })
    }
}

impl Readable for Opens {
    type Model = OpensModel;

    open spec fn spec_parse(b: Seq<u8>, pos: int) -> Result<(OpensModel, int), ParseError> {
        match spec_read_u16(b, pos) {
            Err(e) => Err(e),
            Ok((x_idx, p1)) => match spec_parse_flags(b, p1, FlagContext::Opens) {
                Err(e) => Err(e),
                Ok((flags, p2)) => match spec_read_u16(b, p2) {
                    Err(e) => Err(e),
                    Ok((n, p3)) => match spec_parse_list::<Index<Utf8>>(b, p3, n as nat) {
                        Err(e) => Err(e),
                        Ok((to, p4)) => Ok(
                            (
                                OpensModel {
                                    opens_index: Index::spec_new(x_idx),
                                    flags,
                                    to_index: to,
                                },
                                p4,
                            ),
                        ),
                    },
                },
            },
        }
    }

    open spec fn model(self) -> OpensModel {
        opens_view(self)
    }

    fn read(reader: &mut Reader) -> (r: Result<Opens, ParseError>) {
        let opens_index = read_index(reader)?;
        let flags = read_flags(reader, FlagContext::Opens)?;
        let n = reader.read_u16()?;
        let to_index = read_list::<Index<Utf8>>(reader, n as usize)?;
        proof {
            assert(to_index@ =~= list_view(to_index@));
        }
        Ok(Opens { opens_index, flags, to_index })
    }
}

impl Readable for Provides {
    type Model = ProvidesModel;

    open spec fn spec_parse(b: Seq<u8>, pos: int) -> Result<(ProvidesModel, int), ParseError> {
        match spec_read_u16(b, pos) {
            Err(e) => Err(e),
            Ok((x_idx, p1)) => match spec_read_u16(b, p1) {
                Err(e) => Err(e),
                Ok((n, p2)) => match spec_parse_list::<Index<Class>>(b, p2, n as nat) {
                    Err(e) => Err(e),
                    Ok((with, p3)) => Ok(
                        (
                            ProvidesModel {
                                provides_index: Index::spec_new(x_idx),
                                with_index: with,
                            },
                            p3,
                        ),
                    ),
                },
            },
        }
    }

    open spec fn model(self) -> ProvidesModel {
        provides_view(self)
    }

    fn read(reader: &mut Reader) -> (r: Result<Provides, ParseError>) {
        let provides_index = read_index(reader)?;
        let n = reader.read_u16()?;
        let with_index = read_list::<Index<Class>>(reader, n as usize)?;
        proof {
            assert(with_index@ =~= list_view(with_index@));
        }
        Ok(Provides { provides_index, with_index })
    }
}

impl Readable for BootstrapMethod {
    type Model = BootstrapMethodModel;

    open spec fn spec_parse(b: Seq<u8>, pos: int) -> Result<(BootstrapMethodModel, int), ParseError> {
        match spec_read_u16(b, pos) {
            Err(e) => Err(e),
            Ok((x_idx, p1)) => match spec_read_u16(b, p1) {
                Err(e) => Err(e),
                Ok((n, p2)) => match spec_parse_list::<Index<ConstItem>>(b, p2, n as nat) {
                    Err(e) => Err(e),
                    Ok((args, p3)) => Ok(
                        (
                            BootstrapMethodModel {
                                bootstrap_method_ref: Index::spec_new(x_idx),
                                bootstrap_arguments: args,
                            },
                            p3,
                        ),
                    ),
                },
            },
        }
    }

    open spec fn model(self) -> BootstrapMethodModel {
        bootstrap_method_view(self)
    }

    fn read(reader: &mut Reader) -> (r: Result<BootstrapMethod, ParseError>) {
        let bootstrap_method_ref = read_index(reader)?;
        let n = reader.read_u16()?;
        let bootstrap_arguments = read_list::<Index<ConstItem>>(reader, n as usize)?;
        proof {
            assert(bootstrap_arguments@ =~= list_view(bootstrap_arguments@));
        }
        Ok(BootstrapMethod { bootstrap_method_ref, bootstrap_arguments })
    }
}

impl Readable for BootstrapMethods {
    type Model = Seq<BootstrapMethodModel>;

    open spec fn spec_parse(b: Seq<u8>, pos: int) -> Result<(Seq<BootstrapMethodModel>, int), ParseError> {
        match spec_read_u16(b, pos) {
            Err(e) => Err(e),
            Ok((n, p1)) => spec_parse_list::<BootstrapMethod>(b, p1, n as nat),
        }
    }

    open spec fn model(self) -> Seq<BootstrapMethodModel> {
        self.bootstrap_methods@.map_values(|m: BootstrapMethod| bootstrap_method_view(m))
    }

    fn read(reader: &mut Reader) -> (r: Result<BootstrapMethods, ParseError>) {
        let n = reader.read_u16()?;
        let items = read_list::<BootstrapMethod>(reader, n as usize)?;
        proof {
            assert(items@.map_values(|m: BootstrapMethod| bootstrap_method_view(m)) =~= list_view(
                items@,
            ));
        }
        Ok(BootstrapMethods { bootstrap_methods: items })
    }
}

/// A structurally decoded attribute of phase one: a mandatory name
/// reference, a four-byte length, then exactly that many raw payload
/// bytes, kept opaque until classification.
impl Readable for Attribute {
    type Model = AttributeModel;

    open spec fn spec_parse(b: Seq<u8>, pos: int) -> Result<(AttributeModel, int), ParseError> {
        match spec_read_u16(b, pos) {
            Err(e) => Err(e),
            Ok((name_idx, p1)) => match spec_read_u32(b, p1) {
                Err(e) => Err(e),
                Ok((len, p2)) => match spec_read_bytes(b, p2, len as int) {
                    Err(e) => Err(e),
                    Ok((bytes, p3)) => Ok(
                        (
                            AttributeModel {
                                name_index: name_idx,
                                info: AttributeInfoModel::Unknown(bytes),
                            },
                            p3,
                        ),
                    ),
                },
            },
        }
    }

    open spec fn model(self) -> AttributeModel {
        crate::attributes::attr_view(self)
    }

    fn read(reader: &mut Reader) -> (r: Result<Attribute, ParseError>) {
        let attribute_name_index = read_index(reader)?;
        let len = reader.read_u32()?;
        let bytes = reader.read_bytes(len as usize)?;
        Ok(Attribute { attribute_name_index, info: AttributeInfo::Unknown(Unknown { bytes }) })
    }
}

impl Readable for RecordComponent {
    type Model = RecordComponentModel;

    open spec fn spec_parse(b: Seq<u8>, pos: int) -> Result<(RecordComponentModel, int), ParseError> {
        match spec_read_u16(b, pos) {
            Err(e) => Err(e),
            Ok((name_idx, p1)) => match spec_read_u16(b, p1) {
                Err(e) => Err(e),
                Ok((desc_idx, p2)) => match spec_read_u16(b, p2) {
                    Err(e) => Err(e),
                    Ok((n, p3)) => match spec_parse_list::<Attribute>(b, p3, n as nat) {
                        Err(e) => Err(e),
                        Ok((attrs, p4)) => Ok(
                            (
                                RecordComponentModel {
                                    name_index: Index::spec_new(name_idx),
                                    descriptor_index: Index::spec_new(desc_idx),
                                    attributes: attrs,
                                },
                                p4,
                            ),
                        ),
                    },
                },
            },
        }
    }

    open spec fn model(self) -> RecordComponentModel {
        component_view(self)
    }

    fn read(reader: &mut Reader) -> (r: Result<RecordComponent, ParseError>) {
        let name_index = read_index(reader)?;
        let descriptor_index = read_index(reader)?;
        let n = reader.read_u16()?;
        let attributes = read_list::<Attribute>(reader, n as usize)?;
        proof {
            assert(attrs_view(attributes@) =~= list_view(attributes@));
        }
        Ok(RecordComponent { name_index, descriptor_index, attributes })
    }
}

impl Readable for Record {
    type Model = Seq<RecordComponentModel>;

    open spec fn spec_parse(b: Seq<u8>, pos: int) -> Result<(Seq<RecordComponentModel>, int), ParseError> {
        match spec_read_u16(b, pos) {
            Err(e) => Err(e),
            Ok((n, p1)) => spec_parse_list::<RecordComponent>(b, p1, n as nat),
        }
    }

    open spec fn model(self) -> Seq<RecordComponentModel> {
        crate::attributes::components_view(self.components@)
    }

    fn read(reader: &mut Reader) -> (r: Result<Record, ParseError>) {
        let n = reader.read_u16()?;
        let components = read_list::<RecordComponent>(reader, n as usize)?;
        proof {
            assert(crate::attributes::components_view(components@) =~= list_view(components@));
        }
        Ok(Record { components })
    }
}

impl Readable for Code {
    type Model = CodeModel;

    open spec fn spec_parse(b: Seq<u8>, pos: int) -> Result<(CodeModel, int), ParseError> {
        match spec_read_u16(b, pos) {
            Err(e) => Err(e),
            Ok((max_stack, p1)) => match spec_read_u16(b, p1) {
                Err(e) => Err(e),
                Ok((max_locals, p2)) => match spec_read_u32(b, p2) {
                    Err(e) => Err(e),
                    Ok((code_len, p3)) => match spec_read_bytes(b, p3, code_len as int) {
                        Err(e) => Err(e),
                        Ok((code, p4)) => match spec_read_u16(b, p4) {
                            Err(e) => Err(e),
                            Ok((exc_n, p5)) => match spec_parse_list::<ExceptionTable>(
                                b,
                                p5,
                                exc_n as nat,
                            ) {
                                Err(e) => Err(e),
                                Ok((exc, p6)) => match spec_read_u16(b, p6) {
                                    Err(e) => Err(e),
                                    Ok((attr_n, p7)) => match spec_parse_list::<Attribute>(
                                        b,
                                        p7,
                                        attr_n as nat,
                                    ) {
                                        Err(e) => Err(e),
                                        Ok((attrs, p8)) => Ok(
                                            (
                                                CodeModel {
                                                    max_stack,
                                                    max_locals,
                                                    code,
                                                    exception_table: exc,
                                                    attributes: attrs,
                                                },
                                                p8,
                                            ),
                                        ),
                                    },
                                },
                            },
                        },
                    },
                },
            },
        }
    }

    open spec fn model(self) -> CodeModel {
        CodeModel {
            max_stack: self.max_stack,
            max_locals: self.max_locals,
            code: self.code@,
            exception_table: self.exception_table@,
            attributes: attrs_view(self.attributes@),
        }
    }

    fn read(reader: &mut Reader) -> (r: Result<Code, ParseError>) {
        let max_stack = reader.read_u16()?;
        let max_locals = reader.read_u16()?;
        let code_len = reader.read_u32()?;
        let code = reader.read_bytes(code_len as usize)?;
        let exc_n = reader.read_u16()?;
        let exception_table = read_list::<ExceptionTable>(reader, exc_n as usize)?;
        let attr_n = reader.read_u16()?;
        let attributes = read_list::<Attribute>(reader, attr_n as usize)?;
        proof {
            assert(exception_table@ =~= list_view(exception_table@));
            assert(attrs_view(attributes@) =~= list_view(attributes@));
        }
        Ok(Code { max_stack, max_locals, code, exception_table, attributes })
    }
}

impl Readable for Module {
    type Model = ModuleModel;

    open spec fn spec_parse(b: Seq<u8>, pos: int) -> Result<(ModuleModel, int), ParseError> {
        match spec_read_u16(b, pos) {
            Err(e) => Err(e),
            Ok((name_idx, p1)) => match spec_parse_flags(b, p1, FlagContext::Module) {
                Err(e) => Err(e),
                Ok((flags, p2)) => match spec_read_u16(b, p2) {
                    Err(e) => Err(e),
                    Ok((version_idx, p3)) => match spec_read_u16(b, p3) {
                        Err(e) => Err(e),
                        Ok((req_n, p4)) => match spec_parse_list::<Requires>(b, p4, req_n as nat) {
                            Err(e) => Err(e),
                            Ok((req_list, p5)) => match spec_read_u16(b, p5) {
                                Err(e) => Err(e),
                                Ok((exp_n, p6)) => match spec_parse_list::<Exports>(
                                    b,
                                    p6,
                                    exp_n as nat,
                                ) {
                                    Err(e) => Err(e),
                                    Ok((exports, p7)) => match spec_read_u16(b, p7) {
                                        Err(e) => Err(e),
                                        Ok((op_n, p8)) => match spec_parse_list::<Opens>(
                                            b,
                                            p8,
                                            op_n as nat,
                                        ) {
                                            Err(e) => Err(e),
                                            Ok((opens, p9)) => match spec_read_u16(b, p9) {
                                                Err(e) => Err(e),
                                                Ok((uses_n, p10)) => match spec_parse_list::<Uses>(
                                                    b,
                                                    p10,
                                                    uses_n as nat,
                                                ) {
                                                    Err(e) => Err(e),
                                                    Ok((uses, p11)) => match spec_read_u16(b, p11) {
                                                        Err(e) => Err(e),
                                                        Ok((prov_n, p12)) => match spec_parse_list::<
                                                            Provides,
                                                        >(b, p12, prov_n as nat) {
                                                            Err(e) => Err(e),
                                                            Ok((provides, p13)) => Ok(
                                                                (
                                                                    ModuleModel {
                                                                        name_index: Index::spec_new(name_idx),
                                                                        flags,
                                                                        version_index: Index::spec_new(version_idx),
                                                                        requires: req_list,
                                                                        exports,
                                                                        opens,
                                                                        uses,
                                                                        provides,
                                                                    },
                                                                    p13,
                                                                ),
                                                            ),
                                                        },
                                                    },
                                                },
                                            },
                                        },
                                    },
                                },
                            },
                        },
                    },
                },
            },
        }
    }

    open spec fn model(self) -> ModuleModel {
        module_view(self)
    }

    fn read(reader: &mut Reader) -> (r: Result<Module, ParseError>) {
        let name_index = read_index(reader)?;
        let flags = read_flags(reader, FlagContext::Module)?;
        let version_index = read_index(reader)?;
        let req_n = reader.read_u16()?;
        let req_list = read_list::<Requires>(reader, req_n as usize)?;
        let exp_n = reader.read_u16()?;
        let exports = read_list::<Exports>(reader, exp_n as usize)?;
        let op_n = reader.read_u16()?;
        let opens = read_list::<Opens>(reader, op_n as usize)?;
        let uses_n = reader.read_u16()?;
        let uses = read_list::<Uses>(reader, uses_n as usize)?;
        let prov_n = reader.read_u16()?;
        let provides = read_list::<Provides>(reader, prov_n as usize)?;
        proof {
            assert(req_list@ =~= list_view(req_list@));
            assert(exports@.map_values(|e: Exports| exports_view(e)) =~= list_view(exports@));
            assert(opens@.map_values(|o: Opens| opens_view(o)) =~= list_view(opens@));
            assert(uses@ =~= list_view(uses@));
            assert(provides@.map_values(|p: Provides| provides_view(p)) =~= list_view(provides@));
        }
        Ok(Module { name_index, flags, version_index, requires: req_list, exports, opens, uses, provides })
    }
}

impl Readable for SourceDebugExtension {
    type Model = Utf8Model;

    open spec fn spec_parse(b: Seq<u8>, pos: int) -> Result<(Utf8Model, int), ParseError> {
        spec_parse_utf8(b, pos)
    }

    open spec fn model(self) -> Utf8Model {
        self.debug_extension@
    }

    fn read(reader: &mut Reader) -> (r: Result<SourceDebugExtension, ParseError>) {
        let len = reader.read_u16()?;
        let bytes = reader.read_bytes(len as usize)?;
        let str = crate::text::decode_text(&bytes);
        Ok(SourceDebugExtension { debug_extension: Utf8 { bytes, str } })
    }
}

/// A recognized attribute whose internal layout is taken over verbatim:
/// the whole remaining payload is kept as raw bytes.
impl Readable for NotImplemented {
    type Model = Seq<u8>;

    open spec fn spec_parse(b: Seq<u8>, pos: int) -> Result<(Seq<u8>, int), ParseError> {
        if 0 <= pos <= b.len() {
            Ok((b.subrange(pos, b.len() as int), b.len() as int))
        } else {
            Err(ParseError::Io)
        }
    }

    open spec fn model(self) -> Seq<u8> {
        self.bytes@
    }

    fn read(reader: &mut Reader) -> (r: Result<NotImplemented, ParseError>) {
        let bytes = reader.read_to_end();
        Ok(NotImplemented { bytes })
    }
}


/// What classification makes of one attribute's name and raw payload:
/// nothing for an unrecognized name, the decode error for a recognized
/// name whose bytes fail to parse, or the typed payload. Within a
/// nested Code or Record payload the attribute lists are structural
/// only: recursion into them is the classification pass's own work.
pub enum ClassifiedModel {
    Unrecognized,
    Malformed(ParseError),
    Parsed(AttributeInfoModel),
}

/// The outcome of one name-driven payload decode.
pub enum Classified {
    Unrecognized,
    Malformed(ParseError),
    Parsed(AttributeInfo),
}

/// The name-driven dispatch of the classification pass: each recognized
/// name re-parses the raw payload as a fresh bounded byte stream of its
/// own fixed layout.
pub open spec fn spec_classify_payload(name: Seq<char>, b: Seq<u8>) -> ClassifiedModel {
    if name == "ConstantValue"@ {
        match ConstantValue::spec_parse(b, 0) {
            Ok((m, _)) => ClassifiedModel::Parsed(AttributeInfoModel::ConstantValue(m)),
            Err(e) => ClassifiedModel::Malformed(e),
        }
    } else if name == "Code"@ {
        match Code::spec_parse(b, 0) {
            Ok((m, _)) => ClassifiedModel::Parsed(AttributeInfoModel::Code(m)),
            Err(e) => ClassifiedModel::Malformed(e),
        }
    } else if name == "StackMapTable"@ {
        match NotImplemented::spec_parse(b, 0) {
            Ok((m, _)) => ClassifiedModel::Parsed(AttributeInfoModel::StackMapTable(m)),
            Err(e) => ClassifiedModel::Malformed(e),
        }
    } else if name == "Exceptions"@ {
        match Exceptions::spec_parse(b, 0) {
            Ok((m, _)) => ClassifiedModel::Parsed(AttributeInfoModel::Exceptions(m)),
            Err(e) => ClassifiedModel::Malformed(e),
        }
    } else if name == "InnerClasses"@ {
        match InnerClasses::spec_parse(b, 0) {
            Ok((m, _)) => ClassifiedModel::Parsed(AttributeInfoModel::InnerClasses(m)),
            Err(e) => ClassifiedModel::Malformed(e),
        }
    } else if name == "EnclosingMethod"@ {
        match EnclosingMethod::spec_parse(b, 0) {
            Ok((m, _)) => ClassifiedModel::Parsed(AttributeInfoModel::EnclosingMethod(m)),
            Err(e) => ClassifiedModel::Malformed(e),
        }
    } else if name == "Synthetic"@ {
        match Synthetic::spec_parse(b, 0) {
            Ok((_m, _)) => ClassifiedModel::Parsed(AttributeInfoModel::Synthetic),
            Err(e) => ClassifiedModel::Malformed(e),
        }
    } else if name == "Signature"@ {
        match Signature::spec_parse(b, 0) {
            Ok((m, _)) => ClassifiedModel::Parsed(AttributeInfoModel::Signature(m)),
            Err(e) => ClassifiedModel::Malformed(e),
        }
    } else if name == "SourceFile"@ {
        match SourceFile::spec_parse(b, 0) {
            Ok((m, _)) => ClassifiedModel::Parsed(AttributeInfoModel::SourceFile(m)),
            Err(e) => ClassifiedModel::Malformed(e),
        }
    } else if name == "SourceDebugExtension"@ {
        match SourceDebugExtension::spec_parse(b, 0) {
            Ok((m, _)) => ClassifiedModel::Parsed(AttributeInfoModel::SourceDebugExtension(m)),
            Err(e) => ClassifiedModel::Malformed(e),
        }
    } else if name == "LineNumberTable"@ {
        match LineNumberTable::spec_parse(b, 0) {
            Ok((m, _)) => ClassifiedModel::Parsed(AttributeInfoModel::LineNumberTable(m)),
            Err(e) => ClassifiedModel::Malformed(e),
        }
    } else if name == "LocalVariableTable"@ {
        match LocalVariableTable::spec_parse(b, 0) {
            Ok((m, _)) => ClassifiedModel::Parsed(AttributeInfoModel::LocalVariableTable(m)),
            Err(e) => ClassifiedModel::Malformed(e),
        }
    } else if name == "LocalVariableTypeTable"@ {
        match LocalVariableTypeTable::spec_parse(b, 0) {
            Ok((m, _)) => ClassifiedModel::Parsed(AttributeInfoModel::LocalVariableTypeTable(m)),
            Err(e) => ClassifiedModel::Malformed(e),
        }
    } else if name == "Deprecated"@ {
        match Deprecated::spec_parse(b, 0) {
            Ok((_m, _)) => ClassifiedModel::Parsed(AttributeInfoModel::Deprecated),
            Err(e) => ClassifiedModel::Malformed(e),
        }
    } else if name == "RuntimeVisibleAnnotations"@ {
        match NotImplemented::spec_parse(b, 0) {
            Ok((m, _)) => ClassifiedModel::Parsed(AttributeInfoModel::RuntimeVisibleAnnotations(m)),
            Err(e) => ClassifiedModel::Malformed(e),
        }
    } else if name == "RuntimeInvisibleAnnotations"@ {
        match NotImplemented::spec_parse(b, 0) {
            Ok((m, _)) => ClassifiedModel::Parsed(AttributeInfoModel::RuntimeInvisibleAnnotations(m)),
            Err(e) => ClassifiedModel::Malformed(e),
        }
    } else if name == "RuntimeVisibleParameterAnnotations"@ {
        match NotImplemented::spec_parse(b, 0) {
            Ok((m, _)) => ClassifiedModel::Parsed(AttributeInfoModel::RuntimeVisibleParameterAnnotations(m)),
            Err(e) => ClassifiedModel::Malformed(e),
        }
    } else if name == "RuntimeInvisibleParameterAnnotations"@ {
        match NotImplemented::spec_parse(b, 0) {
            Ok((m, _)) => ClassifiedModel::Parsed(AttributeInfoModel::RuntimeInvisibleParameterAnnotations(m)),
            Err(e) => ClassifiedModel::Malformed(e),
        }
    } else if name == "AnnotationDefault"@ {
        match NotImplemented::spec_parse(b, 0) {
            Ok((m, _)) => ClassifiedModel::Parsed(AttributeInfoModel::AnnotationDefault(m)),
            Err(e) => ClassifiedModel::Malformed(e),
        }
    } else if name == "BootstrapMethods"@ {
        match BootstrapMethods::spec_parse(b, 0) {
            Ok((m, _)) => ClassifiedModel::Parsed(AttributeInfoModel::BootstrapMethods(m)),
            Err(e) => ClassifiedModel::Malformed(e),
        }
    } else if name == "MethodParameters"@ {
        match MethodParameters::spec_parse(b, 0) {
            Ok((m, _)) => ClassifiedModel::Parsed(AttributeInfoModel::MethodParameters(m)),
            Err(e) => ClassifiedModel::Malformed(e),
        }
    } else if name == "Module"@ {
        match Module::spec_parse(b, 0) {
            Ok((m, _)) => ClassifiedModel::Parsed(AttributeInfoModel::Module(m)),
            Err(e) => ClassifiedModel::Malformed(e),
        }
    } else if name == "ModulePackages"@ {
        match ModulePackages::spec_parse(b, 0) {
            Ok((m, _)) => ClassifiedModel::Parsed(AttributeInfoModel::ModulePackages(m)),
            Err(e) => ClassifiedModel::Malformed(e),
        }
    } else if name == "ModuleMainClass"@ {
        match ModuleMainClass::spec_parse(b, 0) {
            Ok((m, _)) => ClassifiedModel::Parsed(AttributeInfoModel::ModuleMainClass(m)),
            Err(e) => ClassifiedModel::Malformed(e),
        }
    } else if name == "NestHost"@ {
        match NestHost::spec_parse(b, 0) {
            Ok((m, _)) => ClassifiedModel::Parsed(AttributeInfoModel::NestHost(m)),
            Err(e) => ClassifiedModel::Malformed(e),
        }
    } else if name == "NestMembers"@ {
        match NestMembers::spec_parse(b, 0) {
            Ok((m, _)) => ClassifiedModel::Parsed(AttributeInfoModel::NestMembers(m)),
            Err(e) => ClassifiedModel::Malformed(e),
        }
    } else if name == "Record"@ {
        match Record::spec_parse(b, 0) {
            Ok((m, _)) => ClassifiedModel::Parsed(AttributeInfoModel::Record(m)),
            Err(e) => ClassifiedModel::Malformed(e),
        }
    } else if name == "PermittedSubclasses"@ {
        match PermittedSubclasses::spec_parse(b, 0) {
            Ok((m, _)) => ClassifiedModel::Parsed(AttributeInfoModel::PermittedSubclasses(m)),
            Err(e) => ClassifiedModel::Malformed(e),
        }
    } else {
        ClassifiedModel::Unrecognized
    }
}

/// String equality against a recognized attribute name.
fn str_eq(a: &String, b: &str) -> (r: bool)
    ensures
        r == (a@ == b@),
{
    let owned: String = b.to_owned();
    *a == owned
}

/// A copy of an attribute's raw payload, so that classification can
/// re-parse it while the original bytes stay with the attribute.
fn copy_bytes(v: &Vec<u8>) -> (r: Vec<u8>)
    ensures
        r@ == v@,
{
    let mut out: Vec<u8> = Vec::new();
    let mut i: usize = 0;
    #[verifier::loop_isolation(false)]
    while i < v.len()
        invariant
            i <= v@.len(),
            out@ == v@.subrange(0, i as int),
        decreases v@.len() - i,
    {
        out.push(v[i]);
        proof {
            assert(out@ =~= v@.subrange(0, i + 1));
        }
        i = i + 1;
    }
    proof {
        assert(v@.subrange(0, v@.len() as int) =~= v@);
    }
    out
}

/// Re-parses one raw payload under its resolved name. Never touches the
/// table and never fails: a malformed payload is reported as a value.
#[verifier::rlimit(100)]
pub fn classify_payload(name: &String, bytes: &Vec<u8>) -> (r: Classified)
    ensures
        match spec_classify_payload(name@, bytes@) {
            ClassifiedModel::Unrecognized => r is Unrecognized,
            ClassifiedModel::Malformed(e) => r matches Classified::Malformed(e2) && e2 == e,
            ClassifiedModel::Parsed(m) => r matches Classified::Parsed(info) && info@ == m,
        },
{
    let data = copy_bytes(bytes);
    let mut r = Reader::new(data);
    if str_eq(name, "ConstantValue") {
        match ConstantValue::read(&mut r) {
            Ok(x) => Classified::Parsed(AttributeInfo::ConstantValue(x)),
            Err(e) => Classified::Malformed(e),
        }
    } else if str_eq(name, "Code") {
        match Code::read(&mut r) {
            Ok(x) => Classified::Parsed(AttributeInfo::Code(x)),
            Err(e) => Classified::Malformed(e),
        }
    } else if str_eq(name, "StackMapTable") {
        match NotImplemented::read(&mut r) {
            Ok(x) => Classified::Parsed(AttributeInfo::StackMapTable(x)),
            Err(e) => Classified::Malformed(e),
        }
    } else if str_eq(name, "Exceptions") {
        match Exceptions::read(&mut r) {
            Ok(x) => Classified::Parsed(AttributeInfo::Exceptions(x)),
            Err(e) => Classified::Malformed(e),
        }
    } else if str_eq(name, "InnerClasses") {
        match InnerClasses::read(&mut r) {
            Ok(x) => Classified::Parsed(AttributeInfo::InnerClasses(x)),
            Err(e) => Classified::Malformed(e),
        }
    } else if str_eq(name, "EnclosingMethod") {
        match EnclosingMethod::read(&mut r) {
            Ok(x) => Classified::Parsed(AttributeInfo::EnclosingMethod(x)),
            Err(e) => Classified::Malformed(e),
        }
    } else if str_eq(name, "Synthetic") {
        match Synthetic::read(&mut r) {
            Ok(x) => Classified::Parsed(AttributeInfo::Synthetic(x)),
            Err(e) => Classified::Malformed(e),
        }
    } else if str_eq(name, "Signature") {
        match Signature::read(&mut r) {
            Ok(x) => Classified::Parsed(AttributeInfo::Signature(x)),
            Err(e) => Classified::Malformed(e),
        }
    } else if str_eq(name, "SourceFile") {
        match SourceFile::read(&mut r) {
            Ok(x) => Classified::Parsed(AttributeInfo::SourceFile(x)),
            Err(e) => Classified::Malformed(e),
        }
    } else if str_eq(name, "SourceDebugExtension") {
        match SourceDebugExtension::read(&mut r) {
            Ok(x) => Classified::Parsed(AttributeInfo::SourceDebugExtension(x)),
            Err(e) => Classified::Malformed(e),
        }
    } else if str_eq(name, "LineNumberTable") {
        match LineNumberTable::read(&mut r) {
            Ok(x) => Classified::Parsed(AttributeInfo::LineNumberTable(x)),
            Err(e) => Classified::Malformed(e),
        }
    } else if str_eq(name, "LocalVariableTable") {
        match LocalVariableTable::read(&mut r) {
            Ok(x) => Classified::Parsed(AttributeInfo::LocalVariableTable(x)),
            Err(e) => Classified::Malformed(e),
        }
    } else if str_eq(name, "LocalVariableTypeTable") {
        match LocalVariableTypeTable::read(&mut r) {
            Ok(x) => Classified::Parsed(AttributeInfo::LocalVariableTypeTable(x)),
            Err(e) => Classified::Malformed(e),
        }
    } else if str_eq(name, "Deprecated") {
        match Deprecated::read(&mut r) {
            Ok(x) => Classified::Parsed(AttributeInfo::Deprecated(x)),
            Err(e) => Classified::Malformed(e),
        }
    } else if str_eq(name, "RuntimeVisibleAnnotations") {
        match NotImplemented::read(&mut r) {
            Ok(x) => Classified::Parsed(AttributeInfo::RuntimeVisibleAnnotations(x)),
            Err(e) => Classified::Malformed(e),
        }
    } else if str_eq(name, "RuntimeInvisibleAnnotations") {
        match NotImplemented::read(&mut r) {
            Ok(x) => Classified::Parsed(AttributeInfo::RuntimeInvisibleAnnotations(x)),
            Err(e) => Classified::Malformed(e),
        }
    } else if str_eq(name, "RuntimeVisibleParameterAnnotations") {
        match NotImplemented::read(&mut r) {
            Ok(x) => Classified::Parsed(AttributeInfo::RuntimeVisibleParameterAnnotations(x)),
            Err(e) => Classified::Malformed(e),
        }
    } else if str_eq(name, "RuntimeInvisibleParameterAnnotations") {
        match NotImplemented::read(&mut r) {
            Ok(x) => Classified::Parsed(AttributeInfo::RuntimeInvisibleParameterAnnotations(x)),
            Err(e) => Classified::Malformed(e),
        }
    } else if str_eq(name, "AnnotationDefault") {
        match NotImplemented::read(&mut r) {
            Ok(x) => Classified::Parsed(AttributeInfo::AnnotationDefault(x)),
            Err(e) => Classified::Malformed(e),
        }
    } else if str_eq(name, "BootstrapMethods") {
        match BootstrapMethods::read(&mut r) {
            Ok(x) => Classified::Parsed(AttributeInfo::BootstrapMethods(x)),
            Err(e) => Classified::Malformed(e),
        }
    } else if str_eq(name, "MethodParameters") {
        match MethodParameters::read(&mut r) {
            Ok(x) => Classified::Parsed(AttributeInfo::MethodParameters(x)),
            Err(e) => Classified::Malformed(e),
        }
    } else if str_eq(name, "Module") {
        match Module::read(&mut r) {
            Ok(x) => Classified::Parsed(AttributeInfo::Module(x)),
            Err(e) => Classified::Malformed(e),
        }
    } else if str_eq(name, "ModulePackages") {
        match ModulePackages::read(&mut r) {
            Ok(x) => Classified::Parsed(AttributeInfo::ModulePackages(x)),
            Err(e) => Classified::Malformed(e),
        }
    } else if str_eq(name, "ModuleMainClass") {
        match ModuleMainClass::read(&mut r) {
            Ok(x) => Classified::Parsed(AttributeInfo::ModuleMainClass(x)),
            Err(e) => Classified::Malformed(e),
        }
    } else if str_eq(name, "NestHost") {
        match NestHost::read(&mut r) {
            Ok(x) => Classified::Parsed(AttributeInfo::NestHost(x)),
            Err(e) => Classified::Malformed(e),
        }
    } else if str_eq(name, "NestMembers") {
        match NestMembers::read(&mut r) {
            Ok(x) => Classified::Parsed(AttributeInfo::NestMembers(x)),
            Err(e) => Classified::Malformed(e),
        }
    } else if str_eq(name, "Record") {
        match Record::read(&mut r) {
            Ok(x) => Classified::Parsed(AttributeInfo::Record(x)),
            Err(e) => Classified::Malformed(e),
        }
    } else if str_eq(name, "PermittedSubclasses") {
        match PermittedSubclasses::read(&mut r) {
            Ok(x) => Classified::Parsed(AttributeInfo::PermittedSubclasses(x)),
            Err(e) => Classified::Malformed(e),
        }
    } else {
        Classified::Unrecognized
    }
}

} // verus!
