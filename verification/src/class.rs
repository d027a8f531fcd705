use vstd::prelude::*;

use crate::access_flags::{read_flags, spec_parse_flags, AccessFlags};
use crate::attributes::{attrs_view, Attribute, AttributeModel, Attributes};
use crate::class_version::{read_version, spec_parse_version, ClassVersion};
use crate::classify::{
    attr_classify_step, attrs_classified, classify_attributes, lemma_step_implies_raw, raw_step,
};
use crate::const_pool::{entries_view, read_pool, spec_parse_pool, ConstPool};
use crate::const_types::{read_index, Class as ConstClass, ConstItem, ConstItemModel, Index, Utf8};
use crate::error::{FlagContext, ParseError};
use crate::reader::{spec_read_u16, spec_read_u32, Reader};
use crate::wire::{list_view, read_list, spec_parse_list, Readable};

verus! {

/// The four-byte sentinel every class file begins with.
pub const MAGIC: u32 = 0xCAFEBABE;

/// One implemented interface: a reference to a class entry.
#[derive(Debug, Clone, Copy, PartialEq, Eq)]
pub struct Interface {
    pub index: Index<ConstClass>,
}

pub type Interfaces = Vec<Interface>;

/// A field declaration: context-scoped flags, name and descriptor
/// references, and its own attribute list.
#[derive(Debug, PartialEq)]
pub struct Field {
    pub access_flags: AccessFlags,
    pub name_index: Index<Utf8>,
    pub descriptor_index: Index<Utf8>,
    pub attributes: Attributes,
}

pub type Fields = Vec<Field>;

/// A method declaration: the same shape as a field, under the method
/// flag context.
#[derive(Debug, PartialEq)]
pub struct Method {
    pub access_flags: AccessFlags,
    pub name_index: Index<Utf8>,
    pub descriptor_index: Index<Utf8>,
    pub attributes: Attributes,
}

pub type Methods = Vec<Method>;

/// The mathematical content of a field or method declaration.
pub struct MemberModel {
    pub access_flags: AccessFlags,
    pub name_index: Index<Utf8>,
    pub descriptor_index: Index<Utf8>,
    pub attributes: Seq<AttributeModel>,
}

/// The model of a field.
pub open spec fn field_view(f: Field) -> MemberModel {
    MemberModel {
        access_flags: f.access_flags,
        name_index: f.name_index,
        descriptor_index: f.descriptor_index,
        attributes: attrs_view(f.attributes@),
    }
}

/// The model of a method.
pub open spec fn method_view(m: Method) -> MemberModel {
    MemberModel {
        access_flags: m.access_flags,
        name_index: m.name_index,
        descriptor_index: m.descriptor_index,
        attributes: attrs_view(m.attributes@),
    }
}

/// The aggregate root: everything one decode yields, owned transitively.
/// All typed references inside it are only meaningful relative to its
/// own constant table.
#[derive(Debug, PartialEq)]
pub struct Class {
    pub magic: u32,
    pub version: ClassVersion,
    pub constant_pool: ConstPool,
    pub access_flags: AccessFlags,
    pub this_class: Index<ConstClass>,
    pub super_class: Index<ConstClass>,
    pub interfaces: Interfaces,
    pub fields: Fields,
    pub methods: Methods,
    pub attributes: Attributes,
}

/// The mathematical content of a structurally decoded class file.
pub struct ClassModel {
    pub magic: u32,
    pub version: ClassVersion,
    pub constant_pool: Seq<Option<ConstItemModel>>,
    pub access_flags: AccessFlags,
    pub this_class: Index<ConstClass>,
    pub super_class: Index<ConstClass>,
    pub interfaces: Seq<Interface>,
    pub fields: Seq<MemberModel>,
    pub methods: Seq<MemberModel>,
    pub attributes: Seq<AttributeModel>,
}

/// The model of a class value.
pub open spec fn class_view(c: Class) -> ClassModel {
    ClassModel {
        magic: c.magic,
        version: c.version,
        constant_pool: entries_view(c.constant_pool.entries@),
        access_flags: c.access_flags,
        this_class: c.this_class,
        super_class: c.super_class,
        interfaces: c.interfaces@,
        fields: c.fields@.map_values(|f: Field| field_view(f)),
        methods: c.methods@.map_values(|m: Method| method_view(m)),
        attributes: attrs_view(c.attributes@),
    }
}

impl Readable for Interface {
    type Model = Interface;

    open spec fn spec_parse(b: Seq<u8>, pos: int) -> Result<(Interface, int), ParseError> {
        match spec_read_u16(b, pos) {
            Err(e) => Err(e),
            Ok((n, p)) => Ok((Interface { index: Index::spec_new(n) }, p)),
        }
    }

    open spec fn model(self) -> Interface {
        self
    }

    fn read(reader: &mut Reader) -> (r: Result<Interface, ParseError>) {
        let index = read_index(reader)?;
        Ok(Interface { index })
    }
}

impl Readable for Field {
    type Model = MemberModel;

    open spec fn spec_parse(b: Seq<u8>, pos: int) -> Result<(MemberModel, int), ParseError> {
        match spec_parse_flags(b, pos, FlagContext::Field) {
            Err(e) => Err(e),
            Ok((access_flags, p1)) => match spec_read_u16(b, p1) {
                Err(e) => Err(e),
                Ok((name_idx, p2)) => match spec_read_u16(b, p2) {
                    Err(e) => Err(e),
                    Ok((desc_idx, p3)) => match spec_read_u16(b, p3) {
                        Err(e) => Err(e),
                        Ok((n, p4)) => match spec_parse_list::<Attribute>(b, p4, n as nat) {
                            Err(e) => Err(e),
                            Ok((attrs, p5)) => Ok(
                                (
                                    MemberModel {
                                        access_flags,
                                        name_index: Index::spec_new(name_idx),
                                        descriptor_index: Index::spec_new(desc_idx),
                                        attributes: attrs,
                                    },
                                    p5,
                                ),
                            ),
                        },
                    },
                },
            },
        }
    }

    open spec fn model(self) -> MemberModel {
        field_view(self)
    }

    fn read(reader: &mut Reader) -> (r: Result<Field, ParseError>) {
        let access_flags = read_flags(reader, FlagContext::Field)?;
        let name_index = read_index(reader)?;
        let descriptor_index = read_index(reader)?;
        let n = reader.read_u16()?;
        let attributes = read_list::<Attribute>(reader, n as usize)?;
        proof {
            assert(attrs_view(attributes@) =~= list_view(attributes@));
        }
        Ok(Field { access_flags, name_index, descriptor_index, attributes })
    }
}

impl Readable for Method {
    type Model = MemberModel;

    open spec fn spec_parse(b: Seq<u8>, pos: int) -> Result<(MemberModel, int), ParseError> {
        match spec_parse_flags(b, pos, FlagContext::Method) {
            Err(e) => Err(e),
            Ok((access_flags, p1)) => match spec_read_u16(b, p1) {
                Err(e) => Err(e),
                Ok((name_idx, p2)) => match spec_read_u16(b, p2) {
                    Err(e) => Err(e),
                    Ok((desc_idx, p3)) => match spec_read_u16(b, p3) {
                        Err(e) => Err(e),
                        Ok((n, p4)) => match spec_parse_list::<Attribute>(b, p4, n as nat) {
                            Err(e) => Err(e),
                            Ok((attrs, p5)) => Ok(
                                (
                                    MemberModel {
                                        access_flags,
                                        name_index: Index::spec_new(name_idx),
                                        descriptor_index: Index::spec_new(desc_idx),
                                        attributes: attrs,
                                    },
                                    p5,
                                ),
                            ),
                        },
                    },
                },
            },
        }
    }

    open spec fn model(self) -> MemberModel {
        method_view(self)
    }

    fn read(reader: &mut Reader) -> (r: Result<Method, ParseError>) {
        let access_flags = read_flags(reader, FlagContext::Method)?;
        let name_index = read_index(reader)?;
        let descriptor_index = read_index(reader)?;
        let n = reader.read_u16()?;
        let attributes = read_list::<Attribute>(reader, n as usize)?;
        proof {
            assert(attrs_view(attributes@) =~= list_view(attributes@));
        }
        Ok(Method { access_flags, name_index, descriptor_index, attributes })
    }
}

/// The strict sequential layout of a class file, structural phase only:
/// magic sentinel, version pair, constant table, class flags, this and
/// super references, then the count-prefixed interface, field, method
/// and attribute lists, every attribute payload still opaque.
impl Readable for Class {
    type Model = ClassModel;

    open spec fn spec_parse(b: Seq<u8>, pos: int) -> Result<(ClassModel, int), ParseError> {
        match spec_read_u32(b, pos) {
            Err(e) => Err(e),
            Ok((magic, p1)) => if magic != 0xCAFEBABE {
                Err(ParseError::InvalidMagic(magic))
            } else {
                match spec_parse_version(b, p1) {
                    Err(e) => Err(e),
                    Ok((version, p2)) => match spec_parse_pool(b, p2) {
                        Err(e) => Err(e),
                        Ok((pool, p3)) => match spec_parse_flags(b, p3, FlagContext::Class) {
                            Err(e) => Err(e),
                            Ok((access_flags, p4)) => match spec_read_u16(b, p4) {
                                Err(e) => Err(e),
                                Ok((this_idx, p5)) => match spec_read_u16(b, p5) {
                                    Err(e) => Err(e),
                                    Ok((super_idx, p6)) => match spec_read_u16(b, p6) {
                                        Err(e) => Err(e),
                                        Ok((if_n, p7)) => match spec_parse_list::<Interface>(
                                            b,
                                            p7,
                                            if_n as nat,
                                        ) {
                                            Err(e) => Err(e),
                                            Ok((interfaces, p8)) => match spec_read_u16(b, p8) {
                                                Err(e) => Err(e),
                                                Ok((f_n, p9)) => match spec_parse_list::<Field>(
                                                    b,
                                                    p9,
                                                    f_n as nat,
                                                ) {
                                                    Err(e) => Err(e),
                                                    Ok((fields, p10)) => match spec_read_u16(
                                                        b,
                                                        p10,
                                                    ) {
                                                        Err(e) => Err(e),
                                                        Ok((m_n, p11)) => match spec_parse_list::<
                                                            Method,
                                                        >(b, p11, m_n as nat) {
                                                            Err(e) => Err(e),
                                                            Ok((methods, p12)) => match spec_read_u16(
                                                                b,
                                                                p12,
                                                            ) {
                                                                Err(e) => Err(e),
                                                                Ok((a_n, p13)) => match spec_parse_list::<
                                                                    Attribute,
                                                                >(b, p13, a_n as nat) {
                                                                    Err(e) => Err(e),
                                                                    Ok((attributes, p14)) => Ok(
                                                                        (
                                                                            ClassModel {
                                                                                magic,
                                                                                version,
                                                                                constant_pool: pool,
                                                                                access_flags,
                                                                                this_class: Index::spec_new(this_idx),
                                                                                super_class: Index::spec_new(super_idx),
                                                                                interfaces,
                                                                                fields,
                                                                                methods,
                                                                                attributes,
                                                                            },
                                                                            p14,
                                                                        ),
                                                                    ),
                                                                },
                                                            },
                                                        },
                                                    },
                                                },
                                            },
                                        },
                                    },
                                },
                            },
                        },
                    },
                }
            },
        }
    }

    open spec fn model(self) -> ClassModel {
        class_view(self)
    }

    #[verifier::rlimit(100)]
    fn read(reader: &mut Reader) -> (r: Result<Class, ParseError>) {
        let magic = reader.read_u32()?;
        if magic != 0xCAFEBABE {
            return Err(ParseError::InvalidMagic(magic));
        }
        let version = read_version(reader)?;
        let constant_pool = read_pool(reader)?;
        let access_flags = read_flags(reader, FlagContext::Class)?;
        let this_class = read_index(reader)?;
        let super_class = read_index(reader)?;
        let if_n = reader.read_u16()?;
        let interfaces = read_list::<Interface>(reader, if_n as usize)?;
        let f_n = reader.read_u16()?;
        let fields = read_list::<Field>(reader, f_n as usize)?;
        let m_n = reader.read_u16()?;
        let methods = read_list::<Method>(reader, m_n as usize)?;
        let a_n = reader.read_u16()?;
        let attributes = read_list::<Attribute>(reader, a_n as usize)?;
        proof {
            assert(interfaces@ =~= list_view(interfaces@));
            assert(fields@.map_values(|f: Field| field_view(f)) =~= list_view(fields@));
            assert(methods@.map_values(|m: Method| method_view(m)) =~= list_view(methods@));
            assert(attrs_view(attributes@) =~= list_view(attributes@));
        }
        Ok(
            Class {
                magic,
                version,
                constant_pool,
                access_flags,
                this_class,
                super_class,
                interfaces,
                fields,
                methods,
                attributes,
            },
        )
    }
}

/// What classifying one field does: everything but the attribute list
/// is kept, and each attribute steps as classification prescribes.
pub open spec fn field_classify_step(before: Field, after: Field, pool: Seq<Option<ConstItem>>) -> bool {
    &&& after.access_flags == before.access_flags
    &&& after.name_index == before.name_index
    &&& after.descriptor_index == before.descriptor_index
    &&& after.attributes@.len() == before.attributes@.len()
    &&& forall|j: int|
        0 <= j < before.attributes@.len() ==> attr_classify_step(
            before.attributes@[j],
            #[trigger] after.attributes@[j],
            pool,
        )
}

/// What classifying one method does.
pub open spec fn method_classify_step(before: Method, after: Method, pool: Seq<Option<ConstItem>>) -> bool {
    &&& after.access_flags == before.access_flags
    &&& after.name_index == before.name_index
    &&& after.descriptor_index == before.descriptor_index
    &&& after.attributes@.len() == before.attributes@.len()
    &&& forall|j: int|
        0 <= j < before.attributes@.len() ==> attr_classify_step(
            before.attributes@[j],
            #[trigger] after.attributes@[j],
            pool,
        )
}

/// Classifies the attribute list of every field, in order. A failure
/// inside one field's attributes never prevents the others.
pub fn classify_fields(fields: Vec<Field>, pool: &ConstPool, diags: &mut Vec<ParseError>) -> (r:
    Vec<Field>)
    ensures
        r@.len() == fields@.len(),
        forall|i: int|
            0 <= i < fields@.len() ==> field_classify_step(
                fields@[i],
                #[trigger] r@[i],
                pool.entries@,
            ),
        old(diags)@.is_prefix_of(final(diags)@),
{
    let ghost fields0 = fields@;
    let ghost diags0 = diags@;
    let mut rest = fields;
    let mut done: Vec<Field> = Vec::new();
    #[verifier::loop_isolation(false)]
    while rest.len() > 0
        invariant
            done@.len() + rest@.len() == fields0.len(),
            forall|i: int|
                0 <= i < done@.len() ==> field_classify_step(
                    fields0[i],
                    #[trigger] done@[i],
                    pool.entries@,
                ),
            forall|i: int| 0 <= i < rest@.len() ==> #[trigger] rest@[i] == fields0[done@.len() + i],
            diags0.is_prefix_of(diags@),
        decreases rest@.len(),
    {
        let ghost old_rest = rest@;
        let ghost old_diags = diags@;
        let f = rest.remove(0);
        proof {
            assert(rest@ =~= old_rest.skip(1));
        }
        let Field { access_flags, name_index, descriptor_index, attributes } = f;
        let attributes = classify_attributes(attributes, pool, diags);
        proof {
            crate::classify::lemma_prefix_trans(diags0, old_diags, diags@);
        }
        done.push(Field { access_flags, name_index, descriptor_index, attributes });
    }
    done
}

/// Classifies the attribute list of every method, in order.
pub fn classify_methods(methods: Vec<Method>, pool: &ConstPool, diags: &mut Vec<ParseError>) -> (r:
    Vec<Method>)
    ensures
        r@.len() == methods@.len(),
        forall|i: int|
            0 <= i < methods@.len() ==> method_classify_step(
                methods@[i],
                #[trigger] r@[i],
                pool.entries@,
            ),
        old(diags)@.is_prefix_of(final(diags)@),
{
    let ghost methods0 = methods@;
    let ghost diags0 = diags@;
    let mut rest = methods;
    let mut done: Vec<Method> = Vec::new();
    #[verifier::loop_isolation(false)]
    while rest.len() > 0
        invariant
            done@.len() + rest@.len() == methods0.len(),
            forall|i: int|
                0 <= i < done@.len() ==> method_classify_step(
                    methods0[i],
                    #[trigger] done@[i],
                    pool.entries@,
                ),
            forall|i: int| 0 <= i < rest@.len() ==> #[trigger] rest@[i] == methods0[done@.len()
                + i],
            diags0.is_prefix_of(diags@),
        decreases rest@.len(),
    {
        let ghost old_rest = rest@;
        let ghost old_diags = diags@;
        let m = rest.remove(0);
        proof {
            assert(rest@ =~= old_rest.skip(1));
        }
        let Method { access_flags, name_index, descriptor_index, attributes } = m;
        let attributes = classify_attributes(attributes, pool, diags);
        proof {
            crate::classify::lemma_prefix_trans(diags0, old_diags, diags@);
        }
        done.push(Method { access_flags, name_index, descriptor_index, attributes });
    }
    done
}

/// A classified member realizes its structural model: flags and
/// references kept, attribute list classified.
pub open spec fn member_classified(
    mm: MemberModel,
    attrs: Seq<Attribute>,
    access_flags: AccessFlags,
    name_index: Index<Utf8>,
    descriptor_index: Index<Utf8>,
    pool: Seq<Option<ConstItem>>,
) -> bool {
    &&& access_flags == mm.access_flags
    &&& name_index == mm.name_index
    &&& descriptor_index == mm.descriptor_index
    &&& attrs_classified(mm.attributes, attrs, pool)
}

/// A decoded class realizes its structural model: the header, table,
/// flags, references and interface list are exactly the model's, and
/// every attribute list, at class, field and method level, is the
/// model's raw list classified against the class's own table.
pub open spec fn class_classified(m: ClassModel, c: Class) -> bool {
    &&& c.magic == m.magic
    &&& c.version == m.version
    &&& entries_view(c.constant_pool.entries@) == m.constant_pool
    &&& c.access_flags == m.access_flags
    &&& c.this_class == m.this_class
    &&& c.super_class == m.super_class
    &&& c.interfaces@ == m.interfaces
    &&& c.fields@.len() == m.fields.len()
    &&& forall|i: int|
        0 <= i < m.fields.len() ==> member_classified(
            m.fields[i],
            (#[trigger] c.fields@[i]).attributes@,
            c.fields@[i].access_flags,
            c.fields@[i].name_index,
            c.fields@[i].descriptor_index,
            c.constant_pool.entries@,
        )
    &&& c.methods@.len() == m.methods.len()
    &&& forall|i: int|
        0 <= i < m.methods.len() ==> member_classified(
            m.methods[i],
            (#[trigger] c.methods@[i]).attributes@,
            c.methods@[i].access_flags,
            c.methods@[i].name_index,
            c.methods@[i].descriptor_index,
            c.constant_pool.entries@,
        )
    &&& attrs_classified(m.attributes, c.attributes@, c.constant_pool.entries@)
}

/// Decodes one whole class file: the strict structural sequence first,
/// then the classification pass over fields, methods and class-level
/// attributes with the now-complete table. A structural failure aborts
/// with no partial value; classification failures come back as
/// diagnostics beside a complete class.
#[verifier::rlimit(100)]
pub fn decode_class(data: Vec<u8>) -> (r: Result<(Class, Vec<ParseError>), ParseError>)
    ensures
        match <Class as Readable>::spec_parse(data@, 0) {
            Ok((m, _)) => r matches Ok((c, _)) && class_classified(m, c) && c.constant_pool.wf(),
            Err(e) => r matches Err(e2) && e2 == e,
        },
{
    let mut reader = Reader::new(data);
    let c = <Class as Readable>::read(&mut reader)?;
    let ghost m = class_view(c);
    let Class {
        magic,
        version,
        constant_pool,
        access_flags,
        this_class,
        super_class,
        interfaces,
        fields,
        methods,
        attributes,
    } = c;
    let ghost fields0 = fields@;
    let ghost methods0 = methods@;
    let ghost attrs0 = attributes@;
    let mut diags: Vec<ParseError> = Vec::new();
    let fields = classify_fields(fields, &constant_pool, &mut diags);
    let methods = classify_methods(methods, &constant_pool, &mut diags);
    let attributes = classify_attributes(attributes, &constant_pool, &mut diags);
    proof {
        let pool = constant_pool.entries@;
        assert forall|i: int| 0 <= i < m.fields.len() implies member_classified(
            m.fields[i],
            (#[trigger] fields@[i]).attributes@,
            fields@[i].access_flags,
            fields@[i].name_index,
            fields@[i].descriptor_index,
            pool,
        ) by {
            assert(field_view(fields0[i]) == m.fields[i]);
            assert(field_classify_step(fields0[i], fields@[i], pool));
            assert forall|j: int| 0 <= j < m.fields[i].attributes.len() implies raw_step(
                m.fields[i].attributes[j],
                #[trigger] fields@[i].attributes@[j],
                pool,
            ) by {
                lemma_step_implies_raw(fields0[i].attributes@[j], fields@[i].attributes@[j], pool);
            }
        }
        assert forall|i: int| 0 <= i < m.methods.len() implies member_classified(
            m.methods[i],
            (#[trigger] methods@[i]).attributes@,
            methods@[i].access_flags,
            methods@[i].name_index,
            methods@[i].descriptor_index,
            pool,
        ) by {
            assert(method_view(methods0[i]) == m.methods[i]);
            assert(method_classify_step(methods0[i], methods@[i], pool));
            assert forall|j: int| 0 <= j < m.methods[i].attributes.len() implies raw_step(
                m.methods[i].attributes[j],
                #[trigger] methods@[i].attributes@[j],
                pool,
            ) by {
                lemma_step_implies_raw(
                    methods0[i].attributes@[j],
                    methods@[i].attributes@[j],
                    pool,
                );
            }
        }
        assert forall|i: int| 0 <= i < m.attributes.len() implies raw_step(
            m.attributes[i],
            #[trigger] attributes@[i],
            pool,
        ) by {
            lemma_step_implies_raw(attrs0[i], attributes@[i], pool);
        }
        crate::const_pool::lemma_parse_pool_wf(data@, 8int);
    }
    Ok(
        (
            Class {
                magic,
                version,
                constant_pool,
                access_flags,
                this_class,
                super_class,
                interfaces,
                fields,
                methods,
                attributes,
            },
            diags,
        ),
    )
}

} // verus!
