use vstd::prelude::*;

use crate::attr_parse::{classify_payload, spec_classify_payload, Classified, ClassifiedModel};
use crate::attributes::{
    attr_view, attrs_view, component_view, info_view, Attribute, AttributeInfo, AttributeInfoModel,
    AttributeModel, Code, CodeModel, RecordComponent, RecordComponentModel, Record,
};
use crate::const_pool::{spec_resolve, ConstPool};
use crate::const_types::{ConstItem, TryFromItem, Utf8};
use crate::error::{EntryKind, ParseError};
use crate::wire::{spec_parse_list, Readable};

verus! {

/// The length of the raw payload an attribute still carries; zero once
/// it is classified.
pub open spec fn raw_len(a: Attribute) -> int {
    match a.info {
        AttributeInfo::Unknown(u) => u.bytes@.len() as int,
        _ => 0,
    }
}

/// The string entry a mandatory name reference resolves to.
pub open spec fn spec_resolve_utf8(entries: Seq<Option<ConstItem>>, idx: u16) -> Result<
    Utf8,
    ParseError,
> {
    match spec_resolve(entries, idx, EntryKind::Utf8) {
        Ok(item) => match item {
            ConstItem::Utf8(u) => Ok(u),
            _ => Err(ParseError::Resolution(idx, EntryKind::Utf8)),
        },
        Err(e) => Err(e),
    }
}

/// Every attribute of the list realizes, classified, the raw attribute
/// model at its position.
pub open spec fn attrs_classified(
    ms: Seq<AttributeModel>,
    s: Seq<Attribute>,
    pool: Seq<Option<ConstItem>>,
) -> bool
    decreases s,
{
    &&& s.len() == ms.len()
    &&& forall|i: int| 0 <= i < s.len() ==> raw_step(ms[i], #[trigger] s[i], pool)
}

/// A classified record component realizes its model: the references are
/// kept and the nested attribute list is classified.
pub open spec fn comp_classified(
    mc: RecordComponentModel,
    c: RecordComponent,
    pool: Seq<Option<ConstItem>>,
) -> bool
    decreases c,
{
    &&& c.name_index == mc.name_index
    &&& c.descriptor_index == mc.descriptor_index
    &&& attrs_classified(mc.attributes, c.attributes@, pool)
}

/// A payload realizes a freshly parsed payload model: equal outright,
/// except that the nested attribute lists of a Code or Record payload
/// are classified in turn.
pub open spec fn classified_into(
    m: AttributeInfoModel,
    info: AttributeInfo,
    pool: Seq<Option<ConstItem>>,
) -> bool
    decreases info,
{
    match m {
        AttributeInfoModel::Code(cm) => info matches AttributeInfo::Code(c) && c.max_stack
            == cm.max_stack && c.max_locals == cm.max_locals && c.code@ == cm.code
            && c.exception_table@ == cm.exception_table && attrs_classified(
            cm.attributes,
            c.attributes@,
            pool,
        ),
        AttributeInfoModel::Record(comps) => info matches AttributeInfo::Record(rec)
            && rec.components@.len() == comps.len() && (forall|i: int|
            0 <= i < comps.len() ==> comp_classified(
                comps[i],
                #[trigger] rec.components@[i],
                pool,
            )),
        _ => info_view(info) == m,
    }
}

/// What one classification step makes of a raw attribute model: the
/// name reference is kept; an unresolvable name, an unrecognized name
/// or a malformed payload leave the payload as it was; a recognized,
/// well-formed payload is realized classified.
pub open spec fn raw_step(
    m: AttributeModel,
    after: Attribute,
    pool: Seq<Option<ConstItem>>,
) -> bool
    decreases after,
{
    &&& after.attribute_name_index.index == m.name_index
    &&& match m.info {
        AttributeInfoModel::Unknown(bytes) => match spec_resolve_utf8(pool, m.name_index) {
            Err(_) => info_view(after.info) == m.info,
            Ok(name) => match spec_classify_payload(name.str@, bytes) {
                ClassifiedModel::Unrecognized => info_view(after.info) == m.info,
                ClassifiedModel::Malformed(_) => info_view(after.info) == m.info,
                ClassifiedModel::Parsed(pm) => classified_into(pm, after.info, pool),
            },
        },
        _ => info_view(after.info) == m.info,
    }
}

/// What classifying one attribute does, stated between the attribute
/// before and after the pass: an already classified attribute is left
/// untouched (classification is idempotent), and an opaque one steps as
/// its raw model prescribes.
pub open spec fn attr_classify_step(
    before: Attribute,
    after: Attribute,
    pool: Seq<Option<ConstItem>>,
) -> bool
    decreases after,
{
    if !(before.info is Unknown) {
        after == before
    } else {
        let bytes = before.info->Unknown_0.bytes@;
        match spec_resolve_utf8(pool, before.attribute_name_index.index) {
            Err(_) => after == before,
            Ok(name) => match spec_classify_payload(name.str@, bytes) {
                ClassifiedModel::Unrecognized => after == before,
                ClassifiedModel::Malformed(_) => after == before,
                ClassifiedModel::Parsed(pm) => after.attribute_name_index
                    == before.attribute_name_index && classified_into(pm, after.info, pool),
            },
        }
    }
}

/// A payload whose model is the Unknown payload is the Unknown payload.
proof fn lemma_view_unknown(info: AttributeInfo, bb: Seq<u8>)
    requires
        info_view(info) == AttributeInfoModel::Unknown(bb),
    ensures
        info matches AttributeInfo::Unknown(u) && u.bytes@ == bb,
{
}

/// The exec-level classification step implies the model-level step.
pub proof fn lemma_step_implies_raw(before: Attribute, after: Attribute, pool: Seq<Option<ConstItem>>)
    requires
        attr_classify_step(before, after, pool),
    ensures
        raw_step(attr_view(before), after, pool),
{
}

/// In a parsed run of raw attributes, every payload is opaque, spans at
/// least six bytes less than the run, and the run ends inside the input.
proof fn lemma_attr_list_bounds(b: Seq<u8>, pos: int, n: nat)
    requires
        0 <= pos <= b.len(),
        spec_parse_list::<Attribute>(b, pos, n) is Ok,
    ensures
        ({
            let (s, p) = spec_parse_list::<Attribute>(b, pos, n)->Ok_0;
            &&& pos <= p <= b.len()
            &&& forall|i: int|
                0 <= i < s.len() ==> ({
                    &&& (#[trigger] s[i]).info matches AttributeInfoModel::Unknown(bb)
                    &&& bb.len() + 6 + pos <= p
                })
        }),
    decreases n,
{
    if n != 0 {
        let (v, p1) = <Attribute as Readable>::spec_parse(b, pos)->Ok_0;
        lemma_attr_list_bounds(b, p1, (n - 1) as nat);
    }
}

/// In a parsed run of record components, every nested payload is opaque
/// and spans at least six bytes less than the input.
proof fn lemma_component_list_bounds(b: Seq<u8>, pos: int, n: nat)
    requires
        0 <= pos <= b.len(),
        spec_parse_list::<RecordComponent>(b, pos, n) is Ok,
    ensures
        ({
            let (s, p) = spec_parse_list::<RecordComponent>(b, pos, n)->Ok_0;
            &&& pos <= p <= b.len()
            &&& forall|i: int, j: int|
                0 <= i < s.len() && 0 <= j < (#[trigger] s[i]).attributes.len() ==> ({
                    &&& (#[trigger] s[i].attributes[j]).info
                        matches AttributeInfoModel::Unknown(bb)
                    &&& bb.len() + 6 <= b.len()
                })
        }),
    decreases n,
{
    if n != 0 {
        let (v, p1) = <RecordComponent as Readable>::spec_parse(b, pos)->Ok_0;
        let (nidx, q1) = crate::reader::spec_read_u16(b, pos)->Ok_0;
        let (didx, q2) = crate::reader::spec_read_u16(b, q1)->Ok_0;
        let (cnt, q3) = crate::reader::spec_read_u16(b, q2)->Ok_0;
        lemma_attr_list_bounds(b, q3, cnt as nat);
        lemma_component_list_bounds(b, p1, (n - 1) as nat);
    }
}

/// A classified Code payload only arises from the Code layout, whose
/// nested raw attributes are all strictly shorter than the payload that
/// carried them.
proof fn lemma_code_nested_bounds(name: Seq<char>, b: Seq<u8>, cm: CodeModel)
    requires
        spec_classify_payload(name, b) == ClassifiedModel::Parsed(AttributeInfoModel::Code(cm)),
    ensures
        forall|i: int|
            0 <= i < cm.attributes.len() ==> ({
                &&& (#[trigger] cm.attributes[i]).info matches AttributeInfoModel::Unknown(bb)
                &&& bb.len() < b.len()
            }),
{
    let (max_stack, p1) = crate::reader::spec_read_u16(b, 0)->Ok_0;
    let (max_locals, p2) = crate::reader::spec_read_u16(b, p1)->Ok_0;
    let (code_len, p3) = crate::reader::spec_read_u32(b, p2)->Ok_0;
    let (code, p4) = crate::reader::spec_read_bytes(b, p3, code_len as int)->Ok_0;
    let (exc_n, p5) = crate::reader::spec_read_u16(b, p4)->Ok_0;
    let (exc, p6) = spec_parse_list::<crate::attributes::ExceptionTable>(b, p5, exc_n as nat)->Ok_0;
    let (attr_n, p7) = crate::reader::spec_read_u16(b, p6)->Ok_0;
    lemma_exception_list_monotone(b, p5, exc_n as nat);
    lemma_attr_list_bounds(b, p7, attr_n as nat);
}

/// A run of exception-table rows only moves the position forward,
/// within the input.
proof fn lemma_exception_list_monotone(b: Seq<u8>, pos: int, n: nat)
    requires
        0 <= pos <= b.len(),
        spec_parse_list::<crate::attributes::ExceptionTable>(b, pos, n) is Ok,
    ensures
        pos <= spec_parse_list::<crate::attributes::ExceptionTable>(b, pos, n)->Ok_0.1 <= b.len(),
    decreases n,
{
    if n != 0 {
        let (v, p1) = <crate::attributes::ExceptionTable as Readable>::spec_parse(b, pos)->Ok_0;
        lemma_exception_list_monotone(b, p1, (n - 1) as nat);
    }
}

/// A classified Record payload only arises from the Record layout,
/// whose nested raw attributes are all strictly shorter than the
/// payload that carried them.
proof fn lemma_record_nested_bounds(name: Seq<char>, b: Seq<u8>, comps: Seq<RecordComponentModel>)
    requires
        spec_classify_payload(name, b) == ClassifiedModel::Parsed(
            AttributeInfoModel::Record(comps),
        ),
    ensures
        forall|i: int, j: int|
            0 <= i < comps.len() && 0 <= j < (#[trigger] comps[i]).attributes.len() ==> ({
                &&& (#[trigger] comps[i].attributes[j]).info
                    matches AttributeInfoModel::Unknown(bb)
                &&& bb.len() < b.len()
            }),
{
    let (n, p1) = crate::reader::spec_read_u16(b, 0)->Ok_0;
    lemma_component_list_bounds(b, p1, n as nat);
}


/// Prefix order on diagnostics lists is transitive.
pub proof fn lemma_prefix_trans(a: Seq<ParseError>, b: Seq<ParseError>, c: Seq<ParseError>)
    requires
        a.is_prefix_of(b),
        b.is_prefix_of(c),
    ensures
        a.is_prefix_of(c),
{
    assert(a =~= c.subrange(0, a.len() as int));
}

/// Classification never yields the Unknown payload as a parse: an
/// unrecognized name stays Unknown by not parsing at all.
proof fn lemma_no_parsed_unknown(name: Seq<char>, b: Seq<u8>)
    ensures
        spec_classify_payload(name, b) matches ClassifiedModel::Parsed(pm) ==> !(pm is Unknown),
{
}

/// Classifies one attribute against the complete table: resolves its
/// name, re-parses the raw payload under that name, and recurses into
/// the nested attribute lists of a Code or Record payload. A failure is
/// recorded as a diagnostic and leaves this attribute opaque; it never
/// aborts the pass.
#[verifier::rlimit(100)]
pub fn classify_attribute(attr: Attribute, pool: &ConstPool, diags: &mut Vec<ParseError>) -> (r:
    Attribute)
    ensures
        attr_classify_step(attr, r, pool.entries@),
        old(diags)@.is_prefix_of(final(diags)@),
        !(attr.info is Unknown) ==> final(diags)@ == old(diags)@,
        attr.info matches AttributeInfo::Unknown(u) ==> match spec_resolve_utf8(
            pool.entries@,
            attr.attribute_name_index.index,
        ) {
            Err(e) => final(diags)@ == old(diags)@.push(e),
            Ok(name) => match spec_classify_payload(name.str@, u.bytes@) {
                ClassifiedModel::Unrecognized => final(diags)@ == old(diags)@,
                ClassifiedModel::Malformed(e) => final(diags)@ == old(diags)@.push(e),
                ClassifiedModel::Parsed(_) => true,
            },
        },
    decreases raw_len(attr),
{
    let ghost attr0 = attr;
    let ghost diags0 = diags@;
    let Attribute { attribute_name_index, info } = attr;
    let u: &crate::attributes::Unknown = match &info {
        AttributeInfo::Unknown(u) => u,
        _ => {
            return Attribute { attribute_name_index, info };
        },
    };
    let name = match pool.get(&attribute_name_index) {
        Ok(n) => n,
        Err(e) => {
            diags.push(e);
            proof {
                assert(diags0.is_prefix_of(diags@));
            }
            return Attribute { attribute_name_index, info };
        },
    };
    let ghost name_str = name.str@;
    let ghost bytes_g = u.bytes@;
    let outcome = classify_payload(&name.str, &u.bytes);
    match outcome {
        Classified::Unrecognized => Attribute { attribute_name_index, info },
        Classified::Malformed(e) => {
            diags.push(e);
            proof {
                assert(diags0.is_prefix_of(diags@));
            }
            Attribute { attribute_name_index, info }
        },
        Classified::Parsed(new_info) => {
            let ghost new_m = info_view(new_info);
            match new_info {
                AttributeInfo::Code(c) => {
                    let Code { max_stack, max_locals, code, exception_table, attributes } = c;
                    let ghost cm_attrs = attrs_view(attributes@);
                    proof {
                        lemma_code_nested_bounds(name_str, bytes_g, new_m->Code_0);
                    }
                    let mut rest = attributes;
                    let mut done: Vec<Attribute> = Vec::new();
                    #[verifier::loop_isolation(false)]
                    while rest.len() > 0
                        invariant
                            done@.len() + rest@.len() == cm_attrs.len(),
                            forall|i: int|
                                0 <= i < done@.len() ==> raw_step(
                                    cm_attrs[i],
                                    #[trigger] done@[i],
                                    pool.entries@,
                                ),
                            forall|i: int|
                                0 <= i < rest@.len() ==> attr_view(#[trigger] rest@[i])
                                    == cm_attrs[done@.len() + i],
                            diags0.is_prefix_of(diags@),
                        decreases rest@.len(),
                    {
                        let ghost old_rest = rest@;
                        let ghost old_diags = diags@;
                        let a = rest.remove(0);
                        let ghost a_g = a;
                        proof {
                            assert(rest@ =~= old_rest.skip(1));
                            assert(attr_view(a_g) == cm_attrs[done@.len() as int]);
                            let bb = cm_attrs[done@.len() as int].info->Unknown_0;
                            lemma_view_unknown(a_g.info, bb);
                        }
                        let a2 = classify_attribute(a, pool, diags);
                        let ghost a2_g = a2;
                        proof {
                            lemma_step_implies_raw(a_g, a2_g, pool.entries@);
                            lemma_prefix_trans(diags0, old_diags, diags@);
                        }
                        done.push(a2);
                    }
                    Attribute {
                        attribute_name_index,
                        info: AttributeInfo::Code(
                            Code { max_stack, max_locals, code, exception_table, attributes: done },
                        ),
                    }
                },
                AttributeInfo::Record(rec) => {
                    let ghost comps_m = crate::attributes::components_view(rec.components@);
                    proof {
                        lemma_record_nested_bounds(name_str, bytes_g, comps_m);
                    }
                    let mut comps_rest = rec.components;
                    let mut comps_done: Vec<RecordComponent> = Vec::new();
                    #[verifier::loop_isolation(false)]
                    while comps_rest.len() > 0
                        invariant
                            comps_done@.len() + comps_rest@.len() == comps_m.len(),
                            forall|i: int|
                                0 <= i < comps_done@.len() ==> comp_classified(
                                    comps_m[i],
                                    #[trigger] comps_done@[i],
                                    pool.entries@,
                                ),
                            forall|i: int|
                                0 <= i < comps_rest@.len() ==> component_view(
                                    #[trigger] comps_rest@[i],
                                ) == comps_m[comps_done@.len() + i],
                            diags0.is_prefix_of(diags@),
                        decreases comps_rest@.len(),
                    {
                        let ghost old_crest = comps_rest@;
                        let ghost k = comps_done@.len() as int;
                        let comp = comps_rest.remove(0);
                        let ghost comp_g = comp;
                        proof {
                            assert(comps_rest@ =~= old_crest.skip(1));
                            assert(component_view(comp_g) == comps_m[k]);
                        }
                        let RecordComponent { name_index, descriptor_index, attributes } = comp;
                        let ghost ms = comps_m[k].attributes;
                        proof {
                            assert(ms == attrs_view(attributes@));
                        }
                        let mut rest = attributes;
                        let mut done: Vec<Attribute> = Vec::new();
                        #[verifier::loop_isolation(false)]
                        while rest.len() > 0
                            invariant
                                done@.len() + rest@.len() == ms.len(),
                                forall|i: int|
                                    0 <= i < done@.len() ==> raw_step(
                                        ms[i],
                                        #[trigger] done@[i],
                                        pool.entries@,
                                    ),
                                forall|i: int|
                                    0 <= i < rest@.len() ==> attr_view(#[trigger] rest@[i])
                                        == ms[done@.len() + i],
                                diags0.is_prefix_of(diags@),
                            decreases rest@.len(),
                        {
                            let ghost old_rest = rest@;
                            let ghost old_diags = diags@;
                            let a = rest.remove(0);
                            let ghost a_g = a;
                            proof {
                                assert(rest@ =~= old_rest.skip(1));
                                assert(attr_view(a_g) == ms[done@.len() as int]);
                                let bb = ms[done@.len() as int].info->Unknown_0;
                                lemma_view_unknown(a_g.info, bb);
                            }
                            let a2 = classify_attribute(a, pool, diags);
                            let ghost a2_g = a2;
                            proof {
                                lemma_step_implies_raw(a_g, a2_g, pool.entries@);
                                lemma_prefix_trans(diags0, old_diags, diags@);
                            }
                            done.push(a2);
                        }
                        comps_done.push(
                            RecordComponent { name_index, descriptor_index, attributes: done },
                        );
                    }
                    Attribute {
                        attribute_name_index,
                        info: AttributeInfo::Record(Record { components: comps_done }),
                    }
                },
                other => Attribute { attribute_name_index, info: other },
            }
        },
    }
}

impl Attribute {
    /// Classifies this attribute in place: the payload is mutated at
    /// most once, from opaque bytes to a typed payload, and never again.
    pub fn classify(&mut self, pool: &ConstPool, diags: &mut Vec<ParseError>)
        ensures
            attr_classify_step(*old(self), *final(self), pool.entries@),
            old(diags)@.is_prefix_of(final(diags)@),
    {
        let mut tmp = Attribute {
            attribute_name_index: crate::const_types::Index::new(0),
            info: AttributeInfo::Unknown(crate::attributes::Unknown { bytes: Vec::new() }),
        };
        core::mem::swap(self, &mut tmp);
        let done = classify_attribute(tmp, pool, diags);
        *self = done;
    }
}

/// Classifies every attribute of a list in order. Classification of one
/// attribute never prevents classification of any sibling: a failure
/// becomes a diagnostic and the pass continues.
pub fn classify_attributes(attrs: Vec<Attribute>, pool: &ConstPool, diags: &mut Vec<ParseError>)
    -> (r: Vec<Attribute>)
    ensures
        r@.len() == attrs@.len(),
        forall|i: int|
            0 <= i < attrs@.len() ==> attr_classify_step(attrs@[i], #[trigger] r@[i], pool.entries@),
        old(diags)@.is_prefix_of(final(diags)@),
{
    let ghost attrs0 = attrs@;
    let ghost diags0 = diags@;
    let mut rest = attrs;
    let mut done: Vec<Attribute> = Vec::new();
    #[verifier::loop_isolation(false)]
    while rest.len() > 0
        invariant
            done@.len() + rest@.len() == attrs0.len(),
            forall|i: int|
                0 <= i < done@.len() ==> attr_classify_step(
                    attrs0[i],
                    #[trigger] done@[i],
                    pool.entries@,
                ),
            forall|i: int| 0 <= i < rest@.len() ==> #[trigger] rest@[i] == attrs0[done@.len() + i],
            diags0.is_prefix_of(diags@),
        decreases rest@.len(),
    {
        let ghost old_rest = rest@;
        let ghost old_diags = diags@;
        let a = rest.remove(0);
        proof {
            assert(rest@ =~= old_rest.skip(1));
        }
        let a2 = classify_attribute(a, pool, diags);
        proof {
            lemma_prefix_trans(diags0, old_diags, diags@);
        }
        done.push(a2);
    }
    done
}

/// Classifying an attribute twice is equivalent to classifying it once:
/// whatever one pass produced, a second pass leaves it exactly as it is.
pub proof fn lemma_classify_idempotent(
    before: Attribute,
    once: Attribute,
    twice: Attribute,
    pool: Seq<Option<ConstItem>>,
)
    requires
        attr_classify_step(before, once, pool),
        attr_classify_step(once, twice, pool),
    ensures
        twice == once,
{
    if before.info is Unknown {
        let bytes = before.info->Unknown_0.bytes@;
        match spec_resolve_utf8(pool, before.attribute_name_index.index) {
            Ok(name) => match spec_classify_payload(name.str@, bytes) {
                ClassifiedModel::Parsed(pm) => {
                    lemma_no_parsed_unknown(name.str@, bytes);
                    match pm {
                        AttributeInfoModel::Code(_) => {},
                        AttributeInfoModel::Record(_) => {},
                        _ => {
                            if once.info is Unknown {
                                assert(info_view(once.info) == pm);
                                assert(false);
                            }
                        },
                    }
                },
                _ => {},
            },
            _ => {},
        }
    }
}

} // verus!
