use vstd::prelude::*;

use crate::const_types::{
    item_kind, model_is_wide, spec_parse_item, read_item, ConstItem, ConstItemModel, Index,
    TryFromItem,
};
use crate::error::{EntryKind, ParseError};
use crate::reader::{spec_read_u16, Reader};

verus! {

/// The constant table: a one-based sequence of optional entries. Slot 0
/// is always absent and reserved; a wide (Long or Double) entry forces
/// the slot after it to stay absent as a placeholder.
#[derive(Debug, PartialEq)]
pub struct ConstPool {
    pub entries: Vec<Option<ConstItem>>,
}

/// The mathematical content of a table: each present entry replaced by
/// its model.
pub open spec fn entries_view(s: Seq<Option<ConstItem>>) -> Seq<Option<ConstItemModel>> {
    s.map_values(
        |e: Option<ConstItem>|
            match e {
                Option::Some(i) => Some(i@),
                Option::None => None,
            },
    )
}

impl View for ConstPool {
    type V = Seq<Option<ConstItemModel>>;

    open spec fn view(&self) -> Seq<Option<ConstItemModel>> {
        entries_view(self.entries@)
    }
}

/// Slot `i` is absent.
pub open spec fn entry_absent(s: Seq<Option<ConstItemModel>>, i: int) -> bool {
    s[i] is None
}

/// Slot `i` holds a wide (Long or Double) entry.
pub open spec fn entry_wide(s: Seq<Option<ConstItemModel>>, i: int) -> bool {
    s[i] matches Some(x) && model_is_wide(x)
}

/// The structural invariant of a materialized table: slot 0 is the
/// reserved absent slot, every other absent slot is the placeholder
/// right after a wide entry, and every wide entry is followed by a
/// placeholder unless it sits in the table's last slot.
pub open spec fn pool_model_wf(m: Seq<Option<ConstItemModel>>) -> bool {
    &&& m.len() >= 1
    &&& m[0] is None
    &&& forall|i: int| 1 <= i < m.len() && #[trigger] entry_absent(m, i) ==> entry_wide(m, i - 1)
    &&& forall|i: int| 0 <= i < m.len() - 1 && #[trigger] entry_wide(m, i) ==> entry_absent(m, i + 1)
}

/// The sequential decode of `slots` remaining table slots. A wide entry
/// consumes its own slot and the placeholder after it; a wide entry for
/// which only one slot remains occupies the last slot alone, so a
/// declared count never over- or under-fills the table.
pub open spec fn spec_parse_entries(b: Seq<u8>, pos: int, slots: nat) -> Result<
    (Seq<Option<ConstItemModel>>, int),
    ParseError,
>
    decreases slots,
{
    if slots == 0 {
        Ok((Seq::empty(), pos))
    } else {
        match spec_parse_item(b, pos) {
            Err(e) => Err(e),
            Ok((item, p)) => {
                let used: nat = if model_is_wide(item) && slots >= 2 {
                    2
                } else {
                    1
                };
                let head: Seq<Option<ConstItemModel>> = if used == 2 {
                    seq![Some(item), None]
                } else {
                    seq![Some(item)]
                };
                match spec_parse_entries(b, p, (slots - used) as nat) {
                    Err(e) => Err(e),
                    Ok((rest, p2)) => Ok((head + rest, p2)),
                }
            },
        }
    }
}

/// The sequential decode of the whole table: a two-byte declared count
/// N, then entries for the N - 1 slots that follow the reserved slot 0.
pub open spec fn spec_parse_pool(b: Seq<u8>, pos: int) -> Result<
    (Seq<Option<ConstItemModel>>, int),
    ParseError,
> {
    match spec_read_u16(b, pos) {
        Err(e) => Err(e),
        Ok((count, p)) => {
            let slots: nat = if count == 0 {
                0
            } else {
                (count - 1) as nat
            };
            match spec_parse_entries(b, p, slots) {
                Err(e) => Err(e),
                Ok((rest, p2)) => Ok((seq![Option::<ConstItemModel>::None].add(rest), p2)),
            }
        },
    }
}

/// A parsed slot run is exactly as long as the slot budget it was given.
pub proof fn lemma_parse_entries_len(b: Seq<u8>, pos: int, slots: nat)
    requires
        spec_parse_entries(b, pos, slots) is Ok,
    ensures
        spec_parse_entries(b, pos, slots)->Ok_0.0.len() == slots,
    decreases slots,
{
    if slots != 0 {
        let (item, p) = spec_parse_item(b, pos)->Ok_0;
        let used: nat = if model_is_wide(item) && slots >= 2 {
            2
        } else {
            1
        };
        lemma_parse_entries_len(b, p, (slots - used) as nat);
    }
}

/// In a parsed slot run, the first slot is never absent, an absent slot
/// is always the placeholder after a wide entry, and a wide entry is
/// followed by an absent slot unless the run ends at it.
pub proof fn lemma_parse_entries_shape(b: Seq<u8>, pos: int, slots: nat)
    requires
        spec_parse_entries(b, pos, slots) is Ok,
    ensures
        ({
            let s = spec_parse_entries(b, pos, slots)->Ok_0.0;
            &&& (slots > 0 ==> s[0] is Some)
            &&& forall|i: int|
                0 <= i < s.len() && #[trigger] entry_absent(s, i) ==> i >= 1 && entry_wide(s, i - 1)
            &&& forall|i: int|
                0 <= i < s.len() - 1 && #[trigger] entry_wide(s, i) ==> entry_absent(s, i + 1)
        }),
    decreases slots,
{
    if slots != 0 {
        let s = spec_parse_entries(b, pos, slots)->Ok_0.0;
        let (item, p) = spec_parse_item(b, pos)->Ok_0;
        let used: nat = if model_is_wide(item) && slots >= 2 {
            2
        } else {
            1
        };
        let head: Seq<Option<ConstItemModel>> = if used == 2 {
            seq![Some(item), None]
        } else {
            seq![Some(item)]
        };
        let rest = spec_parse_entries(b, p, (slots - used) as nat)->Ok_0.0;
        lemma_parse_entries_len(b, p, (slots - used) as nat);
        lemma_parse_entries_shape(b, p, (slots - used) as nat);
        assert(s == head.add(rest));
        assert forall|i: int|
            0 <= i < s.len() && #[trigger] entry_absent(s, i) implies i >= 1 && entry_wide(
            s,
            i - 1,
        ) by {
            if i >= head.len() {
                assert(entry_absent(rest, i - head.len()));
                if i - head.len() >= 1 {
                    assert(entry_wide(rest, i - head.len() - 1));
                } else {
                    // the first slot of the rest is never absent
                    assert(rest[0] is Some);
                    assert(false);
                }
            } else {
                assert(i == 1 && used == 2);
                assert(entry_wide(s, 0));
            }
        }
        assert forall|i: int|
            0 <= i < s.len() - 1 && #[trigger] entry_wide(s, i) implies entry_absent(s, i + 1) by {
            if i >= head.len() {
                assert(entry_wide(rest, i - head.len()));
            } else if i == 0 {
                if used == 2 {
                    assert(entry_absent(s, 1));
                } else {
                    // a wide entry takes one slot only when the run ends at it
                    assert(model_is_wide(item) ==> slots == 1);
                    assert(s.len() == 1);
                }
            } else {
                assert(used == 2 && i == 1);
                assert(entry_absent(s, 1));
                assert(false);
            }
        }
    }
}

/// Decoding reproduces the declared count: a table materialized from a
/// declared count of N (with N at least 1) holds exactly N slots,
/// counting entries and placeholders, and every placeholder slot
/// immediately follows a wide entry.
pub proof fn lemma_pool_count_round_trip(b: Seq<u8>, pos: int)
    requires
        spec_parse_pool(b, pos) is Ok,
        spec_read_u16(b, pos) matches Ok((count, _)) && count >= 1,
    ensures
        ({
            let m = spec_parse_pool(b, pos)->Ok_0.0;
            &&& m.len() == spec_read_u16(b, pos)->Ok_0.0
            &&& pool_model_wf(m)
        }),
{
    let (count, p) = spec_read_u16(b, pos)->Ok_0;
    let slots: nat = (count - 1) as nat;
    let m = spec_parse_pool(b, pos)->Ok_0.0;
    let s = spec_parse_entries(b, p, slots)->Ok_0.0;
    lemma_parse_entries_len(b, p, slots);
    lemma_parse_entries_shape(b, p, slots);
    assert(m == seq![Option::<ConstItemModel>::None].add(s));
    assert forall|i: int| 1 <= i < m.len() && #[trigger] entry_absent(m, i) implies entry_wide(
        m,
        i - 1,
    ) by {
        assert(entry_absent(s, i - 1));
        assert(i - 1 >= 1);
        assert(entry_wide(s, i - 2));
    }
    assert forall|i: int|
        0 <= i < m.len() - 1 && #[trigger] entry_wide(m, i) implies entry_absent(m, i + 1) by {
        assert(i >= 1);
        assert(entry_wide(s, i - 1));
        assert(entry_absent(s, i));
    }
}

/// A materialized table satisfies the structural invariant whatever the
/// declared count was.
pub proof fn lemma_parse_pool_wf(b: Seq<u8>, pos: int)
    requires
        spec_parse_pool(b, pos) is Ok,
    ensures
        pool_model_wf(spec_parse_pool(b, pos)->Ok_0.0),
{
    let (count, p) = spec_read_u16(b, pos)->Ok_0;
    let slots: nat = if count == 0 {
        0
    } else {
        (count - 1) as nat
    };
    let s = spec_parse_entries(b, p, slots)->Ok_0.0;
    lemma_parse_entries_len(b, p, slots);
    lemma_parse_entries_shape(b, p, slots);
    let m = spec_parse_pool(b, pos)->Ok_0.0;
    assert(m == seq![Option::<ConstItemModel>::None].add(s));
    assert forall|i: int| 1 <= i < m.len() && #[trigger] entry_absent(m, i) implies entry_wide(
        m,
        i - 1,
    ) by {
        assert(entry_absent(s, i - 1));
        assert(i - 1 >= 1);
        assert(entry_wide(s, i - 2));
    }
    assert forall|i: int|
        0 <= i < m.len() - 1 && #[trigger] entry_wide(m, i) implies entry_absent(m, i + 1) by {
        assert(i >= 1);
        assert(entry_wide(s, i - 1));
        assert(entry_absent(s, i));
    }
}

/// Decodes the whole constant table from the byte source, reproducing
/// the wide-entry slot layout of the wire format.
#[verifier::rlimit(80)]
pub fn read_pool(reader: &mut Reader) -> (r: Result<ConstPool, ParseError>)
    requires
        old(reader).wf(),
    ensures
        final(reader).wf(),
        final(reader).data@ == old(reader).data@,
        match spec_parse_pool(old(reader).data@, old(reader).pos as int) {
            Ok((m, p)) => r matches Ok(pool) && pool@ == m && final(reader).pos == p,
            Err(e) => r matches Err(e2) && e2 == e,
        },
{
    let ghost b = reader.data@;
    let ghost pos0 = reader.pos as int;
    let count = reader.read_u16()?;
    let ghost p1 = reader.pos as int;
    let mut entries: Vec<Option<ConstItem>> = Vec::new();
    entries.push(None);
    proof {
        assert(entries_view(entries@).skip(1) =~= Seq::<Option<ConstItemModel>>::empty());
        if count >= 1 {
            if let Ok((rest, p)) = spec_parse_entries(b, p1, (count - 1) as nat) {
                assert(entries_view(entries@).skip(1).add(rest) =~= rest);
            }
        }
    }
    #[verifier::loop_isolation(false)]
    while entries.len() < count as usize
        invariant
            reader.wf(),
            reader.data@ == b,
            spec_read_u16(b, pos0) == Ok::<(u16, int), ParseError>((count, p1)),
            1 <= entries@.len(),
            entries@.len() <= count || (count == 0 && entries@.len() == 1),
            entries@[0] is None,
            count == 0 ==> reader.pos == p1,
            count >= 1 ==> match spec_parse_entries(
                b,
                reader.pos as int,
                (count - entries@.len()) as nat,
            ) {
                Ok((rest, p)) => spec_parse_entries(b, p1, (count - 1) as nat) == Ok::<
                    (Seq<Option<ConstItemModel>>, int),
                    ParseError,
                >((entries_view(entries@).skip(1).add(rest), p)),
                Err(e) => spec_parse_entries(b, p1, (count - 1) as nat) == Err::<
                    (Seq<Option<ConstItemModel>>, int),
                    ParseError,
                >(e),
            },
        decreases count as int - entries@.len(),
    {
        let ghost cur = reader.pos as int;
        let ghost rem = (count - entries@.len()) as nat;
        let ghost old_entries = entries@;
        let item = match read_item(reader) {
            Ok(it) => it,
            Err(e) => {
                return Err(e);
            },
        };
        let ghost item_m = item@;
        let wide = match &item {
            ConstItem::Long(_) => true,
            ConstItem::Double(_) => true,
            _ => false,
        };
        proof {
            assert(wide == model_is_wide(item_m));
        }
        if wide && entries.len() + 1 < count as usize {
            entries.push(Some(item));
            entries.push(None);
        } else {
            entries.push(Some(item));
        }
        proof {
            let head: Seq<Option<ConstItemModel>> = if wide && rem >= 2 {
                seq![Some(item_m), None]
            } else {
                seq![Some(item_m)]
            };
            assert(entries_view(entries@).skip(1) =~= entries_view(old_entries).skip(1).add(head));
            let used: nat = if wide && rem >= 2 {
                2
            } else {
                1
            };
            if let Ok((rest2, p)) = spec_parse_entries(b, reader.pos as int, (rem - used) as nat) {
                assert(entries_view(old_entries).skip(1).add(head).add(rest2)
                    =~= entries_view(old_entries).skip(1).add(head.add(rest2)));
            }
        }
    }
    proof {
        assert(spec_parse_entries(b, reader.pos as int, 0nat) == Ok::<
            (Seq<Option<ConstItemModel>>, int),
            ParseError,
        >((Seq::<Option<ConstItemModel>>::empty(), reader.pos as int)));
        assert(entries_view(entries@).skip(1).add(Seq::<Option<ConstItemModel>>::empty())
            =~= entries_view(entries@).skip(1));
        if count == 0 {
            assert(entries_view(entries@).skip(1) =~= Seq::<Option<ConstItemModel>>::empty());
            assert(spec_parse_entries(b, p1, 0nat) == Ok::<
                (Seq<Option<ConstItemModel>>, int),
                ParseError,
            >((entries_view(entries@).skip(1), reader.pos as int)));
        } else {
            assert(entries@.len() == count);
            assert(spec_parse_entries(b, p1, (count - 1) as nat) == Ok::<
                (Seq<Option<ConstItemModel>>, int),
                ParseError,
            >((entries_view(entries@).skip(1), reader.pos as int)));
        }
        assert(seq![Option::<ConstItemModel>::None].add(entries_view(entries@).skip(1))
            =~= entries_view(entries@));
        assert(spec_parse_pool(b, pos0) == Ok::<(Seq<Option<ConstItemModel>>, int), ParseError>(
            (entries_view(entries@), reader.pos as int),
        ));
    }
    Ok(ConstPool { entries })
}

/// The outcome resolution owes for a slot number in a mandatory field:
/// slot 0, a slot out of bounds, an absent (reserved or placeholder)
/// slot, and an entry of the wrong kind are all resolution errors.
pub open spec fn spec_resolve(entries: Seq<Option<ConstItem>>, idx: u16, kind: EntryKind) -> Result<
    ConstItem,
    ParseError,
> {
    if idx == 0 || idx >= entries.len() {
        Err(ParseError::Resolution(idx, kind))
    } else {
        match entries[idx as int] {
            None => Err(ParseError::Resolution(idx, kind)),
            Some(item) => if kind == EntryKind::Any || item_kind(item) == kind {
                Ok(item)
            } else {
                Err(ParseError::Resolution(idx, kind))
            },
        }
    }
}

/// The outcome resolution owes in an optional field: slot 0 succeeds
/// with "absent"; every other slot resolves as in a mandatory field.
pub open spec fn spec_resolve_optional(
    entries: Seq<Option<ConstItem>>,
    idx: u16,
    kind: EntryKind,
) -> Result<Option<ConstItem>, ParseError> {
    if idx == 0 {
        Ok(None)
    } else {
        match spec_resolve(entries, idx, kind) {
            Ok(item) => Ok(Some(item)),
            Err(e) => Err(e),
        }
    }
}

impl ConstPool {
    /// The table's structural invariant: the reserved slot, and the
    /// pairing of wide entries with their placeholders.
    pub open spec fn wf(&self) -> bool {
        pool_model_wf(self@)
    }

    /// Resolves a mandatory typed reference against the table, checking
    /// bounds, absence and the entry's runtime kind.
    pub fn get<T: TryFromItem>(&self, index: &Index<T>) -> (r: Result<&T, ParseError>)
        ensures
            match spec_resolve(self.entries@, index.index, T::spec_kind()) {
                Ok(item) => r matches Ok(v) && T::spec_of_item(item) == Some(*v),
                Err(e) => r matches Err(e2) && e2 == e,
            },
    {
        let idx = index.index;
        if idx == 0 {
            return Err(ParseError::Resolution(idx, T::kind()));
        }
        if idx as usize >= self.entries.len() {
            return Err(ParseError::Resolution(idx, T::kind()));
        }
        match &self.entries[idx as usize] {
            None => Err(ParseError::Resolution(idx, T::kind())),
            Some(item) => {
                proof {
                    T::lemma_kind_consistent(*item);
                }
                match T::try_from_item(item) {
                    Some(v) => Ok(v),
                    None => Err(ParseError::Resolution(idx, T::kind())),
                }
            },
        }
    }

    /// Resolves an optional typed reference: slot 0 stands for "no
    /// reference" and succeeds with nothing.
    pub fn get_optional<T: TryFromItem>(&self, index: &Index<T>) -> (r: Result<
        Option<&T>,
        ParseError,
    >)
        ensures
            match spec_resolve_optional(self.entries@, index.index, T::spec_kind()) {
                Ok(Option::None) => r matches Ok(o) && o is None,
                Ok(Option::Some(item)) => r matches Ok(o) && o matches Some(v)
                    && T::spec_of_item(item) == Some(*v),
                Err(e) => r matches Err(e2) && e2 == e,
            },
    {
        if index.index == 0 {
            Ok(None)
        } else {
            match self.get(index) {
                Ok(v) => Ok(Some(v)),
                Err(e) => Err(e),
            }
        }
    }
}

impl<T: TryFromItem> Index<T> {
    /// Resolves this reference against a table, as a mandatory field.
    pub fn get<'a>(&self, pool: &'a ConstPool) -> (r: Result<&'a T, ParseError>)
        ensures
            match spec_resolve(pool.entries@, self.index, T::spec_kind()) {
                Ok(item) => r matches Ok(v) && T::spec_of_item(item) == Some(*v),
                Err(e) => r matches Err(e2) && e2 == e,
            },
    {
        pool.get(self)
    }
}

/// Resolution of slot 0 always succeeds with "absent" in an optional
/// field and always fails in a mandatory field, whatever the table and
/// the expected kind; resolving any absent slot, placeholders included,
/// always fails.
pub proof fn lemma_resolve_zero_and_placeholder(
    entries: Seq<Option<ConstItem>>,
    idx: u16,
    kind: EntryKind,
)
    ensures
        spec_resolve_optional(entries, 0, kind) == Ok::<Option<ConstItem>, ParseError>(None),
        spec_resolve(entries, 0, kind) == Err::<ConstItem, ParseError>(
            ParseError::Resolution(0, kind),
        ),
        0 <= idx < entries.len() && entries[idx as int] is None ==> spec_resolve(entries, idx, kind)
            == Err::<ConstItem, ParseError>(ParseError::Resolution(idx, kind)),
{
}

} // verus!
