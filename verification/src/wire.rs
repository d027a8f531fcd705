use vstd::prelude::*;

use crate::error::ParseError;
use crate::reader::Reader;

verus! {

/// A record that can be decoded sequentially from the byte source. The
/// wire layout of each record is fixed by `spec_parse`, and `read` is
/// its decoder, exact against that layout.
pub trait Readable: Sized {
    /// The mathematical content of the record.
    type Model;

    /// The sequential decode of one record at `pos`.
    spec fn spec_parse(b: Seq<u8>, pos: int) -> Result<(Self::Model, int), ParseError>;

    /// The model of a decoded record.
    spec fn model(self) -> Self::Model;

    /// Decodes one record from the byte source.
    fn read(reader: &mut Reader) -> (r: Result<Self, ParseError>)
        requires
            old(reader).wf(),
        ensures
            final(reader).wf(),
            final(reader).data@ == old(reader).data@,
            match Self::spec_parse(old(reader).data@, old(reader).pos as int) {
                Ok((v, p)) => r matches Ok(x) && x.model() == v && final(reader).pos == p,
                Err(e) => r matches Err(e2) && e2 == e,
            };
}

/// The models of a run of decoded records.
pub open spec fn list_view<E: Readable>(s: Seq<E>) -> Seq<E::Model> {
    s.map_values(|e: E| e.model())
}

/// The sequential decode of exactly `n` records, each starting where
/// the one before it ended.
pub open spec fn spec_parse_list<E: Readable>(b: Seq<u8>, pos: int, n: nat) -> Result<
    (Seq<E::Model>, int),
    ParseError,
>
    decreases n,
{
    if n == 0 {
        Ok((Seq::empty(), pos))
    } else {
        match E::spec_parse(b, pos) {
            Err(e) => Err(e),
            Ok((v, p)) => match spec_parse_list::<E>(b, p, (n - 1) as nat) {
                Err(e) => Err(e),
                Ok((rest, p2)) => Ok((seq![v].add(rest), p2)),
            },
        }
    }
}

/// Decodes a count-prefixed run of `n` records from the byte source.
pub fn read_list<E: Readable>(reader: &mut Reader, n: usize) -> (r: Result<Vec<E>, ParseError>)
    requires
        old(reader).wf(),
    ensures
        final(reader).wf(),
        final(reader).data@ == old(reader).data@,
        match spec_parse_list::<E>(old(reader).data@, old(reader).pos as int, n as nat) {
            Ok((s, p)) => r matches Ok(v) && list_view(v@) == s && v@.len() == n
                && final(reader).pos == p,
            Err(e) => r matches Err(e2) && e2 == e,
        },
{
    let ghost b = reader.data@;
    let ghost pos0 = reader.pos as int;
    let mut out: Vec<E> = Vec::new();
    proof {
        if let Ok((rest, p)) = spec_parse_list::<E>(b, pos0, n as nat) {
            assert(list_view(out@).add(rest) =~= rest);
        }
    }
    #[verifier::loop_isolation(false)]
    while out.len() < n
        invariant
            reader.wf(),
            reader.data@ == b,
            out@.len() <= n,
            match spec_parse_list::<E>(b, reader.pos as int, (n - out@.len()) as nat) {
                Ok((rest, p)) => spec_parse_list::<E>(b, pos0, n as nat) == Ok::<
                    (Seq<E::Model>, int),
                    ParseError,
                >((list_view(out@).add(rest), p)),
                Err(e) => spec_parse_list::<E>(b, pos0, n as nat) == Err::<
                    (Seq<E::Model>, int),
                    ParseError,
                >(e),
            },
        decreases n - out@.len(),
    {
        let ghost rem = (n - out@.len()) as nat;
        let ghost old_out = out@;
        let v = match E::read(reader) {
            Ok(v) => v,
            Err(e) => {
                return Err(e);
            },
        };
        let ghost vm = v.model();
        out.push(v);
        proof {
            assert(list_view(out@) =~= list_view(old_out).push(vm));
            if let Ok((rest2, p)) = spec_parse_list::<E>(b, reader.pos as int, (rem - 1) as nat) {
                assert(list_view(old_out).push(vm).add(rest2) =~= list_view(old_out).add(
                    seq![vm].add(rest2),
                ));
            }
        }
    }
    proof {
        assert(list_view(out@).add(Seq::<E::Model>::empty()) =~= list_view(out@));
    }
    Ok(out)
}

} // verus!
