use crate::pubkey::Pubkey;
use crate::state::Escrow;
use vstd::bytes::{
    lemma_auto_spec_u64_to_from_le_bytes, spec_u64_to_le_bytes, u64_from_le_bytes, u64_to_le_bytes,
};
use vstd::prelude::*;
use vstd::slice::{slice_index_get, slice_subrange};

verus! {

/// Number of bytes of one persisted record. The surrounding framework prepends
/// its own type discriminator; that prefix is not part of this layout.
pub const RECORD_LEN: usize = 113;

/// The persisted layout of a record: seed (8 bytes, little endian), maker
/// (32), mint_a (32), mint_b (32), receive (8 bytes, little endian), bump (1).
pub open spec fn record_bytes(e: Escrow) -> Seq<u8> {
    spec_u64_to_le_bytes(e.seed) + e.maker@ + e.mint_a@ + e.mint_b@ + spec_u64_to_le_bytes(
        e.receive,
    ) + seq![e.bump]
}

fn push_pubkey(out: &mut Vec<u8>, p: &Pubkey)
    ensures
        final(out)@ == old(out)@ + p@,
{
    let mut i: usize = 0;
    while i < 32
        invariant
            0 <= i <= 32,
            out@ == old(out)@ + p@.subrange(0, i as int),
        decreases 32 - i,
    {
        out.push(p.bytes[i]);
        i += 1;
        proof {
            assert(out@ =~= old(out)@ + p@.subrange(0, i as int));
        }
    }
    proof {
        assert(p@.subrange(0, 32) =~= p@);
    }
}

/// Serialize a record into its persisted layout.
pub fn serialize_record(e: &Escrow) -> (r: Vec<u8>)
    ensures
        r@ == record_bytes(*e),
        r@.len() == RECORD_LEN,
{
    let mut out = u64_to_le_bytes(e.seed);
    push_pubkey(&mut out, &e.maker);
    push_pubkey(&mut out, &e.mint_a);
    push_pubkey(&mut out, &e.mint_b);
    let mut receive_bytes = u64_to_le_bytes(e.receive);
    out.append(&mut receive_bytes);
    out.push(e.bump);
    proof {
        lemma_auto_spec_u64_to_from_le_bytes();
        assert(out@ =~= record_bytes(*e));
    }
    out
}

fn read_pubkey(bytes: &[u8], start: usize) -> (r: Pubkey)
    requires
        start + 32 <= bytes@.len(),
        bytes@.len() <= usize::MAX,
    ensures
        r@ == bytes@.subrange(start as int, start as int + 32),
{
    let mut arr: [u8; 32] = [0u8; 32];
    let mut i: usize = 0;
    while i < 32
        invariant
            0 <= i <= 32,
            start + 32 <= bytes@.len(),
            bytes@.len() <= usize::MAX,
            forall|j: int| 0 <= j < i ==> arr@[j] == bytes@[start + j],
        decreases 32 - i,
    {
        arr[i] = *slice_index_get(bytes, start + i);
        i += 1;
    }
    let p = Pubkey { bytes: arr };
    proof {
        assert(p@ =~= bytes@.subrange(start as int, start as int + 32));
    }
    p
}

/// Parse a persisted record. Exactly the byte strings of length `RECORD_LEN`
/// parse, and the parsed record lays back out to the very bytes given: the
/// layout round-trips.
pub fn parse_record(bytes: &[u8]) -> (r: Option<Escrow>)
    ensures
        r is Some <==> bytes@.len() == RECORD_LEN,
        r matches Some(e) ==> record_bytes(e) == bytes@,
{
    if bytes.len() != RECORD_LEN {
        return None;
    }
    let seed = u64_from_le_bytes(slice_subrange(bytes, 0, 8));
    let maker = read_pubkey(bytes, 8);
    let mint_a = read_pubkey(bytes, 40);
    let mint_b = read_pubkey(bytes, 72);
    let receive = u64_from_le_bytes(slice_subrange(bytes, 104, 112));
    let bump = *slice_index_get(bytes, 112);
    let e = Escrow { seed, maker, mint_a, mint_b, receive, bump };
    proof {
        lemma_auto_spec_u64_to_from_le_bytes();
        assert(record_bytes(e) =~= bytes@);
    }
    Some(e)
}

/// The layout is injective: two records with the same persisted bytes are the
/// same record, so together with the contracts of `serialize_record` and
/// `parse_record` the layout round-trips in both directions.
pub proof fn lemma_record_bytes_injective(e1: Escrow, e2: Escrow)
    requires
        record_bytes(e1) == record_bytes(e2),
    ensures
        e1 == e2,
{
    lemma_auto_spec_u64_to_from_le_bytes();
    let b1 = record_bytes(e1);
    let b2 = record_bytes(e2);
    assert(spec_u64_to_le_bytes(e1.seed) =~= spec_u64_to_le_bytes(e2.seed)) by {
        assert forall|i: int| 0 <= i < 8 implies spec_u64_to_le_bytes(e1.seed)[i]
            == spec_u64_to_le_bytes(e2.seed)[i] by {
            assert(b1[i] == b2[i]);
        }
    }
    assert(e1.seed == e2.seed) by {
        assert(vstd::bytes::spec_u64_from_le_bytes(spec_u64_to_le_bytes(e1.seed))
            == vstd::bytes::spec_u64_from_le_bytes(spec_u64_to_le_bytes(e2.seed)));
    }
    assert(e1.maker.bytes =~= e2.maker.bytes) by {
        assert forall|i: int| 0 <= i < 32 implies e1.maker@[i] == e2.maker@[i] by {
            assert(b1[8 + i] == b2[8 + i]);
        }
    }
    assert(e1.mint_a.bytes =~= e2.mint_a.bytes) by {
        assert forall|i: int| 0 <= i < 32 implies e1.mint_a@[i] == e2.mint_a@[i] by {
            assert(b1[40 + i] == b2[40 + i]);
        }
    }
    assert(e1.mint_b.bytes =~= e2.mint_b.bytes) by {
        assert forall|i: int| 0 <= i < 32 implies e1.mint_b@[i] == e2.mint_b@[i] by {
            assert(b1[72 + i] == b2[72 + i]);
        }
    }
    assert(spec_u64_to_le_bytes(e1.receive) =~= spec_u64_to_le_bytes(e2.receive)) by {
        assert forall|i: int| 0 <= i < 8 implies spec_u64_to_le_bytes(e1.receive)[i]
            == spec_u64_to_le_bytes(e2.receive)[i] by {
            assert(b1[104 + i] == b2[104 + i]);
        }
    }
    assert(e1.receive == e2.receive) by {
        assert(vstd::bytes::spec_u64_from_le_bytes(spec_u64_to_le_bytes(e1.receive))
            == vstd::bytes::spec_u64_from_le_bytes(spec_u64_to_le_bytes(e2.receive)));
    }
    assert(e1.bump == e2.bump) by {
        assert(b1[112] == b2[112]);
    }
}

} // verus!
