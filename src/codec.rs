use vstd::prelude::*;

verus! {

#[verifier::external_type_specification]
#[verifier::external_body]
pub struct ExEncodeError(bincode::error::EncodeError);

#[verifier::external_type_specification]
#[verifier::external_body]
pub struct ExDecodeError(bincode::error::DecodeError);

/// Why bytes could not be decoded.
#[derive(Clone, Copy, Debug, PartialEq, Eq, Structural)]
pub enum CodecError {
    /// The bytes end before the value does (or name a length this machine
    /// cannot hold).
    Truncated,
    /// An optional value starts with a byte other than `0` or `1`.
    BadTag,
}

/// `256` to the power `k`.
pub open spec fn pow256(k: nat) -> nat
    decreases k,
{
    if k == 0 {
        1
    } else {
        256 * pow256((k - 1) as nat)
    }
}

/// The `k` low bytes of `n`, least significant first.
pub open spec fn le_bytes(n: nat, k: nat) -> Seq<u8>
    decreases k,
{
    if k == 0 {
        seq![]
    } else {
        seq![(n % 256) as u8] + le_bytes(n / 256, (k - 1) as nat)
    }
}

/// The number that little-endian bytes `b` stand for.
pub open spec fn le_value(b: Seq<u8>) -> nat
    decreases b.len(),
{
    if b.len() == 0 {
        0
    } else {
        b[0] as nat + 256 * le_value(b.drop_first())
    }
}

/// The fixed-width encoding of a `u64`: eight bytes, little endian.
pub open spec fn u64_bytes(x: u64) -> Seq<u8> {
    le_bytes(x as nat, 8)
}

/// The items of a sequence of ids, one after the other.
pub open spec fn ids_body(v: Seq<u64>) -> Seq<u8>
    decreases v.len(),
{
    if v.len() == 0 {
        seq![]
    } else {
        ids_body(v.drop_last()) + u64_bytes(v.last())
    }
}

/// The encoding of a sequence of ids: its length as eight bytes, then the ids.
pub open spec fn ids_bytes(v: Seq<u64>) -> Seq<u8> {
    le_bytes(v.len(), 8) + ids_body(v)
}

/// The `u64` that the bytes start with, if there are eight of them.
pub open spec fn u64_decoded(b: Seq<u8>) -> Option<u64> {
    if b.len() >= 8 {
        Some(le_value(b.take(8)) as u64)
    } else {
        None
    }
}

/// The id at index `i` of the ids after an eight-byte length.
pub open spec fn id_at(b: Seq<u8>, i: int) -> u64 {
    le_value(b.subrange(8 + 8 * i, 16 + 8 * i)) as u64
}

/// The sequence of ids that the bytes start with, if they hold all of it.
pub open spec fn ids_decoded(b: Seq<u8>) -> Option<Seq<u64>> {
    if b.len() < 8 {
        None
    } else {
        let n = le_value(b.take(8));
        if n > usize::MAX || b.len() < 8 + 8 * n {
            None
        } else {
            Some(Seq::new(n, |i: int| id_at(b, i)))
        }
    }
}

/// The encoding of an optional leader: `0`, or `1` and the id.
pub open spec fn leader_bytes(o: Option<u64>) -> Seq<u8> {
    match o {
        None => seq![0u8],
        Some(x) => seq![1u8] + u64_bytes(x),
    }
}

/// The optional leader that the bytes start with, if they hold all of it.
pub open spec fn leader_decoded(b: Seq<u8>) -> Option<Option<u64>> {
    if b.len() == 0 {
        None
    } else if b[0] == 0 {
        Some(None)
    } else if b[0] == 1 && b.len() >= 9 {
        Some(Some(le_value(b.subrange(1, 9)) as u64))
    } else {
        None
    }
}

proof fn lemma_le_bytes_len(n: nat, k: nat)
    ensures
        le_bytes(n, k).len() == k,
    decreases k,
{
    if k > 0 {
        lemma_le_bytes_len(n / 256, (k - 1) as nat);
    }
}

proof fn lemma_le_value_of_bytes(n: nat, k: nat)
    requires
        n < pow256(k),
    ensures
        le_value(le_bytes(n, k)) == n,
    decreases k,
{
    if k > 0 {
        let rest = le_bytes(n / 256, (k - 1) as nat);
        let p = pow256((k - 1) as nat);
        assert(n / 256 < p) by (nonlinear_arith)
            requires
                n < 256 * p,
        ;
        lemma_le_value_of_bytes(n / 256, (k - 1) as nat);
        assert(le_bytes(n, k).drop_first() =~= rest);
        assert(n == n % 256 + 256 * (n / 256)) by (nonlinear_arith);
    } else {
        assert(n == 0);
    }
}

proof fn lemma_pow256_8()
    ensures
        pow256(8) == 0x1_0000_0000_0000_0000,
{
    reveal_with_fuel(pow256, 9);
}

/// Eight bytes of a `u64` read back as that `u64`.
proof fn lemma_u64_bytes(x: u64)
    ensures
        u64_bytes(x).len() == 8,
        le_value(u64_bytes(x)) == x,
{
    lemma_le_bytes_len(x as nat, 8);
    lemma_pow256_8();
    lemma_le_value_of_bytes(x as nat, 8);
}

proof fn lemma_ids_body(v: Seq<u64>)
    ensures
        ids_body(v).len() == 8 * v.len(),
        forall|i: int|
            0 <= i < v.len() ==> #[trigger] ids_body(v).subrange(8 * i, 8 * i + 8) == u64_bytes(
                v[i],
            ),
    decreases v.len(),
{
    if v.len() > 0 {
        let init = v.drop_last();
        lemma_ids_body(init);
        lemma_u64_bytes(v.last());
        let body = ids_body(v);
        assert(body == ids_body(init) + u64_bytes(v.last()));
        assert forall|i: int| 0 <= i < v.len() implies #[trigger] body.subrange(8 * i, 8 * i + 8)
            == u64_bytes(v[i]) by {
            if i < v.len() - 1 {
                assert(body.subrange(8 * i, 8 * i + 8) =~= ids_body(init).subrange(8 * i, 8 * i + 8));
                assert(init[i] == v[i]);
            } else {
                assert(body.subrange(8 * i, 8 * i + 8) =~= u64_bytes(v.last()));
            }
        }
    }
}

/// Decoding the encoding of a node id gives that id back.
pub proof fn lemma_u64_round_trip(x: u64)
    ensures
        u64_decoded(u64_bytes(x)) == Some(x),
{
    lemma_u64_bytes(x);
    assert(u64_bytes(x).take(8) =~= u64_bytes(x));
}

/// Decoding the encoding of a sequence of ids gives that sequence back.
pub proof fn lemma_ids_round_trip(v: Seq<u64>)
    requires
        v.len() <= usize::MAX,
    ensures
        ids_decoded(ids_bytes(v)) == Some(v),
{
    let b = ids_bytes(v);
    let head = le_bytes(v.len(), 8);
    lemma_le_bytes_len(v.len(), 8);
    lemma_pow256_8();
    lemma_le_value_of_bytes(v.len(), 8);
    lemma_ids_body(v);
    assert(b.take(8) =~= head);
    assert forall|i: int| 0 <= i < v.len() implies #[trigger] id_at(b, i) == v[i] by {
        assert(b.subrange(8 + 8 * i, 16 + 8 * i) =~= ids_body(v).subrange(8 * i, 8 * i + 8));
        lemma_u64_bytes(v[i]);
    }
    assert(Seq::new(v.len(), |i: int| id_at(b, i)) =~= v);
}

/// Decoding the encoding of an optional leader gives it back.
pub proof fn lemma_leader_round_trip(o: Option<u64>)
    ensures
        leader_decoded(leader_bytes(o)) == Some(o),
{
    if let Some(x) = o {
        lemma_u64_bytes(x);
        assert(leader_bytes(o).subrange(1, 9) =~= u64_bytes(x));
    }
}

/// The encoding is a function of the value alone: equal values give equal
/// bytes, on every call.
pub proof fn lemma_encoding_stable(
    x: u64,
    y: u64,
    v: Seq<u64>,
    w: Seq<u64>,
    o: Option<u64>,
    p: Option<u64>,
)
    requires
        x == y,
        v == w,
        o == p,
    ensures
        u64_bytes(x) == u64_bytes(y),
        ids_bytes(v) == ids_bytes(w),
        leader_bytes(o) == leader_bytes(p),
{
}

/// Relies on bincode::serde::encode_to_vec with the legacy configuration:
/// fixed-width little-endian integers, written to a growing vector, which
/// cannot fail.
#[verifier::external_body]
fn encode_u64(x: u64) -> (r: Result<Vec<u8>, bincode::error::EncodeError>)
    ensures
        r is Ok,
        r is Ok ==> r->Ok_0@ == u64_bytes(x),
{
    bincode::serde::encode_to_vec(x, bincode::config::legacy())
}

/// Relies on bincode::serde::decode_from_slice with the legacy configuration:
/// a `u64` is read from the first eight bytes, little endian, and the rest is
/// left unread.
#[verifier::external_body]
fn decode_u64(b: &[u8]) -> (r: Result<u64, bincode::error::DecodeError>)
    ensures
        r is Ok <==> u64_decoded(b@) is Some,
        r is Ok ==> u64_decoded(b@) == Some(r->Ok_0),
{
    bincode::serde::decode_from_slice::<u64, _>(b, bincode::config::legacy()).map(|p| p.0)
}

/// Relies on bincode::serde::encode_to_vec with the legacy configuration: a
/// sequence is its length as a fixed-width `u64`, then its items, written to
/// a growing vector, which cannot fail.
#[verifier::external_body]
fn encode_ids(v: &Vec<u64>) -> (r: Result<Vec<u8>, bincode::error::EncodeError>)
    ensures
        r is Ok,
        r is Ok ==> r->Ok_0@ == ids_bytes(v@),
{
    bincode::serde::encode_to_vec(v, bincode::config::legacy())
}

/// Relies on bincode::serde::decode_from_slice with the legacy configuration:
/// an eight-byte length that must fit a `usize`, then that many eight-byte
/// items; it fails when the bytes run out, and leaves the rest unread.
#[verifier::external_body]
fn decode_ids(b: &[u8]) -> (r: Result<Vec<u64>, bincode::error::DecodeError>)
    ensures
        r is Ok <==> ids_decoded(b@) is Some,
        r is Ok ==> ids_decoded(b@) == Some(r->Ok_0@),
{
    bincode::serde::decode_from_slice::<Vec<u64>, _>(b, bincode::config::legacy()).map(|p| p.0)
}

/// Relies on bincode::serde::encode_to_vec with the legacy configuration:
/// `None` is the byte `0`, `Some(x)` the byte `1` then `x` in eight bytes,
/// written to a growing vector, which cannot fail.
#[verifier::external_body]
fn encode_leader(o: Option<u64>) -> (r: Result<Vec<u8>, bincode::error::EncodeError>)
    ensures
        r is Ok,
        r is Ok ==> r->Ok_0@ == leader_bytes(o),
{
    bincode::serde::encode_to_vec(o, bincode::config::legacy())
}

/// Relies on bincode::serde::decode_from_slice with the legacy configuration:
/// a tag byte, `0` for `None` and `1` for `Some` followed by eight bytes; any
/// other tag, or too few bytes, fails, and the rest is left unread.
#[verifier::external_body]
fn decode_leader(b: &[u8]) -> (r: Result<Option<u64>, bincode::error::DecodeError>)
    ensures
        r is Ok <==> leader_decoded(b@) is Some,
        r is Ok ==> leader_decoded(b@) == Some(r->Ok_0),
{
    bincode::serde::decode_from_slice::<Option<u64>, _>(b, bincode::config::legacy()).map(|p| p.0)
}

/// Encodes a node id as eight little-endian bytes.
pub fn serialize_u64(x: u64) -> (r: Vec<u8>)
    ensures
        r@ == u64_bytes(x),
{
    match encode_u64(x) {
        Ok(b) => b,
        Err(_) => Vec::new(),
    }
}

/// Decodes a node id from the first eight bytes.
pub fn deserialize_u64(b: &[u8]) -> (r: Result<u64, CodecError>)
    ensures
        r is Ok <==> b@.len() >= 8,
        r is Ok ==> u64_decoded(b@) == Some(r->Ok_0),
        r is Err ==> r->Err_0 == CodecError::Truncated,
{
    match decode_u64(b) {
        Ok(x) => Ok(x),
        Err(_) => Err(CodecError::Truncated),
    }
}

/// Encodes a set of node ids (a membership) in the order given.
pub fn serialize_ids(v: &Vec<u64>) -> (r: Vec<u8>)
    ensures
        r@ == ids_bytes(v@),
{
    match encode_ids(v) {
        Ok(b) => b,
        Err(_) => Vec::new(),
    }
}

/// Decodes a sequence of node ids from the start of the bytes.
pub fn deserialize_ids(b: &[u8]) -> (r: Result<Vec<u64>, CodecError>)
    ensures
        r is Ok <==> ids_decoded(b@) is Some,
        r is Ok ==> ids_decoded(b@) == Some(r->Ok_0@),
        r is Err ==> r->Err_0 == CodecError::Truncated,
{
    match decode_ids(b) {
        Ok(v) => Ok(v),
        Err(_) => Err(CodecError::Truncated),
    }
}

/// Encodes the leader a node has observed, if any.
pub fn serialize_leader(o: Option<u64>) -> (r: Vec<u8>)
    ensures
        r@ == leader_bytes(o),
{
    match encode_leader(o) {
        Ok(b) => b,
        Err(_) => Vec::new(),
    }
}

/// Decodes an optional leader from the start of the bytes.
pub fn deserialize_leader(b: &[u8]) -> (r: Result<Option<u64>, CodecError>)
    ensures
        r is Ok <==> leader_decoded(b@) is Some,
        r is Ok ==> leader_decoded(b@) == Some(r->Ok_0),
        r is Err ==> r->Err_0 == (if b@.len() > 0 && b@[0] > 1 {
            CodecError::BadTag
        } else {
            CodecError::Truncated
        }),
{
    match decode_leader(b) {
        Ok(o) => Ok(o),
        Err(_) => {
            if b.len() > 0 && b[0] > 1 {
                Err(CodecError::BadTag)
            } else {
                Err(CodecError::Truncated)
            }
        },
    }
}

} // verus!
