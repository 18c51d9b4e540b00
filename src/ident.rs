use vstd::prelude::*;

verus! {

/// The eight bytes of `c`, most significant first.
pub open spec fn be_bytes_u64(c: u64) -> Seq<u8> {
    seq![
        (c >> 56u64) as u8,
        (c >> 48u64) as u8,
        (c >> 40u64) as u8,
        (c >> 32u64) as u8,
        (c >> 24u64) as u8,
        (c >> 16u64) as u8,
        (c >> 8u64) as u8,
        c as u8,
    ]
}

/// What is hashed to name a new escrow: hashlock, sender, receiver, then the
/// creation counter in big-endian order.
pub open spec fn id_input(
    hashlock: Seq<u8>,
    sender: Seq<u8>,
    receiver: Seq<u8>,
    counter: u64,
) -> Seq<u8> {
    hashlock + sender + receiver + be_bytes_u64(counter)
}

pub fn be_bytes(c: u64) -> (r: Vec<u8>)
    ensures
        r@ == be_bytes_u64(c),
{
    let mut r: Vec<u8> = Vec::new();
    r.push((c >> 56u64) as u8);
    r.push((c >> 48u64) as u8);
    r.push((c >> 40u64) as u8);
    r.push((c >> 32u64) as u8);
    r.push((c >> 24u64) as u8);
    r.push((c >> 16u64) as u8);
    r.push((c >> 8u64) as u8);
    r.push(c as u8);
    assert(r@ =~= be_bytes_u64(c));
    r
}

/// Distinct counters give distinct big-endian encodings.
pub proof fn lemma_be_bytes_injective(a: u64, b: u64)
    requires
        be_bytes_u64(a) == be_bytes_u64(b),
    ensures
        a == b,
{
    let x = be_bytes_u64(a);
    let y = be_bytes_u64(b);
    assert(x[0] == y[0] && x[1] == y[1] && x[2] == y[2] && x[3] == y[3]);
    assert(x[4] == y[4] && x[5] == y[5] && x[6] == y[6] && x[7] == y[7]);
    assert(((a >> 56u64) as u8 == (b >> 56u64) as u8 && (a >> 48u64) as u8 == (b >> 48u64) as u8
        && (a >> 40u64) as u8 == (b >> 40u64) as u8 && (a >> 32u64) as u8 == (b >> 32u64) as u8
        && (a >> 24u64) as u8 == (b >> 24u64) as u8 && (a >> 16u64) as u8 == (b >> 16u64) as u8
        && (a >> 8u64) as u8 == (b >> 8u64) as u8 && a as u8 == b as u8) ==> a == b) by (bit_vector);
}

/// Escrows created with the same hashlock and parties but different counters
/// hash different bytes.
pub proof fn lemma_id_input_distinct(
    hashlock: Seq<u8>,
    sender: Seq<u8>,
    receiver: Seq<u8>,
    c1: u64,
    c2: u64,
)
    requires
        c1 != c2,
    ensures
        id_input(hashlock, sender, receiver, c1) != id_input(hashlock, sender, receiver, c2),
{
    let prefix = hashlock + sender + receiver;
    let x = id_input(hashlock, sender, receiver, c1);
    let y = id_input(hashlock, sender, receiver, c2);
    if x == y {
        assert(x.subrange(prefix.len() as int, x.len() as int) =~= be_bytes_u64(c1));
        assert(y.subrange(prefix.len() as int, y.len() as int) =~= be_bytes_u64(c2));
        lemma_be_bytes_injective(c1, c2);
    }
}

} // verus!
