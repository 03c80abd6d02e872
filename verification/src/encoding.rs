//! Encoding of diagnostic strings as field elements: the bytes are cut
//! into 31-byte chunks and each chunk is read big-endian into one field
//! element, sitting below a leading zero byte of a 32-byte word, so every
//! element stays far below the field prime.
use vstd::prelude::*;
use vstd::string::StrSliceExecFns;
use vstd::string::StringSliceAdditionalSpecFns;

use crate::felt::FieldElement;

verus! {

/// The value of a byte string read big-endian.
pub open spec fn be_bytes(s: Seq<u8>) -> nat
    decreases s.len(),
{
    if s.len() == 0 {
        0
    } else {
        (be_bytes(s.drop_last()) * 256 + s.last()) as nat
    }
}

/// 256 raised to `n`.
pub open spec fn pow256(n: nat) -> nat
    decreases n,
{
    if n == 0 {
        1
    } else {
        256 * pow256((n - 1) as nat)
    }
}

proof fn lemma_pow256_pos(n: nat)
    ensures
        pow256(n) >= 1,
    decreases n,
{
    if n > 0 {
        lemma_pow256_pos((n - 1) as nat);
    }
}

proof fn lemma_pow256_monotone(a: nat, b: nat)
    requires
        a <= b,
    ensures
        pow256(a) <= pow256(b),
    decreases b,
{
    if a < b {
        lemma_pow256_monotone(a, (b - 1) as nat);
        lemma_pow256_pos((b - 1) as nat);
    }
}

proof fn lemma_pow256_values()
    ensures
        pow256(15) == 0x1000000000000000000000000000000,
        pow256(16) == 0x100000000000000000000000000000000,
{
    assert(pow256(0) == 1);
    assert(pow256(1) == 256);
    assert(pow256(2) == 0x10000);
    assert(pow256(3) == 0x1000000);
    assert(pow256(4) == 0x100000000);
    assert(pow256(5) == 0x10000000000);
    assert(pow256(6) == 0x1000000000000);
    assert(pow256(7) == 0x100000000000000);
    assert(pow256(8) == 0x10000000000000000);
    assert(pow256(9) == 0x1000000000000000000);
    assert(pow256(10) == 0x100000000000000000000);
    assert(pow256(11) == 0x10000000000000000000000);
    assert(pow256(12) == 0x1000000000000000000000000);
    assert(pow256(13) == 0x100000000000000000000000000);
    assert(pow256(14) == 0x10000000000000000000000000000);
    assert(pow256(15) == 0x1000000000000000000000000000000);
    assert(pow256(16) == 0x100000000000000000000000000000000);
}

proof fn lemma_be_bytes_append(a: Seq<u8>, b: Seq<u8>)
    ensures
        be_bytes(a + b) == be_bytes(a) * pow256(b.len()) + be_bytes(b),
    decreases b.len(),
{
    if b.len() == 0 {
        assert(a + b =~= a);
        assert(pow256(b.len()) == 1);
        assert(be_bytes(a) * pow256(b.len()) == be_bytes(a)) by (nonlinear_arith)
            requires
                pow256(b.len()) == 1,
        ;
    } else {
        lemma_be_bytes_append(a, b.drop_last());
        assert((a + b).drop_last() =~= a + b.drop_last());
        assert((a + b).last() == b.last());
        let p1 = pow256((b.len() - 1) as nat);
        let pl = pow256(b.len());
        let x = be_bytes(a);
        let y = be_bytes(b.drop_last());
        let lb = b.last() as int;
        let ab = be_bytes(a + b);
        let abd = be_bytes(a + b.drop_last());
        assert(pl == 256 * p1);
        assert(be_bytes(b) == y * 256 + lb);
        assert(ab == abd * 256 + lb);
        assert(abd == x * p1 + y);
        assert(ab == x * pl + (y * 256 + lb) && x * pl >= 0) by (nonlinear_arith)
            requires
                pl == 256 * p1,
                ab == abd * 256 + lb,
                abd == x * p1 + y,
                x >= 0,
                pl >= 0,
        ;
    }
}

/// One 31-byte chunk of a byte string, zero-padded at its low end.
pub open spec fn padded_chunk(bytes: Seq<u8>, k: int) -> Seq<u8> {
    let end = if 31 * k + 31 <= bytes.len() {
        31 * k + 31
    } else {
        bytes.len() as int
    };
    let chunk = bytes.subrange(31 * k, end);
    chunk + Seq::new((31 - chunk.len()) as nat, |i: int| 0u8)
}

/// The field-element value of one chunk.
pub open spec fn chunk_value(bytes: Seq<u8>, k: int) -> nat {
    be_bytes(padded_chunk(bytes, k))
}

/// How many chunks a byte string of the given length encodes to.
pub open spec fn n_chunks(len: nat) -> nat {
    ((len + 30) / 31) as nat
}

fn be_accumulate(padded: &Vec<u8>, from: usize, to: usize) -> (acc: u128)
    requires
        from <= to <= padded@.len(),
        to - from <= 16,
    ensures
        acc == be_bytes(padded@.subrange(from as int, to as int)),
        acc < pow256((to - from) as nat),
{
    let mut acc: u128 = 0;
    let mut j: usize = from;
    proof {
        assert(padded@.subrange(from as int, from as int) =~= Seq::<u8>::empty());
    }
    while j < to
        invariant
            from <= j <= to <= padded@.len(),
            to - from <= 16,
            acc == be_bytes(padded@.subrange(from as int, j as int)),
            acc < pow256((j - from) as nat),
        decreases to - j,
    {
        proof {
            lemma_pow256_monotone((j - from + 1) as nat, 16);
            lemma_pow256_values();
            assert(padded@.subrange(from as int, j as int + 1).drop_last() =~= padded@.subrange(
                from as int,
                j as int,
            ));
            assert(padded@.subrange(from as int, j as int + 1).last() == padded@[j as int]);
        }
        acc = acc * 256 + (padded[j] as u128);
        j += 1;
    }
    acc
}

/// Encodes a diagnostic string as field elements, 31 bytes to an element,
/// each chunk read big-endian.
pub fn encode_str_as_felts(msg: &str) -> (r: Vec<FieldElement>)
    requires
        msg.spec_bytes().len() + 31 <= usize::MAX,
    ensures
        r@.len() == n_chunks(msg.spec_bytes().len()),
        forall|k: int|
            0 <= k < r@.len() ==> (#[trigger] r@[k]).value() == chunk_value(msg.spec_bytes(), k)
                && r@[k].wf(),
{
    let bytes: Vec<u8> = msg.as_bytes_vec();
    let n = bytes.len();
    let mut out: Vec<FieldElement> = Vec::new();
    let mut k: usize = 0;
    while 31 * k < n
        invariant
            bytes@ == msg.spec_bytes(),
            n == bytes@.len(),
            n + 31 <= usize::MAX,
            31 * k <= n + 30,
            out@.len() == k,
            forall|j: int|
                0 <= j < k ==> (#[trigger] out@[j]).value() == chunk_value(bytes@, j)
                    && out@[j].wf(),
        decreases n + 31 - 31 * k,
    {
        let start = 31 * k;
        let end = if start + 31 <= n {
            start + 31
        } else {
            n
        };
        let mut padded: Vec<u8> = Vec::new();
        let mut i: usize = start;
        proof {
            assert(bytes@.subrange(start as int, start as int) =~= Seq::<u8>::empty());
        }
        while i < end
            invariant
                start <= i <= end <= n,
                n == bytes@.len(),
                padded@ == bytes@.subrange(start as int, i as int),
            decreases end - i,
        {
            proof {
                assert(bytes@.subrange(start as int, i as int + 1) =~= bytes@.subrange(
                    start as int,
                    i as int,
                ).push(bytes@[i as int]));
            }
            padded.push(bytes[i]);
            i += 1;
        }
        let ghost chunk = bytes@.subrange(start as int, end as int);
        while padded.len() < 31
            invariant
                chunk.len() <= padded@.len() <= 31,
                padded@.subrange(0, chunk.len() as int) == chunk,
                forall|idx: int| chunk.len() <= idx < padded@.len() ==> padded@[idx] == 0u8,
            decreases 31 - padded@.len(),
        {
            proof {
                assert(padded@.push(0u8).subrange(0, chunk.len() as int) =~= padded@.subrange(
                    0,
                    chunk.len() as int,
                ));
            }
            padded.push(0u8);
        }
        proof {
            assert(padded@ =~= chunk + Seq::new((31 - chunk.len()) as nat, |i: int| 0u8));
            assert(padded@ =~= padded_chunk(bytes@, k as int));
        }
        let hi = be_accumulate(&padded, 0, 15);
        let lo = be_accumulate(&padded, 15, 31);
        proof {
            lemma_pow256_values();
            lemma_be_bytes_append(padded@.subrange(0, 15), padded@.subrange(15, 31));
            assert(padded@.subrange(0, 15) + padded@.subrange(15, 31) =~= padded@);
        }
        let fe = FieldElement { lo, hi };
        assert(fe.value() == chunk_value(bytes@, k as int));
        assert(fe.wf());
        out.push(fe);
        k += 1;
    }
    proof {
        if k == 0 {
            assert(n == 0);
        } else {
            assert(31 * (k - 1) < n);
            assert(31 * k >= n);
            assert(k == n_chunks(n as nat)) by (nonlinear_arith)
                requires
                    31 * k >= n,
                    31 * k <= n + 30,
                    k >= 1,
            ;
        }
    }
    out
}

} // verus!
