//! Unsigned variable-length integers: the length prefix of the wire format.
//!
//! A value is stored base 128, least significant group first; every byte but
//! the last has its high bit set. Only the canonical (shortest) encoding is
//! accepted when parsing: a continuation byte must be followed by a remainder
//! greater than zero.

use vstd::prelude::*;

verus! {

/// The canonical encoding of `n`: base-128 groups, least significant first,
/// the high bit marking every group but the last.
pub open spec fn varint_encoding(n: nat) -> Seq<u8>
    decreases n,
{
    if n < 128 {
        seq![n as u8]
    } else {
        seq![(128 + n % 128) as u8] + varint_encoding(n / 128)
    }
}

/// Parses a varint from the front of `bytes`: the value and the number of
/// bytes consumed, or `None` when no canonical varint starts `bytes`.
pub open spec fn parse_varint(bytes: Seq<u8>) -> Option<(nat, int)>
    decreases bytes.len(),
{
    if bytes.len() == 0 {
        None
    } else if bytes[0] < 128 {
        Some((bytes[0] as nat, 1))
    } else {
        match parse_varint(bytes.drop_first()) {
            Some((v, k)) => if v == 0 {
                None
            } else {
                Some(((bytes[0] - 128) as nat + 128 * v, k + 1))
            },
            None => None,
        }
    }
}

/// The canonical encoding is what the parser accepts: parsing it back, with
/// anything behind it, recovers the value and consumes exactly its bytes.
pub proof fn lemma_parse_of_encoding(n: nat, rest: Seq<u8>)
    ensures
        parse_varint(varint_encoding(n) + rest) == Some((n, varint_encoding(n).len() as int)),
    decreases n,
{
    let enc = varint_encoding(n);
    if n < 128 {
        assert((enc + rest)[0] == n as u8);
        assert(parse_varint(enc + rest) == Some((n, 1int)));
    } else {
        lemma_parse_of_encoding(n / 128, rest);
        assert((enc + rest).drop_first() =~= varint_encoding(n / 128) + rest);
        assert((enc + rest)[0] == (128 + n % 128) as u8);
        assert(n / 128 > 0);
        assert(((128 + n % 128) as u8 - 128) as nat + 128 * (n / 128) == n) by {
            assert(n % 128 + 128 * (n / 128) == n) by (nonlinear_arith);
        };
    }
}

/// A canonical varint earns its length: a value that took two bytes is at
/// least `128`, one that took three or more is at least `16384`, and the
/// parse never consumes more bytes than there are.
pub proof fn lemma_parse_value_bounds(bytes: Seq<u8>)
    requires
        parse_varint(bytes) is Some,
    ensures
        1 <= parse_varint(bytes)->Some_0.1 <= bytes.len(),
        parse_varint(bytes)->Some_0.1 >= 3 ==> parse_varint(bytes)->Some_0.0 >= 16384,
        parse_varint(bytes)->Some_0.1 >= 2 ==> parse_varint(bytes)->Some_0.0 >= 128,
    decreases bytes.len(),
{
    let (v, k) = parse_varint(bytes)->Some_0;
    if bytes[0] < 128 {
    } else {
        lemma_parse_value_bounds(bytes.drop_first());
        let (v2, k2) = parse_varint(bytes.drop_first())->Some_0;
        assert(v == (bytes[0] - 128) as nat + 128 * v2);
        if k2 >= 2 {
            assert(v2 >= 128);
            assert(128 * v2 >= 128 * 128) by (nonlinear_arith)
                requires
                    v2 >= 128,
            ;
        } else {
            assert(v2 >= 1);
            assert(128 * v2 >= 128) by (nonlinear_arith)
                requires
                    v2 >= 1,
            ;
        }
    }
}

/// Appends the canonical encoding of `n` to `out`.
///
/// The loop peels base-128 groups off `n`; the suffix still to be written is
/// the encoding of the remaining value.
pub fn write_varint(n: u64, out: &mut Vec<u8>)
    ensures
        final(out)@ == old(out)@ + varint_encoding(n as nat),
{
    let mut rest: u64 = n;
    let ghost prefix = out@;
    while rest >= 128
        invariant
            out@ + varint_encoding(rest as nat) =~= prefix + varint_encoding(n as nat),
        decreases rest,
    {
        let byte: u8 = 128 + (rest % 128) as u8;
        let ghost before = out@;
        out.push(byte);
        assert(varint_encoding(rest as nat) =~= seq![byte] + varint_encoding((rest / 128) as nat));
        assert(out@ + varint_encoding((rest / 128) as nat) =~= before + varint_encoding(
            rest as nat,
        ));
        rest = rest / 128;
    }
    let ghost before = out@;
    out.push(rest as u8);
    assert(varint_encoding(rest as nat) =~= seq![rest as u8]);
    assert(out@ =~= before + varint_encoding(rest as nat));
    assert(out@ =~= prefix + varint_encoding(n as nat));
}

/// Reads the varint at the front of `bytes`, refusing values above `cap`.
///
/// Returns the value and the bytes consumed, `Err(true)` when a varint is
/// there but its value exceeds `cap`, and `Err(false)` when no canonical
/// varint starts `bytes`.
pub fn read_varint(bytes: &[u8], cap: u64) -> (r: Result<(u64, usize), bool>)
    requires
        cap < 16384,
    ensures
        match r {
            Ok((v, k)) => parse_varint(bytes@) == Some((v as nat, k as int)) && v <= cap,
            Err(too_large) => {
                if too_large {
                    parse_varint(bytes@) is Some && parse_varint(bytes@)->Some_0.0 > cap
                } else {
                    parse_varint(bytes@) is None
                }
            },
        },
{
    // Find the terminating byte (high bit clear); the parse succeeds exactly
    // when one exists and, if it is not the first byte, is non-zero.
    let n: usize = bytes.len();
    let mut j: usize = 0;
    while j < n && bytes[j] >= 128
        invariant
            j <= n == bytes@.len(),
            forall|i: int| 0 <= i < j ==> bytes@[i] >= 128,
        decreases n - j,
    {
        j += 1;
    }
    proof {
        assert(bytes@.skip(0) =~= bytes@);
    }
    if j == n {
        proof {
            lemma_parse_none_without_terminator(bytes@, 0);
        }
        return Err(false);
    }
    if j > 0 && bytes[j] == 0 {
        proof {
            lemma_parse_none_zero_terminator(bytes@, 0, j as int);
        }
        return Err(false);
    }
    proof {
        lemma_parse_terminated(bytes@, 0, j as int);
        lemma_parse_value_bounds(bytes@);
    }
    if j >= 2 {
        return Err(true);
    }
    let value: u64 = if j == 0 {
        bytes[0] as u64
    } else {
        assert(parse_varint(bytes@.drop_first()) == Some((bytes@[1] as nat, 1int)));
        (bytes[0] - 128) as u64 + 128 * (bytes[1] as u64)
    };
    assert(parse_varint(bytes@) == Some((value as nat, (j + 1) as int)));
    if value > cap {
        Err(true)
    } else {
        Ok((value, j + 1))
    }
}

/// Without a byte under 128 from position `i` on, no varint parses there.
proof fn lemma_parse_none_without_terminator(bytes: Seq<u8>, i: int)
    requires
        0 <= i <= bytes.len(),
        forall|k: int| i <= k < bytes.len() ==> bytes[k] >= 128,
    ensures
        parse_varint(bytes.skip(i)) is None,
    decreases bytes.len() - i,
{
    if i < bytes.len() {
        lemma_parse_none_without_terminator(bytes, i + 1);
        assert(bytes.skip(i).drop_first() =~= bytes.skip(i + 1));
    }
}

/// A zero terminating byte after at least one continuation byte is a
/// non-canonical encoding: the parse refuses it.
proof fn lemma_parse_none_zero_terminator(bytes: Seq<u8>, i: int, j: int)
    requires
        0 <= i < j < bytes.len(),
        forall|k: int| i <= k < j ==> bytes[k] >= 128,
        bytes[j] == 0,
    ensures
        parse_varint(bytes.skip(i)) is None,
    decreases j - i,
{
    assert(bytes.skip(i).drop_first() =~= bytes.skip(i + 1));
    if i + 1 == j {
        assert(parse_varint(bytes.skip(i + 1)) == Some((0nat, 1int)));
    } else {
        lemma_parse_none_zero_terminator(bytes, i + 1, j);
    }
}

/// With continuation bytes from `i` up to a non-zero terminator at `j`, the
/// parse from `i` succeeds and consumes exactly the bytes up to `j`.
proof fn lemma_parse_terminated(bytes: Seq<u8>, i: int, j: int)
    requires
        0 <= i <= j < bytes.len(),
        forall|k: int| i <= k < j ==> bytes[k] >= 128,
        bytes[j] < 128,
        i < j ==> bytes[j] > 0,
    ensures
        parse_varint(bytes.skip(i)) is Some,
        parse_varint(bytes.skip(i))->Some_0.1 == j - i + 1,
        parse_varint(bytes.skip(i))->Some_0.0 > 0 || i == j,
        i == j ==> parse_varint(bytes.skip(i))->Some_0.0 == bytes[j] as nat,
        i + 1 == j ==> parse_varint(bytes.skip(i))->Some_0.0 == (bytes[i] - 128) as nat + 128 * (
        bytes[j] as nat),
    decreases j - i,
{
    if i == j {
        assert(bytes.skip(i)[0] == bytes[j]);
    } else {
        assert(bytes.skip(i).drop_first() =~= bytes.skip(i + 1));
        lemma_parse_terminated(bytes, i + 1, j);
        let (v2, _k2) = parse_varint(bytes.skip(i + 1))->Some_0;
        assert(128 * v2 >= 128) by (nonlinear_arith)
            requires
                v2 >= 1,
        ;
    }
}

} // verus!
