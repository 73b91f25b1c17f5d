//! What the command line says: numbers, addresses and sizes, read from text.

use vstd::prelude::*;
use vstd::string::StringSliceAdditionalSpecFns;

verus! {

/// The value of a digit, of either case.
pub open spec fn digit(b: u8, radix: int) -> Option<int> {
    let v = if 0x30 <= b <= 0x39 {
        b - 0x30
    } else if 0x61 <= b <= 0x7A {
        b - 0x61 + 10
    } else if 0x41 <= b <= 0x5A {
        b - 0x41 + 10
    } else {
        radix
    };
    if v < radix { Some(v) } else { None }
}

/// The value of a string of digits, the empty one being zero.
pub open spec fn digits(s: Seq<u8>, radix: int) -> Option<int>
    decreases s.len(),
{
    if s.len() == 0 {
        Some(0int)
    } else {
        match (digits(s.drop_last(), radix), digit(s.last(), radix)) {
            (Some(v), Some(d)) => Some(v * radix + d),
            _ => None,
        }
    }
}

/// The unsigned number a text stands for: at least one digit, perhaps after a
/// plus sign, and no more than `max`.
pub open spec fn number(s: Seq<u8>, radix: int, max: int) -> Option<int> {
    let t = if s.len() > 0 && s[0] == 0x2B { s.skip(1) } else { s };
    if t.len() == 0 {
        None
    } else {
        match digits(t, radix) {
            Some(v) if v <= max => Some(v),
            _ => None,
        }
    }
}

/// The place of the first byte `b` at or after `from`, or the length.
pub open spec fn find(s: Seq<u8>, b: u8, from: int) -> int
    decreases s.len() - from,
{
    if from >= s.len() {
        s.len() as int
    } else if s[from] == b {
        from
    } else {
        find(s, b, from + 1)
    }
}

/// A `segment:offset` address in hexadecimal.
pub open spec fn address(s: Seq<u8>) -> Option<(u16, u16)> {
    let colon = find(s, 0x3A, 0);
    if colon >= s.len() {
        None
    } else {
        match (
            number(s.take(colon), 16, 0xFFFF),
            number(s.skip(colon + 1), 16, 0xFFFF),
        ) {
            (Some(seg), Some(off)) => Some((seg as u16, off as u16)),
            _ => None,
        }
    }
}

/// The bytes a size suffix multiplies by, in mebibytes without one.
pub open spec fn unit(b: u8) -> Option<int> {
    if b == 0x4B {
        Some(0x400int)
    } else if b == 0x4D {
        Some(0x10_0000int)
    } else if b == 0x47 {
        Some(0x4000_0000int)
    } else {
        None
    }
}

/// A memory size: a decimal number of K, M or G, a bare number being MiB.
pub open spec fn size(s: Seq<u8>) -> Option<u64> {
    let suffix = if s.len() > 0 { unit(s.last()) } else { None };
    let (text, scale) = match suffix {
        Some(k) => (s.drop_last(), k),
        None => (s, 0x10_0000int),
    };
    match number(text, 10, u64::MAX as int) {
        Some(n) if n * scale <= u64::MAX => Some((n * scale) as u64),
        _ => None,
    }
}

/// What a prefix says of the whole: a bad digit spoils it, and more digits
/// never make it smaller.
proof fn lemma_prefix(s: Seq<u8>, k: int, radix: int)
    requires
        0 <= k <= s.len(),
        radix >= 1,
    ensures
        match digits(s.take(k), radix) {
            None => digits(s, radix) is None,
            Some(v) => v >= 0 && match digits(s, radix) {
                None => true,
                Some(x) => x >= v,
            },
        },
    decreases s.len(),
{
    if k == s.len() {
        assert(s.take(k) =~= s);
        lemma_nonnegative(s, radix);
    } else {
        lemma_prefix(s.drop_last(), k, radix);
        assert(s.drop_last().take(k) =~= s.take(k));
        match (digits(s.drop_last(), radix), digit(s.last(), radix)) {
            (Some(v), Some(d)) => {
                lemma_nonnegative(s.drop_last(), radix);
                assert(v * radix >= v) by (nonlinear_arith)
                    requires
                        v >= 0,
                        radix >= 1,
                ;
            },
            _ => {},
        }
    }
}

proof fn lemma_nonnegative(s: Seq<u8>, radix: int)
    requires
        radix >= 1,
    ensures
        match digits(s, radix) {
            Some(v) => v >= 0,
            None => true,
        },
    decreases s.len(),
{
    if s.len() > 0 {
        lemma_nonnegative(s.drop_last(), radix);
        match digits(s.drop_last(), radix) {
            Some(v) => {
                assert(v * radix >= 0) by (nonlinear_arith)
                    requires
                        v >= 0,
                        radix >= 1,
                ;
            },
            None => {},
        }
    }
}

fn digit_value(b: u8, radix: u64) -> (r: Option<u64>)
    requires
        2 <= radix <= 36,
    ensures
        match r {
            Some(d) => digit(b, radix as int) == Some(d as int) && d < radix,
            None => digit(b, radix as int) is None,
        },
{
    let v: u64 = if b >= 0x30 && b <= 0x39 {
        (b - 0x30) as u64
    } else if b >= 0x61 && b <= 0x7A {
        (b - 0x61) as u64 + 10
    } else if b >= 0x41 && b <= 0x5A {
        (b - 0x41) as u64 + 10
    } else {
        radix
    };
    if v < radix {
        Some(v)
    } else {
        None
    }
}

/// Read the unsigned number in `s[from..to]`.
pub fn parse_number(s: &[u8], from: usize, to: usize, radix: u64, max: u64) -> (r: Option<u64>)
    requires
        from <= to <= s@.len(),
        2 <= radix <= 36,
    ensures
        match r {
            Some(v) => number(s@.subrange(from as int, to as int), radix as int, max as int)
                == Some(v as int),
            None => number(s@.subrange(from as int, to as int), radix as int, max as int) is None,
        },
{
    let ghost text = s@.subrange(from as int, to as int);
    let start: usize = if from < to && s[from] == 0x2B {
        from + 1
    } else {
        from
    };
    let ghost t = if text.len() > 0 && text[0] == 0x2B { text.skip(1) } else { text };
    assert(t =~= s@.subrange(start as int, to as int));
    if start == to {
        return None;
    }
    let mut v: u64 = 0;
    let mut i: usize = start;
    while i < to
        invariant
            start <= i <= to,
            to <= s@.len(),
            2 <= radix <= 36,
            t == s@.subrange(start as int, to as int),
            t.len() > 0,
            t == (if text.len() > 0 && text[0] == 0x2B { text.skip(1) } else { text }),
            text == s@.subrange(from as int, to as int),
            v <= max,
            digits(t.take(i - start), radix as int) == Some(v as int),
        decreases to - i,
    {
        proof {
            let next = t.take(i - start + 1);
            assert(next.drop_last() =~= t.take(i - start));
            assert(next.last() == s@[i as int]);
            lemma_prefix(t, i - start + 1, radix as int);
        }
        match digit_value(s[i], radix) {
            None => {
                return None;
            },
            Some(d) => {
                assert(0 <= v * radix <= u64::MAX * 36) by (nonlinear_arith)
                    requires
                        0 <= v <= u64::MAX,
                        0 <= radix <= 36,
                ;
                let wide: u128 = (v as u128) * (radix as u128) + (d as u128);
                if wide > max as u128 {
                    return None;
                }
                v = wide as u64;
            },
        }
        i = i + 1;
    }
    assert(t.take(to - start) =~= t);
    Some(v)
}

/// Find a byte.
fn find_byte(s: &[u8], b: u8, from: usize) -> (r: usize)
    requires
        from <= s@.len(),
    ensures
        r == find(s@, b, from as int),
        from <= r <= s@.len(),
{
    let mut i: usize = from;
    while i < s.len()
        invariant
            from <= i <= s@.len(),
            find(s@, b, i as int) == find(s@, b, from as int),
        decreases s@.len() - i,
    {
        if s[i] == b {
            return i;
        }
        i = i + 1;
    }
    i
}

/// Read a `segment:offset` address, both in hexadecimal.
pub fn parse_addr(s: &str) -> (r: Option<(u16, u16)>)
    ensures
        r == address(s.spec_bytes()),
{
    let b: &[u8] = s.as_bytes();
    let colon: usize = find_byte(b, 0x3A, 0);
    if colon == b.len() {
        return None;
    }
    assert(b@.subrange(0, colon as int) =~= b@.take(colon as int));
    assert(b@.subrange(colon + 1, b@.len() as int) =~= b@.skip(colon + 1));
    match (
        parse_number(b, 0, colon, 16, 0xFFFF),
        parse_number(b, colon + 1, b.len(), 16, 0xFFFF),
    ) {
        (Some(seg), Some(off)) => Some((seg as u16, off as u16)),
        _ => None,
    }
}

/// Read a memory size: a decimal number with an optional K, M or G suffix; a
/// bare number is MiB.
pub fn parse_size(s: &str) -> (r: Option<u64>)
    ensures
        r == size(s.spec_bytes()),
{
    let b: &[u8] = s.as_bytes();
    let n: usize = b.len();
    let (end, scale): (usize, u64) = if n > 0 && b[n - 1] == 0x4B {
        (n - 1, 0x400)
    } else if n > 0 && b[n - 1] == 0x4D {
        (n - 1, 0x10_0000)
    } else if n > 0 && b[n - 1] == 0x47 {
        (n - 1, 0x4000_0000)
    } else {
        (n, 0x10_0000)
    };
    assert(b@.subrange(0, n as int) =~= b@);
    assert(n > 0 ==> b@.subrange(0, n - 1) =~= b@.drop_last());
    match parse_number(b, 0, end, 10, u64::MAX) {
        Some(v) => {
            let wide: u128 = (v as u128) * (scale as u128);
            if wide <= u64::MAX as u128 {
                Some(wide as u64)
            } else {
                None
            }
        },
        None => None,
    }
}

} // verus!
