//! Reading the memory regions of a process from the lines of its memory map
//! (as Linux lists them in `/proc/<pid>/maps`): `start-end perms ...`, with
//! `start` and `end` in hexadecimal, so that the helper can search the
//! readable regions of the PICO-8 process for the magic sequence.

use vstd::prelude::*;

verus! {

/// A region of a process's address space.
#[derive(Clone, Copy, Debug, PartialEq, Eq, Structural)]
pub struct MemoryRegion {
    pub start: usize,
    pub end: usize,
    pub readable: bool,
}

impl MemoryRegion {
    /// Whether the helper searches this region: it is readable and not empty.
    pub fn is_searchable(&self) -> (r: bool)
        ensures
            r == (self.readable && self.start < self.end),
    {
        self.readable && self.start < self.end
    }
}

/// The value of the hexadecimal digit `c`, or -1 when `c` is none.
pub open spec fn hex_digit(c: u8) -> int {
    if 48 <= c <= 57 {
        c - 48
    } else if 97 <= c <= 102 {
        c - 87
    } else if 65 <= c <= 70 {
        c - 55
    } else {
        -1
    }
}

/// Number of hexadecimal digits that `s` starts with.
pub open spec fn hex_prefix_len(s: Seq<u8>) -> nat
    decreases s.len(),
{
    if s.len() == 0 || hex_digit(s[0]) < 0 {
        0
    } else {
        1 + hex_prefix_len(s.drop_first())
    }
}

/// The value of the hexadecimal digits `s`, most significant first.
pub open spec fn hex_value(s: Seq<u8>) -> int
    decreases s.len(),
{
    if s.len() == 0 {
        0
    } else {
        hex_value(s.drop_last()) * 16 + hex_digit(s.last())
    }
}

/// The region that a line of a memory map describes: one or more hex digits
/// (the start), `-`, one or more hex digits (the end), a space and the
/// permissions, the first of which is `r` for a readable region. `None`
/// when the line has another shape or an address does not fit in `usize`.
pub open spec fn spec_parse_region(line: Seq<u8>) -> Option<MemoryRegion> {
    let i = hex_prefix_len(line) as int;
    let rest = line.skip(i + 1);
    let j = hex_prefix_len(rest) as int;
    if i > 0 && i < line.len() && line[i] == 45 && j > 0 && j + 1 < rest.len() && rest[j] == 32
        && hex_value(line.take(i)) <= usize::MAX && hex_value(rest.take(j)) <= usize::MAX {
        Some(
            MemoryRegion {
                start: hex_value(line.take(i)) as usize,
                end: hex_value(rest.take(j)) as usize,
                readable: rest[j + 1] == 114,
            },
        )
    } else {
        None
    }
}

/// The value of the hexadecimal digit `c`, if it is one.
fn hex_digit_value(c: u8) -> (r: Option<u8>)
    ensures
        r matches Some(d) ==> d == hex_digit(c),
        r is None <==> hex_digit(c) < 0,
{
    if 48 <= c && c <= 57 {
        Some(c - 48)
    } else if 97 <= c && c <= 102 {
        Some(c - 87)
    } else if 65 <= c && c <= 70 {
        Some(c - 55)
    } else {
        None
    }
}

proof fn lemma_hex_prefix(s: Seq<u8>, k: int)
    requires
        0 <= k <= hex_prefix_len(s),
    ensures
        hex_prefix_len(s) <= s.len(),
        forall|m: int| 0 <= m < k ==> hex_digit(#[trigger] s[m]) >= 0,
        k < s.len() && hex_digit(s[k]) < 0 ==> hex_prefix_len(s) == k,
        k < s.len() && k == hex_prefix_len(s) ==> hex_digit(s[k]) < 0,
    decreases s.len(),
{
    if s.len() > 0 && hex_digit(s[0]) >= 0 {
        if k > 0 {
            lemma_hex_prefix(s.drop_first(), k - 1);
            if k < s.len() {
                assert(s[k] == s.drop_first()[k - 1]);
            }
            assert forall|m: int| 0 <= m < k implies hex_digit(#[trigger] s[m]) >= 0 by {
                if m > 0 {
                    assert(s[m] == s.drop_first()[m - 1]);
                }
            }
        } else {
            lemma_hex_prefix(s.drop_first(), 0);
        }
    }
}

proof fn lemma_hex_value_grows(s: Seq<u8>, k: int)
    requires
        0 <= k <= s.len(),
        forall|m: int| 0 <= m < s.len() ==> hex_digit(#[trigger] s[m]) >= 0,
    ensures
        hex_value(s.take(k)) <= hex_value(s),
        hex_value(s) >= 0,
    decreases s.len() - k,
{
    if k < s.len() {
        lemma_hex_value_grows(s, k + 1);
        assert(s.take(k + 1).drop_last() =~= s.take(k));
        assert(s.take(k + 1).last() == s[k]);
        lemma_hex_value_nonneg(s.take(k));
    } else {
        assert(s.take(k) =~= s);
        lemma_hex_value_nonneg(s);
    }
}

proof fn lemma_hex_value_nonneg(s: Seq<u8>)
    requires
        forall|m: int| 0 <= m < s.len() ==> hex_digit(#[trigger] s[m]) >= 0,
    ensures
        hex_value(s) >= 0,
    decreases s.len(),
{
    if s.len() > 0 {
        let p = s.drop_last();
        assert forall|m: int| 0 <= m < p.len() implies hex_digit(#[trigger] p[m]) >= 0 by {
            assert(p[m] == s[m]);
        }
        lemma_hex_value_nonneg(p);
        assert(hex_digit(s[s.len() - 1]) >= 0);
    }
}

/// Reads the hexadecimal number that starts at `from` in `line` and ends
/// before the first byte that is not a hex digit: its value and the index
/// of that byte. `None` when the value does not fit in `usize`.
fn parse_hex(line: &[u8], from: usize) -> (r: Option<(usize, usize)>)
    requires
        from <= line@.len(),
    ensures
        ({
            let rest = line@.skip(from as int);
            let n = hex_prefix_len(rest) as int;
            match r {
                Some((v, end)) => end == from + n && v == hex_value(rest.take(n)),
                None => hex_value(rest.take(n)) > usize::MAX,
            }
        }),
{
    let ghost rest = line@.skip(from as int);
    let len = line.len();
    let mut i = from;
    let mut v: usize = 0;
    proof {
        lemma_hex_prefix(rest, 0);
    }
    while i < len
        invariant
            from <= i <= len,
            len == line@.len(),
            rest == line@.skip(from as int),
            i - from <= hex_prefix_len(rest),
            hex_prefix_len(rest) <= rest.len(),
            v == hex_value(rest.take(i - from)),
        ensures
            from <= i <= len,
            i - from == hex_prefix_len(rest),
            v == hex_value(rest.take(i - from)),
        decreases len - i,
    {
        let ghost k = i - from;
        proof {
            lemma_hex_prefix(rest, k);
        }
        assert(rest[k] == line@[i as int]);
        match hex_digit_value(line[i]) {
            None => {
                break;
            },
            Some(d) => {
                proof {
                    lemma_hex_prefix(rest, k);
                    assert(hex_prefix_len(rest) > k) by {
                        if hex_prefix_len(rest) == k {
                            lemma_hex_prefix(rest, k);
                        }
                    }
                    assert(rest.take(k + 1).drop_last() =~= rest.take(k));
                    assert(rest.take(k + 1).last() == rest[k]);
                }
                if v > (usize::MAX - d as usize) / 16 {
                    proof {
                        let n = hex_prefix_len(rest) as int;
                        lemma_hex_prefix(rest, n);
                        let digits = rest.take(n);
                        assert forall|m: int| 0 <= m < digits.len() implies hex_digit(#[trigger] digits[m]) >= 0 by {
                            assert(digits[m] == rest[m]);
                        }
                        lemma_hex_value_grows(digits, k + 1);
                        assert(digits.take(k + 1) =~= rest.take(k + 1));
                        assert(v * 16 + d > usize::MAX) by (nonlinear_arith)
                            requires
                                v > (usize::MAX - d) / 16,
                                d <= 15,
                        ;
                    }
                    return None;
                }
                assert(v * 16 + d <= usize::MAX) by (nonlinear_arith)
                    requires
                        v <= (usize::MAX - d) / 16,
                        d <= 15,
                ;
                v = v * 16 + d as usize;
                i = i + 1;
            },
        }
    }
    Some((v, i))
}

/// Reads the region that a line of a memory map describes.
pub fn parse_region(line: &[u8]) -> (r: Option<MemoryRegion>)
    ensures
        r == spec_parse_region(line@),
{
    let n = line.len();
    let ghost i0 = hex_prefix_len(line@) as int;
    assert(line@.skip(0) =~= line@);
    let (start, i) = match parse_hex(line, 0) {
        Some(p) => p,
        None => {
            return None;
        },
    };
    if i == 0 || i >= n || line[i] != 45 {
        return None;
    }
    let ghost rest = line@.skip(i + 1);
    let (end, j) = match parse_hex(line, i + 1) {
        Some(p) => p,
        None => {
            return None;
        },
    };
    assert(rest.skip(0) =~= rest);
    if j == i + 1 || j >= n - 1 || line[j] != 32 {
        assert(j >= i + 1 && j < n ==> rest[j - i - 1] == line@[j as int]);
        return None;
    }
    assert(rest[j - i - 1] == line@[j as int]);
    assert(rest[j - i] == line@[j + 1]);
    Some(MemoryRegion { start, end, readable: line[j + 1] == 114 })
}

} // verus!
