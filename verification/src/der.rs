//! A conservative pre-check of DER blobs before they reach the outside
//! decoders. `red_asn1` materialises every GeneralizedTime value through
//! date constructors that abort on an impossible calendar date, so the
//! library decodes only blobs in which every such value spells a real time.
//! The check walks the definite-length TLV tree; any framing it cannot
//! account for is rejected, and the decoders then treat the blob as
//! unparsable instead of handing it over.

use vstd::prelude::*;

verus! {

/// Whether `b` is an ASCII digit.
pub open spec fn is_digit(b: u8) -> bool {
    48 <= b <= 57
}

/// The number two ASCII digits at `i` spell.
pub open spec fn two_digits(c: Seq<u8>, i: int) -> int {
    (c[i] - 48) * 10 + (c[i + 1] - 48)
}

/// The number four ASCII digits at `i` spell.
pub open spec fn four_digits(c: Seq<u8>, i: int) -> int {
    two_digits(c, i) * 100 + two_digits(c, i + 2)
}

/// Whether `y` is a leap year.
pub open spec fn is_leap_year(y: int) -> bool {
    y % 4 == 0 && (y % 100 != 0 || y % 400 == 0)
}

/// Days in month `m` of year `y`.
pub open spec fn days_in_month(y: int, m: int) -> int {
    if m == 2 {
        if is_leap_year(y) {
            29
        } else {
            28
        }
    } else if m == 4 || m == 6 || m == 9 || m == 11 {
        30
    } else {
        31
    }
}

/// A GeneralizedTime content the date decoder survives: either it fails
/// fast (too short, or a non-digit where a digit belongs — both are plain
/// decode errors), or its fourteen digits spell a real calendar date and
/// time of day.
pub open spec fn gt_content_ok(c: Seq<u8>) -> bool {
    if c.len() < 15 {
        true
    } else if exists|i: int| 0 <= i < 14 && !is_digit(#[trigger] c[i]) {
        true
    } else {
        let y = four_digits(c, 0);
        let mo = two_digits(c, 4);
        let d = two_digits(c, 6);
        let h = two_digits(c, 8);
        let mi = two_digits(c, 10);
        let sec = two_digits(c, 12);
        1 <= mo <= 12 && 1 <= d <= days_in_month(y, mo) && h < 24 && mi < 60 && sec < 60
    }
}

/// Whether the bytes of `b` from `pos` to `end` are a sequence of
/// definite-length TLVs whose every primitive GeneralizedTime (universal
/// tag 0x18) satisfies `gt_content_ok`; constructed values are walked
/// recursively, other primitives are skipped.
pub open spec fn der_times_ok_from(b: Seq<u8>, pos: int, end: int) -> bool
    decreases end - pos,
{
    if pos >= end {
        pos == end
    } else if end - pos < 2 {
        false
    } else {
        let tag = b[pos];
        let l0 = b[pos + 1];
        if tag & 0x1f == 0x1f {
            false
        } else {
            let hdr: int = if l0 < 0x80 {
                2
            } else if l0 == 0x81 {
                3
            } else if l0 == 0x82 {
                4
            } else if l0 == 0x83 {
                5
            } else if l0 == 0x84 {
                6
            } else {
                0
            };
            if hdr == 0 || end - pos < hdr {
                false
            } else {
                let clen: int = if l0 < 0x80 {
                    l0 as int
                } else if l0 == 0x81 {
                    b[pos + 2] as int
                } else if l0 == 0x82 {
                    b[pos + 2] * 0x100 + b[pos + 3]
                } else if l0 == 0x83 {
                    b[pos + 2] * 0x10000 + b[pos + 3] * 0x100 + b[pos + 4]
                } else {
                    b[pos + 2] * 0x1000000 + b[pos + 3] * 0x10000 + b[pos + 4] * 0x100 + b[pos + 5]
                };
                let cstart = pos + hdr;
                let cend = cstart + clen;
                if cend > end {
                    false
                } else {
                    let content_ok = if tag & 0x20 == 0x20 {
                        der_times_ok_from(b, cstart, cend)
                    } else if tag == 0x18 {
                        gt_content_ok(b.subrange(cstart, cend))
                    } else {
                        true
                    };
                    content_ok && der_times_ok_from(b, cend, end)
                }
            }
        }
    }
}

/// Whether every GeneralizedTime in the DER blob spells a real time.
pub open spec fn der_times_ok(b: Seq<u8>) -> bool {
    der_times_ok_from(b, 0, b.len() as int)
}

/// The date/time validity of one GeneralizedTime content.
fn gt_content_ok_x(c: &[u8], from: usize, to: usize) -> (r: bool)
    requires
        from <= to <= c@.len(),
    ensures
        r == gt_content_ok(c@.subrange(from as int, to as int)),
{
    let ghost sub = c@.subrange(from as int, to as int);
    if to - from < 15 {
        return true;
    }
    let mut i: usize = 0;
    while i < 14
        invariant
            i <= 14,
            from + 14 <= to <= c@.len(),
            sub == c@.subrange(from as int, to as int),
            forall|j: int| 0 <= j < i ==> is_digit(#[trigger] sub[j]),
        decreases 14 - i,
    {
        let byte = c[from + i];
        proof {
            assert(sub[i as int] == c@[from + i]);
        }
        if byte < 48 || byte > 57 {
            return true;
        }
        i = i + 1;
    }
    proof {
        assert forall|j: int| 0 <= j < 14 implies sub[j] == c@[from + j] && is_digit(
            #[trigger] c@[from + j],
        ) by {
            assert(sub[j] == c@[from + j]);
        }
        assert(c@[from as int] == c@[from + 0]);
    }
    let y: u32 = (c[from] - 48) as u32 * 1000 + (c[from + 1] - 48) as u32 * 100 + (c[from + 2]
        - 48) as u32 * 10 + (c[from + 3] - 48) as u32;
    let mo: u32 = (c[from + 4] - 48) as u32 * 10 + (c[from + 5] - 48) as u32;
    let day: u32 = (c[from + 6] - 48) as u32 * 10 + (c[from + 7] - 48) as u32;
    let h: u32 = (c[from + 8] - 48) as u32 * 10 + (c[from + 9] - 48) as u32;
    let mi: u32 = (c[from + 10] - 48) as u32 * 10 + (c[from + 11] - 48) as u32;
    let sec: u32 = (c[from + 12] - 48) as u32 * 10 + (c[from + 13] - 48) as u32;
    let leap: bool = y % 4 == 0 && (y % 100 != 0 || y % 400 == 0);
    let dim: u32 = if mo == 2 {
        if leap {
            29
        } else {
            28
        }
    } else if mo == 4 || mo == 6 || mo == 9 || mo == 11 {
        30
    } else {
        31
    };
    1 <= mo && mo <= 12 && 1 <= day && day <= dim && h < 24 && mi < 60 && sec < 60
}

/// The TLV walk of `der_times_ok_from`, byte for byte.
pub fn der_times_ok_range(b: &[u8], pos: usize, end: usize) -> (r: bool)
    requires
        pos <= end <= b@.len(),
    ensures
        r == der_times_ok_from(b@, pos as int, end as int),
    decreases end - pos,
{
    if pos >= end {
        return true;
    }
    if end - pos < 2 {
        return false;
    }
    let tag = b[pos];
    let l0 = b[pos + 1];
    if tag & 0x1f == 0x1f {
        return false;
    }
    let hdr: usize = if l0 < 0x80 {
        2
    } else if l0 == 0x81 {
        3
    } else if l0 == 0x82 {
        4
    } else if l0 == 0x83 {
        5
    } else if l0 == 0x84 {
        6
    } else {
        0
    };
    if hdr == 0 || end - pos < hdr {
        return false;
    }
    let clen: u64 = if l0 < 0x80 {
        l0 as u64
    } else if l0 == 0x81 {
        b[pos + 2] as u64
    } else if l0 == 0x82 {
        b[pos + 2] as u64 * 0x100 + b[pos + 3] as u64
    } else if l0 == 0x83 {
        b[pos + 2] as u64 * 0x10000 + b[pos + 3] as u64 * 0x100 + b[pos + 4] as u64
    } else {
        b[pos + 2] as u64 * 0x1000000 + b[pos + 3] as u64 * 0x10000 + b[pos + 4] as u64 * 0x100 + b[
            pos + 5] as u64
    };
    let cstart: usize = pos + hdr;
    if clen > (end - cstart) as u64 {
        return false;
    }
    let cend: usize = cstart + clen as usize;
    let content_ok: bool = if tag & 0x20 == 0x20 {
        der_times_ok_range(b, cstart, cend)
    } else if tag == 0x18 {
        gt_content_ok_x(b, cstart, cend)
    } else {
        true
    };
    content_ok && der_times_ok_range(b, cend, end)
}

/// Whether every GeneralizedTime in the DER blob spells a real time; blobs
/// that fail this are treated as unparsable.
pub fn der_times_ok_check(b: &[u8]) -> (r: bool)
    ensures
        r == der_times_ok(b@),
{
    der_times_ok_range(b, 0, b.len())
}

} // verus!
