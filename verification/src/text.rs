//! Character-level helpers shared by the whole library: ASCII case folding
//! (Kerberos realms compare case-insensitively), splitting, joining and hex
//! formatting.

use vstd::prelude::*;

verus! {

use vstd::std_specs::iter::IteratorSpec;

/// ASCII lower-casing of one character; other characters are untouched.
pub open spec fn lower_char(c: char) -> char {
    if 65 <= c as u32 && c as u32 <= 90 {
        ((c as u32 + 32) as u32) as char
    } else {
        c
    }
}

/// ASCII lower-casing of a character sequence.
pub open spec fn lower_chars(s: Seq<char>) -> Seq<char> {
    s.map_values(|c: char| lower_char(c))
}

/// Case-insensitive equality, the comparison the library uses for realms.
pub open spec fn eq_fold(a: Seq<char>, b: Seq<char>) -> bool {
    lower_chars(a) == lower_chars(b)
}

/// ASCII upper-casing of one character.
pub open spec fn upper_char(c: char) -> char {
    if 97 <= c as u32 && c as u32 <= 122 {
        ((c as u32 - 32) as u32) as char
    } else {
        c
    }
}

/// ASCII upper-casing of a character sequence.
pub open spec fn upper_chars(s: Seq<char>) -> Seq<char> {
    s.map_values(|c: char| upper_char(c))
}

/// Folding is insensitive to a prior upper- or lower-casing, which is what
/// makes realm filters indifferent to the case of their argument.
pub proof fn lemma_fold_of_upper(s: Seq<char>)
    ensures
        lower_chars(upper_chars(s)) == lower_chars(s),
        lower_chars(lower_chars(s)) == lower_chars(s),
{
    assert(lower_chars(upper_chars(s)) =~= lower_chars(s)) by {
        assert forall|i: int| 0 <= i < s.len() implies lower_char(upper_char(s[i]))
            == lower_char(s[i]) by {
            lemma_char_fold(s[i]);
        }
    }
    assert(lower_chars(lower_chars(s)) =~= lower_chars(s)) by {
        assert forall|i: int| 0 <= i < s.len() implies lower_char(lower_char(s[i]))
            == lower_char(s[i]) by {
            lemma_char_fold(s[i]);
        }
    }
}

/// Folding one character is idempotent and insensitive to upper-casing.
pub proof fn lemma_char_fold(c: char)
    ensures
        lower_char(upper_char(c)) == lower_char(c),
        lower_char(lower_char(c)) == lower_char(c),
{
    let u = c as u32;
    if 97 <= u && u <= 122 {
        let w = upper_char(c);
        assert(w as u32 == u - 32);
        assert(lower_char(w) as u32 == u);
        vstd::utf8::char_u32_cast(c, u);
    } else if 65 <= u && u <= 90 {
        let w = lower_char(c);
        assert(w as u32 == u + 32);
        assert(lower_char(w) == w);
        assert(upper_char(c) == c);
    } else {
        assert(upper_char(c) == c);
        assert(lower_char(c) == c);
    }
}

/// The characters of a string slice, in order.
pub fn chars_of(s: &str) -> (r: Vec<char>)
    ensures
        r@ == s@,
{
    broadcast use vstd::string::axiom_spec_iter, vstd::string::next_postcondition;

    let mut it = s.chars();
    let mut out: Vec<char> = Vec::new();
    let ghost all = s@;
    loop
        invariant_except_break
            it.obeys_prophetic_iter_laws(),
            out@ + it.remaining() == all,
        ensures
            out@ == all,
        decreases all.len() - out@.len(),
    {
        match it.next() {
            Some(c) => {
                out.push(c);
            },
            None => {
                proof {
                    assert(out@ =~= all);
                }
                break;
            },
        }
    }
    out
}

/// Relies on `String::push`: appends exactly one character to the string.
#[verifier::external_body]
pub fn push_char(s: &mut String, c: char)
    ensures
        final(s)@ == old(s)@.push(c),
{
    s.push(c);
}

/// A string made of the given characters, in order.
pub fn string_of_chars(cs: &Vec<char>) -> (r: String)
    ensures
        r@ == cs@,
{
    let mut out = String::new();
    let mut i: usize = 0;
    while i < cs.len()
        invariant
            i <= cs.len(),
            out@ == cs@.take(i as int),
        decreases cs.len() - i,
    {
        push_char(&mut out, cs[i]);
        proof {
            assert(cs@.take(i + 1 as int) =~= cs@.take(i as int).push(cs@[i as int]));
        }
        i = i + 1;
    }
    proof {
        assert(cs@.take(cs@.len() as int) =~= cs@);
    }
    out
}

/// ASCII lower-casing of one character.
pub fn lower_char_x(c: char) -> (r: char)
    ensures
        r == lower_char(c),
{
    let u = c as u32;
    if 65 <= u && u <= 90 {
        let r: char = ((u + 32) as u8) as char;
        proof {
            vstd::utf8::char_u32_cast(r, (u + 32) as u32);
            vstd::utf8::char_u32_cast(lower_char(c), (u + 32) as u32);
        }
        r
    } else {
        c
    }
}

/// ASCII lower-casing of a whole string.
pub fn to_fold_lower(s: &str) -> (r: String)
    ensures
        r@ == lower_chars(s@),
{
    let cs = chars_of(s);
    let mut out: Vec<char> = Vec::new();
    let mut i: usize = 0;
    while i < cs.len()
        invariant
            i <= cs.len(),
            cs@ == s@,
            out@ == lower_chars(s@.take(i as int)),
        decreases cs.len() - i,
    {
        out.push(lower_char_x(cs[i]));
        proof {
            assert(lower_chars(s@.take(i + 1 as int)) =~= lower_chars(
                s@.take(i as int),
            ).push(lower_char(s@[i as int])));
        }
        i = i + 1;
    }
    proof {
        assert(s@.take(s@.len() as int) =~= s@);
    }
    string_of_chars(&out)
}

/// ASCII upper-casing of a whole string.
pub fn to_fold_upper(s: &str) -> (r: String)
    ensures
        r@ == upper_chars(s@),
{
    let cs = chars_of(s);
    let mut out: Vec<char> = Vec::new();
    let mut i: usize = 0;
    while i < cs.len()
        invariant
            i <= cs.len(),
            cs@ == s@,
            out@ == upper_chars(s@.take(i as int)),
        decreases cs.len() - i,
    {
        let c = cs[i];
        let u = c as u32;
        let up: char = if 97 <= u && u <= 122 {
            let w: char = ((u - 32) as u8) as char;
            proof {
                vstd::utf8::char_u32_cast(w, (u - 32) as u32);
                vstd::utf8::char_u32_cast(upper_char(c), (u - 32) as u32);
            }
            w
        } else {
            c
        };
        out.push(up);
        proof {
            assert(upper_chars(s@.take(i + 1 as int)) =~= upper_chars(
                s@.take(i as int),
            ).push(upper_char(s@[i as int])));
        }
        i = i + 1;
    }
    proof {
        assert(s@.take(s@.len() as int) =~= s@);
    }
    string_of_chars(&out)
}

/// Case-insensitive string equality (ASCII folding).
pub fn eq_ignore_case(a: &str, b: &str) -> (r: bool)
    ensures
        r == eq_fold(a@, b@),
{
    let la = to_fold_lower(a);
    let lb = to_fold_lower(b);
    la == lb
}

/// Whether `s` ends with `suffix`.
pub fn str_ends_with(s: &str, suffix: &str) -> (r: bool)
    ensures
        r == (s@.len() >= suffix@.len() && s@.skip(s@.len() - suffix@.len()) == suffix@),
{
    let cs = chars_of(s);
    let ss = chars_of(suffix);
    let n = cs.len();
    let m = ss.len();
    if n < m {
        return false;
    }
    let off = n - m;
    let mut i: usize = 0;
    while i < m
        invariant
            cs@ == s@,
            ss@ == suffix@,
            n == cs@.len(),
            m == ss@.len(),
            m <= n,
            off == cs@.len() - ss@.len(),
            i <= m,
            forall|j: int| 0 <= j < i ==> cs@[off + j] == ss@[j],
        decreases m - i,
    {
        if cs[off + i] != ss[i] {
            proof {
                assert(s@.skip(s@.len() - suffix@.len())[i as int] == cs@[off + i]);
            }
            return false;
        }
        i = i + 1;
    }
    proof {
        assert(s@.skip(s@.len() - suffix@.len()) =~= suffix@);
    }
    true
}

/// Position of the first character of `s` that occurs in `seps`,
/// or -1 when none does.
pub open spec fn find_ch(s: Seq<char>, seps: Seq<char>) -> int
    decreases s.len(),
{
    if s.len() == 0 {
        -1
    } else if seps.contains(s[0]) {
        0
    } else {
        let r = find_ch(s.drop_first(), seps);
        if r < 0 {
            -1
        } else {
            r + 1
        }
    }
}

/// What `find_ch` returns: the first separator position, if any.
pub proof fn lemma_find_ch(s: Seq<char>, seps: Seq<char>)
    ensures
        find_ch(s, seps) == -1 ==> forall|j: int| 0 <= j < s.len() ==> !seps.contains(s[j]),
        find_ch(s, seps) != -1 ==> {
            let i = find_ch(s, seps);
            &&& 0 <= i < s.len()
            &&& seps.contains(s[i])
            &&& forall|j: int| 0 <= j < i ==> !seps.contains(s[j])
        },
        forall|j: int|
            0 <= j < s.len() && seps.contains(#[trigger] s[j]) ==> find_ch(s, seps) != -1
                && find_ch(s, seps) <= j,
    decreases s.len(),
{
    if s.len() == 0 {
    } else if seps.contains(s[0]) {
    } else {
        lemma_find_ch(s.drop_first(), seps);
        assert forall|j: int| 0 <= j < s.len() && j >= 1 implies s[j] == s.drop_first()[j - 1] by {}
    }
}

/// Exact string equality, with the result stated over the views.
pub fn str_eq(a: &str, b: &str) -> (r: bool)
    ensures
        r == (a@ == b@),
{
    let sa: String = a.to_owned();
    let sb: String = b.to_owned();
    sa == sb
}

/// The pieces of `s` between characters of `seps`: splitting never drops
/// characters and an N-separator string yields N + 1 pieces.
pub open spec fn split_on(s: Seq<char>, seps: Seq<char>) -> Seq<Seq<char>>
    decreases s.len(),
{
    let i = find_ch(s, seps);
    if 0 <= i < s.len() {
        seq![s.take(i)] + split_on(s.skip(i + 1), seps)
    } else {
        seq![s]
    }
}

/// A split always yields at least one piece.
pub proof fn lemma_split_on_nonempty(s: Seq<char>, seps: Seq<char>)
    ensures
        split_on(s, seps).len() >= 1,
    decreases s.len(),
{
    let i = find_ch(s, seps);
    if 0 <= i < s.len() {
        lemma_split_on_nonempty(s.skip(i + 1), seps);
    }
}

/// The characters of `cs` between positions `a` and `b`.
pub fn chars_range(cs: &Vec<char>, a: usize, b: usize) -> (r: Vec<char>)
    requires
        a <= b <= cs@.len(),
    ensures
        r@ == cs@.subrange(a as int, b as int),
{
    let mut out: Vec<char> = Vec::new();
    let mut i: usize = a;
    while i < b
        invariant
            a <= i <= b <= cs@.len(),
            out@ == cs@.subrange(a as int, i as int),
        decreases b - i,
    {
        out.push(cs[i]);
        proof {
            assert(cs@.subrange(a as int, i + 1 as int) =~= cs@.subrange(a as int, i as int).push(
                cs@[i as int],
            ));
        }
        i = i + 1;
    }
    out
}

/// Whether `c` occurs in `seps`.
pub fn is_sep(c: char, seps: &Vec<char>) -> (r: bool)
    ensures
        r == seps@.contains(c),
{
    let mut i: usize = 0;
    while i < seps.len()
        invariant
            i <= seps@.len(),
            forall|j: int| 0 <= j < i ==> seps@[j] != c,
        decreases seps@.len() - i,
    {
        if seps[i] == c {
            return true;
        }
        i = i + 1;
    }
    false
}

/// Position of the first separator at or after `start`, if any.
pub fn find_sep(cs: &Vec<char>, start: usize, seps: &Vec<char>) -> (r: Option<usize>)
    requires
        start <= cs@.len(),
    ensures
        match r {
            Some(i) => start <= i < cs@.len() && i - start == find_ch(cs@.skip(start as int), seps@),
            None => find_ch(cs@.skip(start as int), seps@) == -1,
        },
{
    let ghost tail = cs@.skip(start as int);
    let mut i: usize = start;
    while i < cs.len()
        invariant
            start <= i <= cs@.len(),
            tail == cs@.skip(start as int),
            forall|j: int| 0 <= j < i - start ==> !seps@.contains(tail[j]),
        decreases cs@.len() - i,
    {
        if is_sep(cs[i], seps) {
            proof {
                lemma_find_ch(tail, seps@);
                assert(tail[i - start] == cs@[i as int]);
            }
            return Some(i);
        }
        proof {
            assert(tail[i - start] == cs@[i as int]);
        }
        i = i + 1;
    }
    proof {
        lemma_find_ch(tail, seps@);
    }
    None
}

/// Splits `s` on the characters of `seps`; adjacent separators and
/// separators at either end yield empty pieces, as `str::split` does.
pub fn split_text(s: &str, seps: &Vec<char>) -> (r: Vec<String>)
    ensures
        r.deep_view() == split_on(s@, seps@),
{
    let cs = chars_of(s);
    let mut pieces: Vec<String> = Vec::new();
    let mut start: usize = 0;
    proof {
        assert(cs@.skip(0) =~= cs@);
        assert(pieces.deep_view() + split_on(cs@.skip(0), seps@) =~~= split_on(s@, seps@));
    }
    loop
        invariant_except_break
            start <= cs@.len(),
            cs@ == s@,
            pieces.deep_view() + split_on(cs@.skip(start as int), seps@) == split_on(s@, seps@),
        ensures
            pieces.deep_view() == split_on(s@, seps@),
        decreases cs@.len() - start,
    {
        let ghost tail = cs@.skip(start as int);
        match find_sep(&cs, start, seps) {
            Some(i) => {
                let n = cs.len();
                proof {
                    assert(start <= i < n);
                }
                let piece = string_of_chars(&chars_range(&cs, start, i));
                let ghost prev = pieces.deep_view();
                pieces.push(piece);
                proof {
                    let gi = i - start;
                    assert(tail.take(gi) =~= cs@.subrange(start as int, i as int));
                    assert(tail.skip(gi + 1) =~= cs@.skip(i + 1 as int));
                    assert(split_on(tail, seps@) == seq![tail.take(gi)] + split_on(
                        tail.skip(gi + 1),
                        seps@,
                    ));
                    assert(pieces.deep_view() =~~= prev.push(piece@));
                    assert(prev.push(piece@) + split_on(cs@.skip(i + 1 as int), seps@) =~~= prev
                        + split_on(tail, seps@));
                }
                start = i + 1;
            },
            None => {
                let piece = string_of_chars(&chars_range(&cs, start, cs.len()));
                let ghost prev = pieces.deep_view();
                pieces.push(piece);
                proof {
                    assert(tail =~= cs@.subrange(start as int, cs@.len() as int));
                    assert(split_on(tail, seps@) == seq![tail]);
                    assert(pieces.deep_view() =~~= prev.push(piece@));
                    assert(prev.push(piece@) =~~= prev + seq![tail]);
                }
                break;
            },
        }
    }
    pieces
}

/// Hex digit characters of one nibble.
pub open spec fn hex_digit(d: u8) -> char
    recommends
        d < 16,
{
    if d < 10 {
        ((d + 48) as u32) as char
    } else {
        ((d + 87) as u32) as char
    }
}

/// Lower-case hexadecimal rendering of a byte sequence, two digits per byte.
pub open spec fn hex_chars(s: Seq<u8>) -> Seq<char>
    decreases s.len(),
{
    if s.len() == 0 {
        Seq::empty()
    } else {
        seq![hex_digit(s[0] / 16), hex_digit(s[0] % 16)] + hex_chars(s.drop_first())
    }
}

/// A hex rendering spells two digits per byte.
pub proof fn lemma_hex_chars_len(s: Seq<u8>)
    ensures
        hex_chars(s).len() == 2 * s.len(),
    decreases s.len(),
{
    if s.len() > 0 {
        lemma_hex_chars_len(s.drop_first());
    }
}

/// Appends the two hex digits of one byte.
fn push_hex_byte(out: &mut Vec<char>, b: u8)
    ensures
        final(out)@ == old(out)@ + seq![hex_digit(b / 16), hex_digit(b % 16)],
{
    let hi = b / 16;
    let lo = b % 16;
    let c1: char = if hi < 10 {
        (hi + 48) as char
    } else {
        (hi + 87) as char
    };
    let c2: char = if lo < 10 {
        (lo + 48) as char
    } else {
        (lo + 87) as char
    };
    proof {
        vstd::utf8::char_u32_cast(c1, (b / 16 + if b / 16 < 10 {
            48int
        } else {
            87int
        }) as u32);
        vstd::utf8::char_u32_cast(c2, (b % 16 + if b % 16 < 10 {
            48int
        } else {
            87int
        }) as u32);
        vstd::utf8::char_u32_cast(hex_digit(b / 16), (b / 16 + if b / 16 < 10 {
            48int
        } else {
            87int
        }) as u32);
        vstd::utf8::char_u32_cast(hex_digit(b % 16), (b % 16 + if b % 16 < 10 {
            48int
        } else {
            87int
        }) as u32);
    }
    out.push(c1);
    out.push(c2);
}

/// Lower-case hexadecimal rendering of `v`, two digits per byte.
pub fn hex_string(v: &[u8]) -> (r: String)
    ensures
        r@ == hex_chars(v@),
{
    let mut out: Vec<char> = Vec::new();
    let mut i: usize = 0;
    while i < v.len()
        invariant
            i <= v@.len(),
            out@ == hex_chars(v@.take(i as int)),
        decreases v@.len() - i,
    {
        push_hex_byte(&mut out, v[i]);
        proof {
            lemma_hex_chars_snoc(v@, i as int);
        }
        i = i + 1;
    }
    proof {
        assert(v@.take(v@.len() as int) =~= v@);
    }
    string_of_chars(&out)
}

/// The decimal digit character of `d`.
pub open spec fn dec_digit(d: int) -> char
    recommends
        0 <= d < 10,
{
    ((d + 48) as u32) as char
}

/// The decimal rendering of a non-negative number, most significant digit
/// first.
pub open spec fn dec_chars(n: int) -> Seq<char>
    decreases n,
{
    if n < 10 {
        seq![dec_digit(if n < 0 {
            0
        } else {
            n
        })]
    } else {
        dec_chars(n / 10).push(dec_digit(n % 10))
    }
}

/// Appends the decimal digits of `n`.
fn push_dec(out: &mut Vec<char>, n: u32)
    ensures
        final(out)@ == old(out)@ + dec_chars(n as int),
    decreases n,
{
    if n >= 10 {
        push_dec(out, n / 10);
    }
    let d: u8 = (n % 10) as u8 + 48;
    let c: char = d as char;
    proof {
        vstd::utf8::char_u32_cast(c, d as u32);
        vstd::utf8::char_u32_cast(dec_digit(n as int % 10), d as u32);
    }
    out.push(c);
    proof {
        if n < 10 {
            assert(old(out)@ + dec_chars(n as int) =~= old(out)@.push(c));
        } else {
            assert(old(out)@ + dec_chars(n as int) =~= (old(out)@ + dec_chars(n as int / 10)).push(
                c,
            ));
        }
    }
}

/// The decimal rendering of `n`.
pub fn dec_string(n: u32) -> (r: String)
    ensures
        r@ == dec_chars(n as int),
{
    let mut v: Vec<char> = Vec::new();
    push_dec(&mut v, n);
    proof {
        assert(v@ =~= dec_chars(n as int));
    }
    string_of_chars(&v)
}

/// Lower-case hexadecimal rendering of a subrange of `v`.
pub fn hex_string_range(v: &Vec<u8>, a: usize, b: usize) -> (r: String)
    requires
        a <= b <= v@.len(),
    ensures
        r@ == hex_chars(v@.subrange(a as int, b as int)),
{
    let ghost goal = v@.subrange(a as int, b as int);
    let mut out: Vec<char> = Vec::new();
    let mut i: usize = a;
    while i < b
        invariant
            a <= i <= b <= v@.len(),
            goal == v@.subrange(a as int, b as int),
            out@ == hex_chars(goal.take(i - a)),
        decreases b - i,
    {
        push_hex_byte(&mut out, v[i]);
        proof {
            lemma_hex_chars_snoc(goal, i - a);
            assert(goal[i - a] == v@[i as int]);
        }
        i = i + 1;
    }
    proof {
        assert(goal.take(goal.len() as int) =~= goal);
    }
    string_of_chars(&out)
}

/// Extending the input of `hex_chars` by one byte appends its two digits.
proof fn lemma_hex_chars_snoc(s: Seq<u8>, i: int)
    requires
        0 <= i < s.len(),
    ensures
        hex_chars(s.take(i + 1)) == hex_chars(s.take(i)) + seq![
            hex_digit(s[i] / 16),
            hex_digit(s[i] % 16),
        ],
    decreases i,
{
    if i == 0 {
        assert(s.take(1) =~= seq![s[0]]);
        assert(s.take(1).drop_first() =~= Seq::<u8>::empty());
        assert(s.take(0) =~= Seq::<u8>::empty());
        assert(hex_chars(s.take(1)) =~= hex_chars(s.take(0)) + seq![
            hex_digit(s[0] / 16),
            hex_digit(s[0] % 16),
        ]);
    } else {
        lemma_hex_chars_snoc(s.drop_first(), i - 1);
        assert(s.take(i + 1).drop_first() =~= s.drop_first().take(i));
        assert(s.take(i).drop_first() =~= s.drop_first().take(i - 1));
        assert(hex_chars(s.take(i + 1)) =~= hex_chars(s.take(i)) + seq![
            hex_digit(s[i] / 16),
            hex_digit(s[i] % 16),
        ]);
    }
}

} // verus!
