//! Character-level building blocks of the wire format: value escaping,
//! hexadecimal byte encoding, and first-occurrence search, each with its
//! inverse and a proof that decoding undoes encoding.

use vstd::prelude::*;

verus! {

// ------------------------------------------------------------------
// Escaping: keeps a value on one line. A backslash becomes `\\` and a
// line break becomes `\n`; every other character stands for itself.
// ------------------------------------------------------------------

/// The escape sequence of one character.
pub open spec fn esc_char(c: char) -> Seq<char> {
    if c == '\\' {
        seq!['\\', '\\']
    } else if c == '\n' {
        seq!['\\', 'n']
    } else {
        seq![c]
    }
}

/// The escaped form of a text.
pub open spec fn esc(s: Seq<char>) -> Seq<char>
    decreases s.len(),
{
    if s.len() == 0 {
        Seq::<char>::empty()
    } else {
        esc_char(s[0]) + esc(s.skip(1))
    }
}

/// The inverse of `esc`: `None` on a dangling or unknown escape.
pub open spec fn unesc(s: Seq<char>) -> Option<Seq<char>>
    decreases s.len(),
{
    if s.len() == 0 {
        Some(Seq::<char>::empty())
    } else if s[0] == '\\' {
        if s.len() < 2 {
            None
        } else {
            let first = if s[1] == '\\' {
                Some('\\')
            } else if s[1] == 'n' {
                Some('\n')
            } else {
                None
            };
            match first {
                None => None,
                Some(c) => match unesc(s.skip(2)) {
                    None => None,
                    Some(rest) => Some(seq![c] + rest),
                },
            }
        }
    } else {
        match unesc(s.skip(1)) {
            None => None,
            Some(rest) => Some(seq![s[0]] + rest),
        }
    }
}

/// Escaping distributes over concatenation.
pub proof fn lemma_esc_append(a: Seq<char>, b: Seq<char>)
    ensures
        esc(a + b) == esc(a) + esc(b),
    decreases a.len(),
{
    if a.len() == 0 {
        assert(a + b =~= b);
        assert(esc(a) + esc(b) =~= esc(b));
    } else {
        assert((a + b).skip(1) =~= a.skip(1) + b);
        lemma_esc_append(a.skip(1), b);
        assert((a + b).len() != 0);
        assert((a + b)[0] == a[0]);
        assert(esc(a + b) == esc_char(a[0]) + (esc(a.skip(1)) + esc(b)));
        assert(esc_char(a[0]) + (esc(a.skip(1)) + esc(b)) =~= (esc_char(a[0]) + esc(a.skip(1))) + esc(b));
    }
}

/// An escaped text never contains a line break.
pub proof fn lemma_esc_no_newline(s: Seq<char>)
    ensures
        forall|i: int| 0 <= i < esc(s).len() ==> esc(s)[i] != '\n',
    decreases s.len(),
{
    if s.len() == 0 {
    } else {
        lemma_esc_no_newline(s.skip(1));
        assert forall|i: int| 0 <= i < esc(s).len() implies esc(s)[i] != '\n' by {
            if i < esc_char(s[0]).len() {
                assert(esc(s)[i] == esc_char(s[0])[i]);
            } else {
                assert(esc(s)[i] == esc(s.skip(1))[i - esc_char(s[0]).len()]);
            }
        }
    }
}

/// The escaped form of a single character is its escape sequence.
pub proof fn lemma_esc_single(c: char)
    ensures
        esc(seq![c]) == esc_char(c),
{
    let s = seq![c];
    assert(s.skip(1) =~= Seq::<char>::empty());
    assert(esc(Seq::<char>::empty()) == Seq::<char>::empty());
    assert(esc(s) == esc_char(c) + esc(s.skip(1)));
    assert(esc_char(c) + Seq::<char>::empty() =~= esc_char(c));
}

/// Unescaping undoes escaping.
pub proof fn lemma_unesc_esc(s: Seq<char>)
    ensures
        unesc(esc(s)) == Some(s),
    decreases s.len(),
{
    if s.len() == 0 {
    } else {
        lemma_unesc_esc(s.skip(1));
        let e = esc(s);
        if s[0] == '\\' {
            assert(e =~= seq!['\\', '\\'] + esc(s.skip(1)));
            assert(e.skip(2) =~= esc(s.skip(1)));
            assert(seq!['\\'] + s.skip(1) =~= s);
        } else if s[0] == '\n' {
            assert(e =~= seq!['\\', 'n'] + esc(s.skip(1)));
            assert(e.skip(2) =~= esc(s.skip(1)));
            assert(seq!['\n'] + s.skip(1) =~= s);
        } else {
            assert(e =~= seq![s[0]] + esc(s.skip(1)));
            assert(e[0] == s[0]);
            assert(e.skip(1) =~= esc(s.skip(1)));
            assert(seq![s[0]] + s.skip(1) =~= s);
        }
    }
}

/// Escapes a text so that it fits on one line of the wire format.
pub fn escape_chars(s: &Vec<char>) -> (r: Vec<char>)
    ensures
        r@ == esc(s@),
{
    let mut r: Vec<char> = Vec::new();
    let mut i: usize = 0;
    proof {
        assert(s@.take(0) =~= Seq::<char>::empty());
        assert(esc(Seq::<char>::empty()) == Seq::<char>::empty());
    }
    while i < s.len()
        invariant
            i <= s.len(),
            r@ == esc(s@.take(i as int)),
        decreases s.len() - i,
    {
        let c = s[i];
        if c == '\\' {
            r.push('\\');
            r.push('\\');
        } else if c == '\n' {
            r.push('\\');
            r.push('n');
        } else {
            r.push(c);
        }
        proof {
            assert(s@.take(i as int + 1) =~= s@.take(i as int) + seq![s@[i as int]]);
            lemma_esc_append(s@.take(i as int), seq![s@[i as int]]);
            lemma_esc_single(s@[i as int]);
        }
        i += 1;
    }
    proof {
        assert(s@.take(s@.len() as int) =~= s@);
    }
    r
}

/// Removes the escaping of one line value; `None` on a malformed escape.
pub fn unescape_chars(s: &Vec<char>) -> (r: Option<Vec<char>>)
    ensures
        match r {
            Some(v) => unesc(s@) == Some(v@),
            None => unesc(s@) is None,
        },
{
    let mut out: Vec<char> = Vec::new();
    let mut i: usize = 0;
    proof {
        assert(s@.skip(0) =~= s@);
        match unesc(s@) {
            Some(rest) => {
                assert(out@ + rest =~= rest);
            },
            None => {},
        }
    }
    while i < s.len()
        invariant
            i <= s.len(),
            unesc(s@) == (match unesc(s@.skip(i as int)) {
                Some(rest) => Some(out@ + rest),
                None => None::<Seq<char>>,
            }),
        decreases s.len() - i,
    {
        let ghost suffix = s@.skip(i as int);
        let ghost pre = out@;
        let c = s[i];
        if c == '\\' {
            if i + 1 == s.len() {
                proof {
                    assert(suffix.len() == 1);
                    assert(suffix[0] == '\\');
                    assert(unesc(suffix) is None);
                }
                return None;
            }
            let c2 = s[i + 1];
            proof {
                assert(suffix.len() >= 2);
                assert(suffix[0] == '\\');
                assert(suffix[1] == c2);
                assert(suffix.skip(2) =~= s@.skip(i as int + 2));
            }
            if c2 == '\\' {
                out.push('\\');
                proof {
                    assert(unesc(suffix) == (match unesc(s@.skip(i as int + 2)) {
                        Some(rest) => Some(seq!['\\'] + rest),
                        None => None::<Seq<char>>,
                    }));
                    match unesc(s@.skip(i as int + 2)) {
                        Some(rest) => {
                            assert(pre + (seq!['\\'] + rest) =~= out@ + rest);
                        },
                        None => {},
                    }
                }
                i += 2;
            } else if c2 == 'n' {
                out.push('\n');
                proof {
                    assert(unesc(suffix) == (match unesc(s@.skip(i as int + 2)) {
                        Some(rest) => Some(seq!['\n'] + rest),
                        None => None::<Seq<char>>,
                    }));
                    match unesc(s@.skip(i as int + 2)) {
                        Some(rest) => {
                            assert(pre + (seq!['\n'] + rest) =~= out@ + rest);
                        },
                        None => {},
                    }
                }
                i += 2;
            } else {
                proof {
                    assert(unesc(suffix) is None);
                }
                return None;
            }
        } else {
            out.push(c);
            proof {
                assert(suffix[0] == c);
                assert(suffix.skip(1) =~= s@.skip(i as int + 1));
                assert(unesc(suffix) == (match unesc(s@.skip(i as int + 1)) {
                    Some(rest) => Some(seq![c] + rest),
                    None => None::<Seq<char>>,
                }));
                match unesc(s@.skip(i as int + 1)) {
                    Some(rest) => {
                        assert(pre + (seq![c] + rest) =~= out@ + rest);
                    },
                    None => {},
                }
            }
            i += 1;
        }
    }
    proof {
        assert(s@.skip(s@.len() as int) =~= Seq::<char>::empty());
        assert(out@ + Seq::<char>::empty() =~= out@);
    }
    Some(out)
}

// ------------------------------------------------------------------
// Hexadecimal byte encoding: two lowercase digits per byte.
// ------------------------------------------------------------------

/// The lowercase hexadecimal digit of a value below sixteen.
pub open spec fn hex_digit_char(n: u8) -> char {
    if n == 0 { '0' } else if n == 1 { '1' } else if n == 2 { '2' } else if n == 3 { '3' }
    else if n == 4 { '4' } else if n == 5 { '5' } else if n == 6 { '6' } else if n == 7 { '7' }
    else if n == 8 { '8' } else if n == 9 { '9' } else if n == 10 { 'a' } else if n == 11 { 'b' }
    else if n == 12 { 'c' } else if n == 13 { 'd' } else if n == 14 { 'e' } else { 'f' }
}

/// The value of a lowercase hexadecimal digit.
pub open spec fn hex_val(c: char) -> Option<u8> {
    if c == '0' { Some(0u8) } else if c == '1' { Some(1u8) } else if c == '2' { Some(2u8) }
    else if c == '3' { Some(3u8) } else if c == '4' { Some(4u8) } else if c == '5' { Some(5u8) }
    else if c == '6' { Some(6u8) } else if c == '7' { Some(7u8) } else if c == '8' { Some(8u8) }
    else if c == '9' { Some(9u8) } else if c == 'a' { Some(10u8) } else if c == 'b' { Some(11u8) }
    else if c == 'c' { Some(12u8) } else if c == 'd' { Some(13u8) } else if c == 'e' { Some(14u8) }
    else if c == 'f' { Some(15u8) } else { None }
}

/// The hexadecimal text of a byte string.
pub open spec fn hex_of_bytes(s: Seq<u8>) -> Seq<char>
    decreases s.len(),
{
    if s.len() == 0 {
        Seq::<char>::empty()
    } else {
        seq![hex_digit_char(s[0] / 16), hex_digit_char(s[0] % 16)] + hex_of_bytes(s.skip(1))
    }
}

/// The inverse of `hex_of_bytes`: `None` on an odd length or a stray
/// character.
pub open spec fn bytes_of_hex(s: Seq<char>) -> Option<Seq<u8>>
    decreases s.len(),
{
    if s.len() == 0 {
        Some(Seq::<u8>::empty())
    } else if s.len() == 1 {
        None
    } else {
        match (hex_val(s[0]), hex_val(s[1])) {
            (Some(hi), Some(lo)) => match bytes_of_hex(s.skip(2)) {
                Some(rest) => Some(seq![(hi * 16 + lo) as u8] + rest),
                None => None,
            },
            _ => None,
        }
    }
}

/// Hexadecimal encoding distributes over concatenation.
pub proof fn lemma_hex_append(a: Seq<u8>, b: Seq<u8>)
    ensures
        hex_of_bytes(a + b) == hex_of_bytes(a) + hex_of_bytes(b),
    decreases a.len(),
{
    if a.len() == 0 {
        assert(a + b =~= b);
        assert(hex_of_bytes(a) + hex_of_bytes(b) =~= hex_of_bytes(b));
    } else {
        assert((a + b).skip(1) =~= a.skip(1) + b);
        lemma_hex_append(a.skip(1), b);
        assert((a + b)[0] == a[0]);
        let pair = seq![hex_digit_char(a[0] / 16), hex_digit_char(a[0] % 16)];
        assert(hex_of_bytes(a + b) == pair + (hex_of_bytes(a.skip(1)) + hex_of_bytes(b)));
        assert(pair + (hex_of_bytes(a.skip(1)) + hex_of_bytes(b)) =~= (pair + hex_of_bytes(a.skip(1)))
            + hex_of_bytes(b));
    }
}

/// Hexadecimal text contains neither a line break nor a field separator.
pub proof fn lemma_hex_plain(s: Seq<u8>)
    ensures
        forall|i: int| 0 <= i < hex_of_bytes(s).len() ==> hex_of_bytes(s)[i] != '\n',
        forall|i: int| 0 <= i < hex_of_bytes(s).len() ==> hex_of_bytes(s)[i] != ',',
    decreases s.len(),
{
    if s.len() == 0 {
    } else {
        lemma_hex_plain(s.skip(1));
        let pair = seq![hex_digit_char(s[0] / 16), hex_digit_char(s[0] % 16)];
        assert forall|i: int| 0 <= i < hex_of_bytes(s).len() implies hex_of_bytes(s)[i] != '\n'
            && hex_of_bytes(s)[i] != ',' by {
            if i < 2 {
                assert(hex_of_bytes(s)[i] == pair[i]);
            } else {
                assert(hex_of_bytes(s)[i] == hex_of_bytes(s.skip(1))[i - 2]);
            }
        }
    }
}

/// The hexadecimal text of a single byte is its digit pair.
pub proof fn lemma_hex_single(b: u8)
    ensures
        hex_of_bytes(seq![b]) == seq![hex_digit_char(b / 16), hex_digit_char(b % 16)],
{
    let s = seq![b];
    assert(s.skip(1) =~= Seq::<u8>::empty());
    assert(hex_of_bytes(Seq::<u8>::empty()) == Seq::<char>::empty());
    assert(hex_of_bytes(s) == seq![hex_digit_char(b / 16), hex_digit_char(b % 16)] + hex_of_bytes(
        s.skip(1)));
    assert(seq![hex_digit_char(b / 16), hex_digit_char(b % 16)] + Seq::<char>::empty() =~= seq![
        hex_digit_char(b / 16),
        hex_digit_char(b % 16),
    ]);
}

/// Hexadecimal decoding undoes encoding.
pub proof fn lemma_bytes_hex_round_trip(s: Seq<u8>)
    ensures
        bytes_of_hex(hex_of_bytes(s)) == Some(s),
    decreases s.len(),
{
    if s.len() == 0 {
    } else {
        lemma_bytes_hex_round_trip(s.skip(1));
        let h = hex_of_bytes(s);
        let hi = s[0] / 16;
        let lo = s[0] % 16;
        assert(hi < 16 && lo < 16);
        assert(h[0] == hex_digit_char(hi) && h[1] == hex_digit_char(lo));
        assert(hex_val(hex_digit_char(hi)) == Some(hi));
        assert(hex_val(hex_digit_char(lo)) == Some(lo));
        assert(hi * 16 + lo == s[0]);
        assert(h.skip(2) =~= hex_of_bytes(s.skip(1)));
        assert(seq![s[0]] + s.skip(1) =~= s);
    }
}

/// The lowercase hexadecimal digit of a value below sixteen.
pub fn hex_digit(n: u8) -> (c: char)
    requires
        n < 16,
    ensures
        c == hex_digit_char(n),
{
    if n == 0 { '0' } else if n == 1 { '1' } else if n == 2 { '2' } else if n == 3 { '3' }
    else if n == 4 { '4' } else if n == 5 { '5' } else if n == 6 { '6' } else if n == 7 { '7' }
    else if n == 8 { '8' } else if n == 9 { '9' } else if n == 10 { 'a' } else if n == 11 { 'b' }
    else if n == 12 { 'c' } else if n == 13 { 'd' } else if n == 14 { 'e' } else { 'f' }
}

/// The value of a lowercase hexadecimal digit.
pub fn hex_value(c: char) -> (r: Option<u8>)
    ensures
        r == hex_val(c),
{
    if c == '0' { Some(0u8) } else if c == '1' { Some(1u8) } else if c == '2' { Some(2u8) }
    else if c == '3' { Some(3u8) } else if c == '4' { Some(4u8) } else if c == '5' { Some(5u8) }
    else if c == '6' { Some(6u8) } else if c == '7' { Some(7u8) } else if c == '8' { Some(8u8) }
    else if c == '9' { Some(9u8) } else if c == 'a' { Some(10u8) } else if c == 'b' { Some(11u8) }
    else if c == 'c' { Some(12u8) } else if c == 'd' { Some(13u8) } else if c == 'e' { Some(14u8) }
    else if c == 'f' { Some(15u8) } else { None }
}

/// Encodes a byte string as lowercase hexadecimal text.
pub fn bytes_to_hex_chars(v: &Vec<u8>) -> (r: Vec<char>)
    ensures
        r@ == hex_of_bytes(v@),
{
    let mut r: Vec<char> = Vec::new();
    let mut i: usize = 0;
    proof {
        assert(v@.take(0) =~= Seq::<u8>::empty());
        assert(hex_of_bytes(Seq::<u8>::empty()) == Seq::<char>::empty());
    }
    while i < v.len()
        invariant
            i <= v.len(),
            r@ == hex_of_bytes(v@.take(i as int)),
        decreases v.len() - i,
    {
        let b = v[i];
        r.push(hex_digit(b / 16));
        r.push(hex_digit(b % 16));
        proof {
            assert(v@.take(i as int + 1) =~= v@.take(i as int) + seq![v@[i as int]]);
            lemma_hex_append(v@.take(i as int), seq![v@[i as int]]);
            lemma_hex_single(v@[i as int]);
        }
        i += 1;
    }
    proof {
        assert(v@.take(v@.len() as int) =~= v@);
    }
    r
}

/// Decodes lowercase hexadecimal text back into bytes.
pub fn hex_chars_to_bytes(s: &Vec<char>) -> (r: Option<Vec<u8>>)
    ensures
        match r {
            Some(v) => bytes_of_hex(s@) == Some(v@),
            None => bytes_of_hex(s@) is None,
        },
{
    let mut out: Vec<u8> = Vec::new();
    let mut i: usize = 0;
    proof {
        assert(s@.skip(0) =~= s@);
        match bytes_of_hex(s@) {
            Some(rest) => {
                assert(out@ + rest =~= rest);
            },
            None => {},
        }
    }
    while i < s.len()
        invariant
            i <= s.len(),
            bytes_of_hex(s@) == (match bytes_of_hex(s@.skip(i as int)) {
                Some(rest) => Some(out@ + rest),
                None => None::<Seq<u8>>,
            }),
        decreases s.len() - i,
    {
        let ghost suffix = s@.skip(i as int);
        let ghost pre = out@;
        if i + 1 == s.len() {
            proof {
                assert(suffix.len() == 1);
                assert(bytes_of_hex(suffix) is None);
            }
            return None;
        }
        proof {
            assert(suffix.len() >= 2);
            assert(suffix[0] == s@[i as int]);
            assert(suffix[1] == s@[i as int + 1]);
            assert(suffix.skip(2) =~= s@.skip(i as int + 2));
        }
        let hi = match hex_value(s[i]) {
            Some(d) => d,
            None => {
                proof {
                    assert(bytes_of_hex(suffix) is None);
                }
                return None;
            },
        };
        let lo = match hex_value(s[i + 1]) {
            Some(d) => d,
            None => {
                proof {
                    assert(bytes_of_hex(suffix) is None);
                }
                return None;
            },
        };
        let b = hi * 16 + lo;
        out.push(b);
        proof {
            assert(bytes_of_hex(suffix) == (match bytes_of_hex(s@.skip(i as int + 2)) {
                Some(rest) => Some(seq![b] + rest),
                None => None::<Seq<u8>>,
            }));
            match bytes_of_hex(s@.skip(i as int + 2)) {
                Some(rest) => {
                    assert(pre + (seq![b] + rest) =~= out@ + rest);
                },
                None => {},
            }
        }
        i += 2;
    }
    proof {
        assert(s@.skip(s@.len() as int) =~= Seq::<char>::empty());
        assert(out@ + Seq::<u8>::empty() =~= out@);
    }
    Some(out)
}

// ------------------------------------------------------------------
// Fixed-width integers on the wire: big-endian bytes.
// ------------------------------------------------------------------

/// The four big-endian bytes of a 32-bit value.
pub open spec fn be_bytes_of_u32(x: u32) -> Seq<u8> {
    seq![
        ((x >> 24) & 0xFF) as u8,
        ((x >> 16) & 0xFF) as u8,
        ((x >> 8) & 0xFF) as u8,
        (x & 0xFF) as u8,
    ]
}

/// Recombines four big-endian bytes into a 32-bit value.
pub open spec fn u32_of_be_bytes(b0: u8, b1: u8, b2: u8, b3: u8) -> u32 {
    (((b0 as u32) << 24) | ((b1 as u32) << 16) | ((b2 as u32) << 8) | (b3 as u32)) as u32
}

/// Recombination undoes the byte split.
pub proof fn lemma_u32_bytes_round_trip(x: u32)
    ensures
        u32_of_be_bytes(
            ((x >> 24) & 0xFF) as u8,
            ((x >> 16) & 0xFF) as u8,
            ((x >> 8) & 0xFF) as u8,
            (x & 0xFF) as u8,
        ) == x,
{
    assert(((((((x >> 24) & 0xFF) as u8) as u32) << 24) | (((((x >> 16) & 0xFF) as u8) as u32)
        << 16) | (((((x >> 8) & 0xFF) as u8) as u32) << 8) | (((x & 0xFF) as u8) as u32)) as u32
        == x) by (bit_vector);
}

/// Splits a 32-bit value into its four big-endian bytes.
pub fn u32_to_be_bytes(x: u32) -> (r: Vec<u8>)
    ensures
        r@ == be_bytes_of_u32(x),
{
    proof {
        assert((x >> 24) & 0xFF < 256 && (x >> 16) & 0xFF < 256 && (x >> 8) & 0xFF < 256 && x
            & 0xFF < 256) by (bit_vector);
    }
    let mut r: Vec<u8> = Vec::new();
    r.push(((x >> 24) & 0xFF) as u8);
    r.push(((x >> 16) & 0xFF) as u8);
    r.push(((x >> 8) & 0xFF) as u8);
    r.push((x & 0xFF) as u8);
    proof {
        assert(r@ =~= be_bytes_of_u32(x));
    }
    r
}

/// Recombines four big-endian bytes into a 32-bit value.
pub fn u32_from_be_bytes(b0: u8, b1: u8, b2: u8, b3: u8) -> (r: u32)
    ensures
        r == u32_of_be_bytes(b0, b1, b2, b3),
{
    proof {
        assert((((b0 as u32) << 24) | ((b1 as u32) << 16) | ((b2 as u32) << 8) | (b3 as u32))
            <= 0xFFFF_FFFF) by (bit_vector);
    }
    ((b0 as u32) << 24) | ((b1 as u32) << 16) | ((b2 as u32) << 8) | (b3 as u32)
}

// ------------------------------------------------------------------
// First-occurrence search.
// ------------------------------------------------------------------

/// The index of the first occurrence of `c` in `s`, or `-1`.
pub open spec fn find_char(s: Seq<char>, c: char) -> int
    decreases s.len(),
{
    if s.len() == 0 {
        -1
    } else if s[0] == c {
        0
    } else {
        let r = find_char(s.skip(1), c);
        if r < 0 {
            -1
        } else {
            1 + r
        }
    }
}

/// What the first occurrence means.
pub proof fn lemma_find_char_props(s: Seq<char>, c: char)
    ensures
        -1 <= find_char(s, c) < s.len(),
        find_char(s, c) >= 0 ==> s[find_char(s, c)] == c,
        find_char(s, c) >= 0 ==> forall|j: int| 0 <= j < find_char(s, c) ==> s[j] != c,
        find_char(s, c) == -1 ==> forall|j: int| 0 <= j < s.len() ==> s[j] != c,
    decreases s.len(),
{
    if s.len() == 0 {
    } else if s[0] == c {
    } else {
        lemma_find_char_props(s.skip(1), c);
        let r = find_char(s.skip(1), c);
        if r >= 0 {
            assert(s[find_char(s, c)] == s.skip(1)[r]);
            assert forall|j: int| 0 <= j < find_char(s, c) implies s[j] != c by {
                if j > 0 {
                    assert(s[j] == s.skip(1)[j - 1]);
                }
            }
        } else {
            assert forall|j: int| 0 <= j < s.len() implies s[j] != c by {
                if j > 0 {
                    assert(s[j] == s.skip(1)[j - 1]);
                }
            }
        }
    }
}

/// A position known to hold the first occurrence is what `find_char` finds.
pub proof fn lemma_find_char_at(s: Seq<char>, c: char, k: int)
    requires
        0 <= k < s.len(),
        s[k] == c,
        forall|j: int| 0 <= j < k ==> s[j] != c,
    ensures
        find_char(s, c) == k,
    decreases s.len(),
{
    if k == 0 {
    } else {
        assert(forall|j: int| 0 <= j < k - 1 ==> s.skip(1)[j] == s[j + 1]);
        lemma_find_char_at(s.skip(1), c, k - 1);
    }
}

/// Searching past a prefix free of the character lands in the suffix.
pub proof fn lemma_find_char_past_prefix(a: Seq<char>, b: Seq<char>, c: char)
    requires
        forall|i: int| 0 <= i < a.len() ==> a[i] != c,
        find_char(b, c) >= 0,
    ensures
        find_char(a + b, c) == a.len() + find_char(b, c),
{
    lemma_find_char_props(b, c);
    let k = a.len() + find_char(b, c);
    assert((a + b)[k] == b[find_char(b, c)]);
    assert forall|j: int| 0 <= j < k implies (a + b)[j] != c by {
        if j < a.len() {
            assert((a + b)[j] == a[j]);
        } else {
            assert((a + b)[j] == b[j - a.len()]);
        }
    }
    lemma_find_char_at(a + b, c, k);
}

/// Finds the first occurrence of `c` at or after `from`.
pub fn find_char_from(v: &Vec<char>, c: char, from: usize) -> (r: Option<usize>)
    requires
        from <= v@.len(),
    ensures
        match r {
            Some(k) => from <= k < v@.len() && v@[k as int] == c && forall|j: int|
                from <= j < k ==> v@[j] != c,
            None => forall|j: int| from <= j < v@.len() ==> v@[j] != c,
        },
{
    let mut i: usize = from;
    while i < v.len()
        invariant
            from <= i <= v@.len(),
            forall|j: int| from <= j < i ==> v@[j] != c,
        decreases v.len() - i,
    {
        if v[i] == c {
            return Some(i);
        }
        i += 1;
    }
    None
}

// ------------------------------------------------------------------
// Small executable helpers on character vectors.
// ------------------------------------------------------------------

/// Compares a character vector with a string slice.
pub fn chars_eq_str(v: &Vec<char>, s: &str) -> (r: bool)
    ensures
        r == (v@ == s@),
{
    let n = s.unicode_len();
    if v.len() != n {
        proof {
            assert(v@.len() != s@.len());
        }
        return false;
    }
    let mut i: usize = 0;
    while i < n
        invariant
            i <= n,
            n == v@.len() && n == s@.len(),
            forall|j: int| 0 <= j < i ==> v@[j] == s@[j],
        decreases n - i,
    {
        if v[i] != s.get_char(i) {
            return false;
        }
        i += 1;
    }
    proof {
        assert(v@ =~= s@);
    }
    true
}

/// Appends the characters of a string slice to a vector.
pub fn push_str_chars(out: &mut Vec<char>, s: &str)
    ensures
        final(out)@ == old(out)@ + s@,
{
    let n = s.unicode_len();
    let mut i: usize = 0;
    proof {
        assert(old(out)@ + s@.take(0) =~= old(out)@);
    }
    while i < n
        invariant
            i <= n,
            n == s@.len(),
            out@ == old(out)@ + s@.take(i as int),
        decreases n - i,
    {
        out.push(s.get_char(i));
        proof {
            assert(old(out)@ + s@.take(i as int + 1) =~= (old(out)@ + s@.take(i as int)).push(
                s@[i as int]));
        }
        i += 1;
    }
    proof {
        assert(s@.take(s@.len() as int) =~= s@);
    }
}

/// The characters of a string slice.
pub fn str_chars(s: &str) -> (r: Vec<char>)
    ensures
        r@ == s@,
{
    let mut r: Vec<char> = Vec::new();
    push_str_chars(&mut r, s);
    proof {
        assert(Seq::<char>::empty() + s@ =~= s@);
    }
    r
}

/// Appends the contents of a character vector to another.
pub fn push_chars(out: &mut Vec<char>, v: &Vec<char>)
    ensures
        final(out)@ == old(out)@ + v@,
{
    let mut i: usize = 0;
    proof {
        assert(old(out)@ + v@.take(0) =~= old(out)@);
    }
    while i < v.len()
        invariant
            i <= v@.len(),
            out@ == old(out)@ + v@.take(i as int),
        decreases v.len() - i,
    {
        out.push(v[i]);
        proof {
            assert(old(out)@ + v@.take(i as int + 1) =~= (old(out)@ + v@.take(i as int)).push(
                v@[i as int]));
        }
        i += 1;
    }
    proof {
        assert(v@.take(v@.len() as int) =~= v@);
    }
}

/// Copies the range `[from, to)` of a character vector.
pub fn subvec(v: &Vec<char>, from: usize, to: usize) -> (r: Vec<char>)
    requires
        from <= to <= v@.len(),
    ensures
        r@ == v@.subrange(from as int, to as int),
{
    let mut r: Vec<char> = Vec::new();
    let mut i: usize = from;
    proof {
        assert(v@.subrange(from as int, from as int) =~= Seq::<char>::empty());
    }
    while i < to
        invariant
            from <= i <= to <= v@.len(),
            r@ == v@.subrange(from as int, i as int),
        decreases to - i,
    {
        r.push(v[i]);
        proof {
            assert(v@.subrange(from as int, i as int + 1) =~= v@.subrange(from as int, i as int)
                .push(v@[i as int]));
        }
        i += 1;
    }
    r
}

/// Builds a `String` from a character vector.
///
/// Relies on std's `FromIterator<char> for String`: collecting
/// characters yields the string of exactly those characters in order.
#[verifier::external_body]
pub(crate) fn chars_to_string(v: &Vec<char>) -> (r: String)
    ensures
        r@ == v@,
{
    v.iter().collect()
}

} // verus!
