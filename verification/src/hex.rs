//! Building hexadecimal text without a runtime formatter.
//!
//! Register values and input dumps are reported as fixed-width lowercase hex
//! words; the functions here construct that text character by character, with
//! the exact result stated in the contracts.

use vstd::prelude::*;

verus! {

/// The lowercase hexadecimal digit for a value below 16.
pub open spec fn hex_digit_char(d: int) -> char {
    if d == 0 {
        '0'
    } else if d == 1 {
        '1'
    } else if d == 2 {
        '2'
    } else if d == 3 {
        '3'
    } else if d == 4 {
        '4'
    } else if d == 5 {
        '5'
    } else if d == 6 {
        '6'
    } else if d == 7 {
        '7'
    } else if d == 8 {
        '8'
    } else if d == 9 {
        '9'
    } else if d == 10 {
        'a'
    } else if d == 11 {
        'b'
    } else if d == 12 {
        'c'
    } else if d == 13 {
        'd'
    } else if d == 14 {
        'e'
    } else {
        'f'
    }
}

fn push_hex_digit(s: &mut String, d: u8)
    requires
        d < 16,
    ensures
        final(s)@ == old(s)@.push(hex_digit_char(d as int)),
{
    proof {
        reveal_strlit("0");
        reveal_strlit("1");
        reveal_strlit("2");
        reveal_strlit("3");
        reveal_strlit("4");
        reveal_strlit("5");
        reveal_strlit("6");
        reveal_strlit("7");
        reveal_strlit("8");
        reveal_strlit("9");
        reveal_strlit("a");
        reveal_strlit("b");
        reveal_strlit("c");
        reveal_strlit("d");
        reveal_strlit("e");
        reveal_strlit("f");
    }
    let t: &str = match d {
        0 => "0",
        1 => "1",
        2 => "2",
        3 => "3",
        4 => "4",
        5 => "5",
        6 => "6",
        7 => "7",
        8 => "8",
        9 => "9",
        10 => "a",
        11 => "b",
        12 => "c",
        13 => "d",
        14 => "e",
        _ => "f",
    };
    s.append(t);
    proof {
        assert(final(s)@ =~= old(s)@.push(hex_digit_char(d as int)));
    }
}

/// Hex digit `i` (most significant first) of the 32-bit value `v`.
pub open spec fn hex32_digit(v: u32, i: int) -> char {
    hex_digit_char(((v >> (((7 - i) * 4) as u32)) & 0xf) as int)
}

/// The eight hex digits of `v`, most significant first.
pub open spec fn spec_hex32_digits(v: u32) -> Seq<char> {
    Seq::new(8, |i: int| hex32_digit(v, i))
}

/// The text `{:#010x}` would give: `0x` followed by eight digits.
pub open spec fn spec_hex32(v: u32) -> Seq<char> {
    seq!['0', 'x'] + spec_hex32_digits(v)
}

/// Append the eight zero-padded hex digits of `v` to `s`.
pub fn append_hex32_digits(s: &mut String, v: u32)
    ensures
        final(s)@ == old(s)@ + spec_hex32_digits(v),
{
    let mut i: usize = 0;
    while i < 8
        invariant
            i <= 8,
            s@ == old(s)@ + Seq::new(i as nat, |j: int| hex32_digit(v, j)),
        decreases 8 - i,
    {
        let shift: u32 = (7 - i as u32) * 4;
        let nib: u32 = (v >> shift) & 0xf;
        assert((v >> shift) & 0xf < 16) by (bit_vector);
        push_hex_digit(s, nib as u8);
        i = i + 1;
        proof {
            assert(s@ =~= old(s)@ + Seq::new(i as nat, |j: int| hex32_digit(v, j)));
        }
    }
    proof {
        assert(s@ =~= old(s)@ + spec_hex32_digits(v));
    }
}

/// Render `v` as `0x` plus eight zero-padded lowercase hex digits.
pub fn format_hex32(v: u32) -> (r: String)
    ensures
        r@ == spec_hex32(v),
        r@.len() == 10,
{
    proof {
        reveal_strlit("0x");
    }
    let mut s = String::new();
    s.append("0x");
    proof {
        assert(s@ =~= seq!['0', 'x']);
    }
    append_hex32_digits(&mut s, v);
    proof {
        assert(s@ =~= spec_hex32(v));
    }
    s
}

/// Byte `k` of a buffer, zero when past the end.
pub open spec fn spec_byte_or_zero(bytes: Seq<u8>, k: int) -> int {
    if 0 <= k < bytes.len() {
        bytes[k] as int
    } else {
        0
    }
}

/// The 32-bit little-endian word `j` of a buffer, the last word zero-padded.
pub open spec fn spec_word_at(bytes: Seq<u8>, j: int) -> u32 {
    (spec_byte_or_zero(bytes, 4 * j) + 0x100 * spec_byte_or_zero(bytes, 4 * j + 1) + 0x10000
        * spec_byte_or_zero(bytes, 4 * j + 2) + 0x1000000 * spec_byte_or_zero(
        bytes,
        4 * j + 3,
    )) as u32
}

/// How many words a dump of `len` bytes shows.
pub open spec fn spec_word_count(len: int) -> int {
    if len % 4 == 0 {
        len / 4
    } else {
        len / 4 + 1
    }
}

/// The text of word `j` in a dump of `n` words: the word in hex, comma
/// separated, four words to a line — except that no line break follows a
/// final partial word.
pub open spec fn spec_word_text(bytes: Seq<u8>, j: int, n: int) -> Seq<char> {
    seq![' '] + spec_hex32_digits(spec_word_at(bytes, j)) + seq![','] + (if (j + 1) % 4 == 0 && !(j
        == n - 1 && bytes.len() % 4 != 0) {
        seq!['\n']
    } else {
        Seq::empty()
    })
}

/// The first `j` word texts of the dump, concatenated.
pub open spec fn spec_words_prefix(bytes: Seq<u8>, j: int, n: int) -> Seq<char>
    decreases j,
{
    if j <= 0 {
        Seq::empty()
    } else {
        spec_words_prefix(bytes, j - 1, n) + spec_word_text(bytes, j - 1, n)
    }
}

/// The full dump of a candidate buffer: a bracketed list of its 32-bit
/// words in hex.
pub open spec fn spec_input_dump(bytes: Seq<u8>) -> Seq<char> {
    let n = spec_word_count(bytes.len() as int);
    seq!['i', 'n', 'p', 'u', 't', '=', '[', '\n'] + spec_words_prefix(bytes, n, n) + seq![
        '\n',
        ']',
    ]
}

/// The little-endian word `j` of the buffer, the last word zero-padded.
fn word_at(input: &[u8], len: usize, j: usize) -> (w: u32)
    requires
        len == input@.len(),
        4 * j < input@.len(),
    ensures
        w == spec_word_at(input@, j as int),
{
    let k: usize = 4 * j;
    let b0 = *vstd::slice::slice_index_get(input, k) as u32;
    let b1: u32 = if k + 1 < len {
        *vstd::slice::slice_index_get(input, k + 1) as u32
    } else {
        0
    };
    let b2: u32 = if k + 2 < len {
        *vstd::slice::slice_index_get(input, k + 2) as u32
    } else {
        0
    };
    let b3: u32 = if k + 3 < len {
        *vstd::slice::slice_index_get(input, k + 3) as u32
    } else {
        0
    };
    b0 + 0x100 * b1 + 0x10000 * b2 + 0x1000000 * b3
}

/// Render a candidate buffer as the bracketed hex word list the run logs
/// show.
pub fn format_input(input: &[u8]) -> (r: String)
    requires
        input@.len() + 4 <= usize::MAX,
    ensures
        r@ == spec_input_dump(input@),
{
    let len = input.len();
    let n: usize = if len % 4 == 0 {
        len / 4
    } else {
        len / 4 + 1
    };
    proof {
        reveal_strlit("input=[\n");
        reveal_strlit(" ");
        reveal_strlit(",");
        reveal_strlit("\n");
        reveal_strlit("\n]");
    }
    let mut s = String::new();
    s.append("input=[\n");
    let ghost header = seq!['i', 'n', 'p', 'u', 't', '=', '[', '\n'];
    proof {
        assert(s@ =~= header);
    }
    let mut j: usize = 0;
    while j < n
        invariant
            j <= n,
            len == input@.len(),
            len + 4 <= usize::MAX,
            n == spec_word_count(len as int),
            header == seq!['i', 'n', 'p', 'u', 't', '=', '[', '\n'],
            s@ == header + spec_words_prefix(input@, j as int, n as int),
        decreases n - j,
    {
        proof {
            reveal_strlit(" ");
            reveal_strlit(",");
            reveal_strlit("\n");
        }
        let w = word_at(input, len, j);
        s.append(" ");
        append_hex32_digits(&mut s, w);
        s.append(",");
        if (j + 1) % 4 == 0 && !(j == n - 1 && len % 4 != 0) {
            s.append("\n");
        }
        j = j + 1;
        proof {
            assert(s@ =~= header + spec_words_prefix(input@, j as int, n as int));
        }
    }
    s.append("\n]");
    proof {
        assert(s@ =~= spec_input_dump(input@));
    }
    s
}

} // verus!
