use vstd::prelude::*;

verus! {

/// The lowercase hexadecimal digit for a value below sixteen.
pub open spec fn hex_char(v: nat) -> char {
    if v < 10 {
        ((v + 48) as u8) as char
    } else {
        ((v + 87) as u8) as char
    }
}

/// Two lowercase digits, high nibble first, for one byte.
pub open spec fn byte_text(b: u8) -> Seq<char> {
    seq![hex_char((b / 16) as nat), hex_char((b % 16) as nat)]
}

/// Lowercase digits for a byte sequence, two per byte, in order.
pub open spec fn hex_digits(bytes: Seq<u8>) -> Seq<char>
    decreases bytes.len(),
{
    if bytes.len() == 0 {
        Seq::empty()
    } else {
        hex_digits(bytes.drop_last()) + byte_text(bytes.last())
    }
}

/// The canonical text of a byte string: `0x` followed by its lowercase digits.
pub open spec fn hex_text(bytes: Seq<u8>) -> Seq<char> {
    seq!['0', 'x'] + hex_digits(bytes)
}

fn digit_str(v: u8) -> (r: &'static str)
    requires
        v < 16,
    ensures
        r@ == seq![hex_char(v as nat)],
{
    match v {
        0 => { proof { reveal_strlit("0"); } "0" },
        1 => { proof { reveal_strlit("1"); } "1" },
        2 => { proof { reveal_strlit("2"); } "2" },
        3 => { proof { reveal_strlit("3"); } "3" },
        4 => { proof { reveal_strlit("4"); } "4" },
        5 => { proof { reveal_strlit("5"); } "5" },
        6 => { proof { reveal_strlit("6"); } "6" },
        7 => { proof { reveal_strlit("7"); } "7" },
        8 => { proof { reveal_strlit("8"); } "8" },
        9 => { proof { reveal_strlit("9"); } "9" },
        10 => { proof { reveal_strlit("a"); } "a" },
        11 => { proof { reveal_strlit("b"); } "b" },
        12 => { proof { reveal_strlit("c"); } "c" },
        13 => { proof { reveal_strlit("d"); } "d" },
        14 => { proof { reveal_strlit("e"); } "e" },
        _ => { proof { reveal_strlit("f"); } "f" },
    }
}

/// Renders any byte string as `0x` followed by two lowercase digits per byte.
pub fn format_bytes(bytes: &[u8]) -> (r: String)
    ensures
        r@ == hex_text(bytes@),
{
    let mut out = String::from_str("0x");
    proof {
        reveal_strlit("0x");
    }
    let mut i: usize = 0;
    while i < bytes.len()
        invariant
            i <= bytes@.len(),
            out@ == hex_text(bytes@.subrange(0, i as int)),
        decreases bytes@.len() - i,
    {
        let b = bytes[i];
        out.append(digit_str(b / 16));
        out.append(digit_str(b % 16));
        proof {
            let prefix = bytes@.subrange(0, i as int + 1);
            assert(prefix.drop_last() =~= bytes@.subrange(0, i as int));
            assert(prefix.last() == b);
        }
        i = i + 1;
    }
    assert(bytes@.subrange(0, bytes@.len() as int) =~= bytes@);
    out
}


/// The value of a hexadecimal digit of either case, if `c` is one.
pub open spec fn hex_value(c: char) -> Option<nat> {
    let n = c as int;
    if 48 <= n <= 57 {
        Some((n - 48) as nat)
    } else if 97 <= n <= 102 {
        Some((n - 87) as nat)
    } else if 65 <= n <= 70 {
        Some((n - 55) as nat)
    } else {
        None
    }
}

/// The lowercase form of a hexadecimal digit.
pub open spec fn lower_digit(c: char) -> char {
    hex_char(hex_value(c)->0)
}

/// Whether `s` is `0x` (or `0X`) followed by exactly `2 * width` digits of either case.
pub open spec fn is_hex_text(s: Seq<char>, width: nat) -> bool {
    &&& s.len() == 2 + 2 * width
    &&& s[0] == '0'
    &&& (s[1] == 'x' || s[1] == 'X')
    &&& forall|i: int| 2 <= i < s.len() ==> (#[trigger] hex_value(s[i])) is Some
}

/// The canonical spelling of a hex text of `width` bytes: `0x` and lowercase digits.
/// `None` where `s` is no such text.
pub open spec fn canonical_text(s: Seq<char>, width: nat) -> Option<Seq<char>> {
    if is_hex_text(s, width) {
        Some(seq!['0', 'x'] + s.subrange(2, s.len() as int).map_values(|c: char| lower_digit(c)))
    } else {
        None
    }
}

fn digit_value(c: char) -> (r: Option<u8>)
    ensures
        match hex_value(c) {
            Some(v) => r == Some(v as u8) && v < 16,
            None => r is None,
        },
{
    let n = c as u32;
    if 48 <= n && n <= 57 {
        Some((n - 48) as u8)
    } else if 97 <= n && n <= 102 {
        Some((n - 87) as u8)
    } else if 65 <= n && n <= 70 {
        Some((n - 55) as u8)
    } else {
        None
    }
}

/// Renders a 32-byte hash in canonical form: `0x` and 64 lowercase digits.
pub fn format_hash(hash: &[u8; 32]) -> (r: String)
    ensures
        r@ == hex_text(hash@),
        r@.len() == 66,
{
    proof {
        lemma_hex_text_shape(hash@);
    }
    format_bytes(hash.as_slice())
}

/// Renders a 20-byte address in canonical form: `0x` and 40 lowercase digits.
pub fn format_address(address: &[u8; 20]) -> (r: String)
    ensures
        r@ == hex_text(address@),
        r@.len() == 42,
{
    proof {
        lemma_hex_text_shape(address@);
    }
    format_bytes(address.as_slice())
}

/// Renders an 8-byte block nonce: `0x` and 16 lowercase digits.
pub fn format_nonce(nonce: &[u8; 8]) -> (r: String)
    ensures
        r@ == hex_text(nonce@),
        r@.len() == 18,
{
    proof {
        lemma_hex_text_shape(nonce@);
    }
    format_bytes(nonce.as_slice())
}

/// Brings a textual hash or address of `width` bytes to its canonical spelling:
/// the `0x` prefix and lowercase digits. `None` where the text has another length,
/// lacks the prefix or holds a character that is no hexadecimal digit.
pub fn canonicalize_hex(s: &str, width: usize) -> (r: Option<String>)
    ensures
        r matches Some(t) ==> canonical_text(s@, width as nat) == Some(t@),
        r is None ==> canonical_text(s@, width as nat) is None,
{
    let n = s.unicode_len();
    if n < 2 || (n - 2) % 2 != 0 || (n - 2) / 2 != width {
        return None;
    }
    let c0 = s.get_char(0);
    let c1 = s.get_char(1);
    if c0 != '0' || (c1 != 'x' && c1 != 'X') {
        return None;
    }
    let mut out = String::from_str("0x");
    proof {
        reveal_strlit("0x");
    }
    let ghost digits = s@.subrange(2, n as int);
    let mut i: usize = 2;
    while i < n
        invariant
            2 <= i <= n,
            n == s@.len(),
            digits == s@.subrange(2, n as int),
            forall|k: int| 2 <= k < i ==> (#[trigger] hex_value(s@[k])) is Some,
            out@ == seq!['0', 'x'] + digits.subrange(0, i - 2).map_values(|c: char| lower_digit(c)),
        decreases n - i,
    {
        let c = s.get_char(i);
        match digit_value(c) {
            None => {
                assert(!is_hex_text(s@, width as nat));
                return None;
            },
            Some(v) => {
                out.append(digit_str(v));
                proof {
                    assert(digits.subrange(0, i + 1 - 2) =~= digits.subrange(0, i - 2).push(c));
                    assert(digits.subrange(0, i + 1 - 2).map_values(|c: char| lower_digit(c))
                        =~= digits.subrange(0, i - 2).map_values(|c: char| lower_digit(c)).push(lower_digit(c)));
                }
                i = i + 1;
            },
        }
    }
    assert(digits.subrange(0, n - 2) =~= digits);
    Some(out)
}

/// Renders each hash of a list in canonical form, keeping their order.
pub fn format_hashes(hashes: &Vec<[u8; 32]>) -> (r: Vec<String>)
    ensures
        r@.len() == hashes@.len(),
        forall|i: int| 0 <= i < r@.len() ==> (#[trigger] r@[i])@ == hex_text(hashes@[i]@),
{
    let mut out: Vec<String> = Vec::new();
    let mut i: usize = 0;
    while i < hashes.len()
        invariant
            i <= hashes@.len(),
            out@.len() == i,
            forall|k: int| 0 <= k < i ==> (#[trigger] out@[k])@ == hex_text(hashes@[k]@),
        decreases hashes@.len() - i,
    {
        out.push(format_hash(&hashes[i]));
        i = i + 1;
    }
    out
}

proof fn lemma_hex_char_round_trip(v: nat)
    requires
        v < 16,
    ensures
        hex_value(hex_char(v)) == Some(v),
        lower_digit(hex_char(v)) == hex_char(v),
{
}

/// The digits of a byte string come two per byte, each a lowercase digit.
pub proof fn lemma_hex_digits_shape(bytes: Seq<u8>)
    ensures
        hex_digits(bytes).len() == 2 * bytes.len(),
        forall|i: int| 0 <= i < hex_digits(bytes).len() ==> {
            &&& (#[trigger] hex_value(hex_digits(bytes)[i])) is Some
            &&& lower_digit(hex_digits(bytes)[i]) == hex_digits(bytes)[i]
        },
    decreases bytes.len(),
{
    if bytes.len() > 0 {
        lemma_hex_digits_shape(bytes.drop_last());
        let b = bytes.last();
        lemma_hex_char_round_trip((b / 16) as nat);
        lemma_hex_char_round_trip((b % 16) as nat);
    }
}

proof fn lemma_hex_text_shape(bytes: Seq<u8>)
    ensures
        hex_text(bytes).len() == 2 + 2 * bytes.len(),
{
    lemma_hex_digits_shape(bytes);
}

/// Canonicalizing is idempotent: the canonical spelling of a canonical
/// spelling is that spelling itself.
pub proof fn lemma_canonicalize_idempotent(s: Seq<char>, width: nat)
    requires
        canonical_text(s, width) is Some,
    ensures
        canonical_text(canonical_text(s, width)->0, width) == canonical_text(s, width),
{
    let t = canonical_text(s, width)->0;
    assert forall|i: int| 2 <= i < t.len() implies {
        &&& (#[trigger] hex_value(t[i])) is Some
        &&& lower_digit(t[i]) == t[i]
    } by {
        let v = hex_value(s[i])->0;
        assert(t[i] == hex_char(v));
        lemma_hex_char_round_trip(v);
    }
    assert(is_hex_text(t, width));
    assert(t.subrange(2, t.len() as int).map_values(|c: char| lower_digit(c))
        =~= t.subrange(2, t.len() as int));
    assert(seq!['0', 'x'] + t.subrange(2, t.len() as int) =~= t);
}

/// The text that the formatters produce is already canonical: canonicalizing
/// it gives it back unchanged.
pub proof fn lemma_formatted_is_canonical(bytes: Seq<u8>)
    ensures
        canonical_text(hex_text(bytes), bytes.len()) == Some(hex_text(bytes)),
{
    let t = hex_text(bytes);
    lemma_hex_digits_shape(bytes);
    assert forall|i: int| 2 <= i < t.len() implies (#[trigger] hex_value(t[i])) is Some by {
        assert(t[i] == hex_digits(bytes)[i - 2]);
    }
    assert(t.subrange(2, t.len() as int) =~= hex_digits(bytes));
    assert(hex_digits(bytes).map_values(|c: char| lower_digit(c)) =~= hex_digits(bytes));
}

} // verus!
