use vstd::prelude::*;

verus! {

/// The white-space characters of one byte: tab, line feed, vertical tab, form
/// feed, carriage return and space.
pub open spec fn is_space_byte(a: u8) -> bool {
    9 <= a <= 13 || a == 32
}

/// The white-space characters whose UTF-8 form has two bytes: next line
/// (U+0085) and no-break space (U+00A0).
pub open spec fn is_space_pair(a: u8, b: u8) -> bool {
    a == 0xC2 && (b == 0x85 || b == 0xA0)
}

/// The white-space characters whose UTF-8 form has three bytes: U+1680,
/// U+2000 to U+200A, U+2028, U+2029, U+202F, U+205F and U+3000.
pub open spec fn is_space_triple(a: u8, b: u8, c: u8) -> bool {
    ||| a == 0xE1 && b == 0x9A && c == 0x80
    ||| a == 0xE2 && b == 0x80 && (0x80 <= c <= 0x8A || c == 0xA8 || c == 0xA9 || c == 0xAF)
    ||| a == 0xE2 && b == 0x81 && c == 0x9F
    ||| a == 0xE3 && b == 0x80 && c == 0x80
}

/// How many bytes the white-space character takes that `s` begins with; 0
/// where it begins with none.
pub open spec fn space_len_front(s: Seq<u8>) -> nat {
    if s.len() >= 1 && is_space_byte(s[0]) {
        1
    } else if s.len() >= 2 && is_space_pair(s[0], s[1]) {
        2
    } else if s.len() >= 3 && is_space_triple(s[0], s[1], s[2]) {
        3
    } else {
        0
    }
}

/// How many bytes the white-space character takes that `s` ends with; 0 where
/// it ends with none.
pub open spec fn space_len_back(s: Seq<u8>) -> nat {
    let n = s.len() as int;
    if n >= 1 && is_space_byte(s[n - 1]) {
        1
    } else if n >= 2 && is_space_pair(s[n - 2], s[n - 1]) {
        2
    } else if n >= 3 && is_space_triple(s[n - 3], s[n - 2], s[n - 1]) {
        3
    } else {
        0
    }
}

/// `s` without the white space that it begins with.
pub open spec fn trim_front(s: Seq<u8>) -> Seq<u8>
    decreases s.len(),
{
    if space_len_front(s) == 0 {
        s
    } else {
        trim_front(s.skip(space_len_front(s) as int))
    }
}

/// `s` without the white space that it ends with.
pub open spec fn trim_back(s: Seq<u8>) -> Seq<u8>
    decreases s.len(),
{
    if space_len_back(s) == 0 {
        s
    } else {
        trim_back(s.take(s.len() - space_len_back(s)))
    }
}

/// `s` without the white space at its two ends. On UTF-8 text this is what
/// trimming the text character by character leaves.
pub open spec fn trimmed(s: Seq<u8>) -> Seq<u8> {
    trim_back(trim_front(s))
}

/// What is left after the white space in front is the end of the sequence,
/// and begins with no white space.
pub proof fn lemma_trim_front(s: Seq<u8>)
    ensures
        trim_front(s).len() <= s.len(),
        trim_front(s) == s.skip(s.len() - trim_front(s).len()),
        space_len_front(trim_front(s)) == 0,
    decreases s.len(),
{
    let n = space_len_front(s) as int;
    if n == 0 {
        assert(s.skip(0) =~= s);
    } else {
        let rest = s.skip(n);
        lemma_trim_front(rest);
        assert(rest.skip(rest.len() - trim_front(rest).len()) =~= s.skip(
            s.len() - trim_front(rest).len(),
        ));
    }
}

/// What is left before the white space at the end is the beginning of the
/// sequence, and ends with no white space.
pub proof fn lemma_trim_back(s: Seq<u8>)
    ensures
        trim_back(s).is_prefix_of(s),
        space_len_back(trim_back(s)) == 0,
    decreases s.len(),
{
    let n = space_len_back(s) as int;
    if n == 0 {
        assert(s.subrange(0, s.len() as int) =~= s);
    } else {
        let rest = s.take(s.len() - n);
        lemma_trim_back(rest);
        let kept = trim_back(rest);
        assert(kept =~= s.subrange(0, kept.len() as int));
    }
}

/// A sequence that begins with no white space begins with what trimming
/// leaves of it.
pub proof fn lemma_trimmed_of_bare_front(s: Seq<u8>)
    requires
        space_len_front(s) == 0,
    ensures
        trimmed(s).is_prefix_of(s),
{
    lemma_trim_back(s);
}

fn space_byte(a: u8) -> (yes: bool)
    ensures
        yes == is_space_byte(a),
{
    (9 <= a && a <= 13) || a == 32
}

fn space_pair(a: u8, b: u8) -> (yes: bool)
    ensures
        yes == is_space_pair(a, b),
{
    a == 0xC2 && (b == 0x85 || b == 0xA0)
}

fn space_triple(a: u8, b: u8, c: u8) -> (yes: bool)
    ensures
        yes == is_space_triple(a, b, c),
{
    (a == 0xE1 && b == 0x9A && c == 0x80) || (a == 0xE2 && b == 0x80 && ((0x80 <= c && c <= 0x8A)
        || c == 0xA8 || c == 0xA9 || c == 0xAF)) || (a == 0xE2 && b == 0x81 && c == 0x9F) || (a
        == 0xE3 && b == 0x80 && c == 0x80)
}

fn leading_space(bytes: &[u8]) -> (n: usize)
    ensures
        n == space_len_front(bytes@),
{
    let len = bytes.len();
    if len >= 1 && space_byte(bytes[0]) {
        1
    } else if len >= 2 && space_pair(bytes[0], bytes[1]) {
        2
    } else if len >= 3 && space_triple(bytes[0], bytes[1], bytes[2]) {
        3
    } else {
        0
    }
}

fn trailing_space(bytes: &[u8]) -> (n: usize)
    ensures
        n == space_len_back(bytes@),
{
    let len = bytes.len();
    if len >= 1 && space_byte(bytes[len - 1]) {
        1
    } else if len >= 2 && space_pair(bytes[len - 2], bytes[len - 1]) {
        2
    } else if len >= 3 && space_triple(bytes[len - 3], bytes[len - 2], bytes[len - 1]) {
        3
    } else {
        0
    }
}

/// The bytes without the white space that they begin with.
pub fn trim_start(bytes: &[u8]) -> (kept: &[u8])
    ensures
        kept@ == trim_front(bytes@),
{
    let mut rest = bytes;
    let mut n = leading_space(rest);
    while n > 0
        invariant
            n == space_len_front(rest@),
            trim_front(rest@) == trim_front(bytes@),
        decreases rest@.len(),
    {
        rest = vstd::slice::slice_subrange(rest, n, rest.len());
        n = leading_space(rest);
    }
    rest
}

/// The bytes without the white space that they end with.
pub fn trim_end(bytes: &[u8]) -> (kept: &[u8])
    ensures
        kept@ == trim_back(bytes@),
{
    let mut rest = bytes;
    let mut n = trailing_space(rest);
    while n > 0
        invariant
            n == space_len_back(rest@),
            trim_back(rest@) == trim_back(bytes@),
        decreases rest@.len(),
    {
        rest = vstd::slice::slice_subrange(rest, 0, rest.len() - n);
        n = trailing_space(rest);
    }
    rest
}

/// The bytes without the white space at their two ends.
pub fn trim(bytes: &[u8]) -> (kept: &[u8])
    ensures
        kept@ == trimmed(bytes@),
{
    trim_end(trim_start(bytes))
}

} // verus!
