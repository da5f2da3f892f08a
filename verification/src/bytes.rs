use vstd::prelude::*;

verus! {

/// Line feed, the byte that ends a line.
pub const NEWLINE: u8 = 10u8;

/// Carriage return, dropped where it stands directly before a line feed.
pub const CARRIAGE_RETURN: u8 = 13u8;

/// The space between the comment style and the text of a line.
pub const SPACE: u8 = 32u8;

/// The dot that separates a file name from its extension.
pub const DOT: u8 = 46u8;

/// Whether `content` begins with `prefix`.
pub fn starts_with(content: &[u8], prefix: &[u8]) -> (found: bool)
    ensures
        found == prefix@.is_prefix_of(content@),
{
    if prefix.len() > content.len() {
        return false;
    }
    let mut i: usize = 0;
    while i < prefix.len()
        invariant
            i <= prefix@.len() <= content@.len(),
            forall|k: int| 0 <= k < i ==> prefix@[k] == content@[k],
        decreases prefix@.len() - i,
    {
        if prefix[i] != content[i] {
            assert(content@.subrange(0, prefix@.len() as int)[i as int] != prefix@[i as int]);
            return false;
        }
        i += 1;
    }
    assert(prefix@ =~= content@.subrange(0, prefix@.len() as int));
    true
}

/// Whether two byte strings are the same.
pub fn same_bytes(a: &[u8], b: &[u8]) -> (same: bool)
    ensures
        same == (a@ == b@),
{
    if a.len() != b.len() {
        return false;
    }
    let found = starts_with(a, b);
    proof {
        if found {
            assert(a@ =~= a@.subrange(0, b@.len() as int));
        }
    }
    found
}

/// Appends the bytes of `source` from index `from` up to, not including,
/// index `to`.
pub(crate) fn push_range(out: &mut Vec<u8>, source: &[u8], from: usize, to: usize)
    requires
        from <= to <= source@.len(),
    ensures
        final(out)@ == old(out)@ + source@.subrange(from as int, to as int),
{
    let mut i: usize = from;
    while i < to
        invariant
            from <= i <= to <= source@.len(),
            out@ == old(out)@ + source@.subrange(from as int, i as int),
        decreases to - i,
    {
        out.push(source[i]);
        i += 1;
        assert(out@ =~= old(out)@ + source@.subrange(from as int, i as int));
    }
}

/// Appends all of `source`.
pub(crate) fn push_all(out: &mut Vec<u8>, source: &[u8])
    ensures
        final(out)@ == old(out)@ + source@,
{
    push_range(out, source, 0, source.len());
    assert(source@.subrange(0, source@.len() as int) =~= source@);
}

} // verus!
