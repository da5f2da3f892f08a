use vstd::prelude::*;
use crate::bytes::{push_all, push_range, CARRIAGE_RETURN, NEWLINE, SPACE};
use crate::error::Error;

verus! {

/// How many bytes of `text` stand before its first line feed; the length of
/// `text` where it has none.
pub open spec fn line_len(text: Seq<u8>) -> nat
    decreases text.len(),
{
    if text.len() == 0 || text.first() == NEWLINE {
        0
    } else {
        1 + line_len(text.drop_first())
    }
}

/// A line as it was cut off before a line feed, without the carriage return
/// that may end it.
pub open spec fn without_cr(line: Seq<u8>) -> Seq<u8> {
    if line.len() > 0 && line.last() == CARRIAGE_RETURN {
        line.drop_last()
    } else {
        line
    }
}

/// The lines of a text. A line ends at a line feed, or at a carriage return
/// directly followed by one; the terminator is no part of the line. The last
/// line needs no terminator, and a text that ends with one has no empty line
/// after it. A last line without a line feed keeps its carriage return.
pub open spec fn lines(text: Seq<u8>) -> Seq<Seq<u8>>
    decreases text.len(),
{
    if text.len() == 0 {
        Seq::empty()
    } else if line_len(text) >= text.len() {
        seq![text]
    } else {
        seq![without_cr(text.take(line_len(text) as int))] + lines(
            text.skip(line_len(text) as int + 1),
        )
    }
}

/// One line of the block: the comment style, a space, the text, a line feed.
pub open spec fn comment_line(style: Seq<u8>, line: Seq<u8>) -> Seq<u8> {
    style + seq![SPACE] + line + seq![NEWLINE]
}

/// The comment lines for a sequence of lines, one after the other.
pub open spec fn comment_lines(style: Seq<u8>, ls: Seq<Seq<u8>>) -> Seq<u8>
    decreases ls.len(),
{
    if ls.len() == 0 {
        Seq::empty()
    } else {
        comment_line(style, ls.first()) + comment_lines(style, ls.drop_first())
    }
}

/// The header block of a template: a comment line for each line of the
/// template, then one blank line.
pub open spec fn block_of(template: Seq<u8>, style: Seq<u8>) -> Seq<u8> {
    comment_lines(style, lines(template)) + seq![NEWLINE]
}

/// `line_len` stays within the text and stops at a line feed, with none
/// before it.
pub proof fn lemma_line_len(text: Seq<u8>)
    ensures
        line_len(text) <= text.len(),
        line_len(text) < text.len() ==> text[line_len(text) as int] == NEWLINE,
        forall|k: int| 0 <= k < line_len(text) ==> text[k] != NEWLINE,
    decreases text.len(),
{
    if text.len() == 0 || text.first() == NEWLINE {
    } else {
        let rest = text.drop_first();
        lemma_line_len(rest);
        assert forall|k: int| 0 <= k < line_len(text) implies text[k] != NEWLINE by {
            if k > 0 {
                assert(text[k] == rest[k - 1]);
            }
        }
        if line_len(text) < text.len() {
            assert(text[line_len(text) as int] == rest[line_len(rest) as int]);
        }
    }
}

/// A stretch of `n` bytes without a line feed that ends at a line feed, or at
/// the end of the text, is the first line.
pub proof fn lemma_line_len_is(text: Seq<u8>, n: int)
    requires
        0 <= n <= text.len(),
        forall|k: int| 0 <= k < n ==> text[k] != NEWLINE,
        n < text.len() ==> text[n] == NEWLINE,
    ensures
        line_len(text) == n,
{
    lemma_line_len(text);
    let m = line_len(text) as int;
    if m < n {
        assert(text[m] == NEWLINE);
    } else if n < m {
        assert(text[n] == NEWLINE);
    }
}

/// What an attempt to read the template file gave.
#[derive(Debug)]
pub enum Template {
    /// The bytes of the file.
    Found(Vec<u8>),
    /// The file could not be opened.
    Missing,
    /// The file was opened and could not be read as text.
    Unreadable,
}

/// What loading gives. A template that could not be opened or read ends the
/// run as such, whatever the comment style; an empty comment style is refused
/// once the template is there.
pub open spec fn loaded(source: Template, style: Seq<u8>) -> Result<Seq<u8>, Error> {
    match source {
        Template::Missing => Err(Error::NotFound),
        Template::Unreadable => Err(Error::Io),
        Template::Found(text) => if style.len() == 0 {
            Err(Error::InvalidConfig)
        } else {
            Ok(block_of(text@, style))
        },
    }
}

/// The index at which the line that begins at `from` ends: that of the next
/// line feed, or the length of the text.
fn line_end(text: &[u8], from: usize) -> (end: usize)
    requires
        from <= text@.len(),
    ensures
        end == from + line_len(text@.skip(from as int)),
        end <= text@.len(),
{
    let mut end: usize = from;
    while end < text.len() && text[end] != NEWLINE
        invariant
            from <= end <= text@.len(),
            forall|k: int| from <= k < end ==> text@[k] != NEWLINE,
        decreases text@.len() - end,
    {
        end += 1;
    }
    proof {
        lemma_line_len_is(text@.skip(from as int), end - from);
    }
    end
}

/// The block that is written above a file: the comment lines of a template
/// and the blank line after them.
#[derive(Debug)]
pub struct HeaderBlock {
    bytes: Vec<u8>,
}

impl View for HeaderBlock {
    type V = Seq<u8>;

    closed spec fn view(&self) -> Seq<u8> {
        self.bytes@
    }
}

impl HeaderBlock {
    /// Builds the block for a template and a comment style. An empty comment
    /// style is refused, and nothing else is.
    pub fn build(template: &[u8], style: &[u8]) -> (built: Result<HeaderBlock, Error>)
        ensures
            built is Err <==> style@.len() == 0,
            built matches Err(e) ==> e == Error::InvalidConfig,
            built matches Ok(block) ==> block@ == block_of(template@, style@),
    {
        if style.len() == 0 {
            return Err(Error::InvalidConfig);
        }
        let mut out: Vec<u8> = Vec::new();
        let mut pos: usize = 0;
        assert(template@.skip(0) =~= template@);
        while pos < template.len()
            invariant
                pos <= template@.len(),
                out@ + comment_lines(style@, lines(template@.skip(pos as int))) == comment_lines(
                    style@,
                    lines(template@),
                ),
            decreases template@.len() - pos,
        {
            let ghost rest = template@.skip(pos as int);
            let ghost before = out@;
            let end = line_end(template, pos);
            let terminated = end < template.len();
            let mut stop: usize = end;
            if terminated && stop > pos && template[stop - 1] == CARRIAGE_RETURN {
                stop = stop - 1;
            }
            push_all(&mut out, style);
            out.push(SPACE);
            push_range(&mut out, template, pos, stop);
            out.push(NEWLINE);
            let next: usize = if terminated {
                end + 1
            } else {
                end
            };
            proof {
                let n = line_len(rest) as int;
                let line = template@.subrange(pos as int, stop as int);
                let tail = lines(template@.skip(next as int));
                assert(out@ =~= before + comment_line(style@, line));
                assert(rest.take(n) =~= template@.subrange(pos as int, end as int));
                if terminated {
                    assert(rest.skip(n + 1) =~= template@.skip(next as int));
                    assert(line =~= without_cr(rest.take(n)));
                } else {
                    assert(line =~= rest);
                    assert(tail =~= Seq::<Seq<u8>>::empty());
                }
                assert(lines(rest) =~= seq![line] + tail);
                assert(lines(rest).first() == line);
                assert(lines(rest).drop_first() =~= tail);
                assert(comment_lines(style@, lines(rest)) == comment_line(style@, line)
                    + comment_lines(style@, tail));
                assert(out@ + comment_lines(style@, tail) =~= before + comment_lines(
                    style@,
                    lines(rest),
                ));
            }
            pos = next;
        }
        assert(comment_lines(style@, lines(template@.skip(pos as int))) =~= Seq::<u8>::empty());
        assert(out@ =~= comment_lines(style@, lines(template@)));
        out.push(NEWLINE);
        Ok(HeaderBlock { bytes: out })
    }

    /// Turns what was read of the template file into the block, or into the
    /// error that ends the run.
    pub fn load(source: &Template, style: &[u8]) -> (built: Result<HeaderBlock, Error>)
        ensures
            match built {
                Ok(block) => loaded(*source, style@) == Ok::<Seq<u8>, Error>(block@),
                Err(e) => loaded(*source, style@) == Err::<Seq<u8>, Error>(e),
            },
    {
        match source {
            Template::Missing => Err(Error::NotFound),
            Template::Unreadable => Err(Error::Io),
            Template::Found(text) => HeaderBlock::build(text.as_slice(), style),
        }
    }

    /// The bytes of the block.
    pub fn as_bytes(&self) -> (bytes: &[u8])
        ensures
            bytes@ == self@,
    {
        self.bytes.as_slice()
    }
}

} // verus!
