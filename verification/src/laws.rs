use vstd::prelude::*;
use crate::bytes::{DOT, NEWLINE, SPACE};
use crate::error::Error;
use crate::extension::{eligible, lemma_extension_needs_dot};
use crate::header::{block_of, comment_line, comment_lines, lines};
use crate::rewrite::{has_header, insert_plan, outcome, remove_plan, Mode};
use crate::run::{settled, step_of, ActionView, ConfigView, EventView, Phase, Verdict};
use crate::trim::{
    lemma_trim_back, lemma_trim_front, lemma_trimmed_of_bare_front, space_len_back,
    space_len_front, trim_front, trimmed,
};

verus! {

/// What trimming leaves begins and ends with no white space.
pub proof fn law_trimmed_has_bare_ends(s: Seq<u8>)
    ensures
        space_len_front(trimmed(s)) == 0,
        space_len_back(trimmed(s)) == 0,
{
    let inner = trim_front(s);
    lemma_trim_front(s);
    lemma_trim_back(inner);
    let kept = trimmed(s);
    assert(kept =~= inner.subrange(0, kept.len() as int));
}

/// The block of a comment style that begins with no white space has the
/// header itself: it begins with what a file is searched for.
pub proof fn law_block_of_bare_style_has_header(template: Seq<u8>, style: Seq<u8>)
    requires
        style.len() > 0,
        space_len_front(style) == 0,
    ensures
        has_header(block_of(template, style), block_of(template, style)),
{
    let block = block_of(template, style);
    let ls = lines(template);
    if ls.len() == 0 {
        assert(block =~= seq![NEWLINE]);
        assert(block.skip(1) =~= Seq::<u8>::empty());
        assert(trim_front(block) == trim_front(block.skip(1)));
        assert(trimmed(block) =~= Seq::<u8>::empty());
    } else {
        let first = comment_line(style, ls.first());
        let rest = comment_lines(style, ls.drop_first()) + seq![NEWLINE];
        assert(block =~= first + rest);
        assert forall|i: int| 0 <= i < style.len() implies block[i] == style[i] by {
            assert(first[i] == style[i]);
        }
        assert(block[style.len() as int] == SPACE) by {
            assert(first[style.len() as int] == SPACE);
        }
        assert(space_len_front(block) == 0);
        lemma_trimmed_of_bare_front(block);
    }
}

/// A file that the block was inserted into has the header, where the block
/// has it itself.
pub proof fn law_inserted_is_present(block: Seq<u8>, content: Seq<u8>)
    requires
        has_header(block, block),
    ensures
        has_header(block, outcome(Mode::Insert, block, content)),
{
    if !has_header(block, content) {
        assert((block + content).subrange(0, trimmed(block).len() as int) =~= block.subrange(
            0,
            trimmed(block).len() as int,
        ));
    }
}

/// Inserting is idempotent: on a file that went through an insertion, a
/// second insertion writes nothing, so the file is as the first one left it.
/// This holds of the blocks that have the header themselves, and of no
/// others: a block that begins with white space is inserted again.
pub proof fn law_insert_idempotent(block: Seq<u8>, content: Seq<u8>)
    requires
        has_header(block, block),
    ensures
        insert_plan(block, outcome(Mode::Insert, block, content)) is None,
        outcome(Mode::Insert, block, outcome(Mode::Insert, block, content)) == outcome(
            Mode::Insert,
            block,
            content,
        ),
{
    law_inserted_is_present(block, content);
}

/// Removing undoes inserting: a file without the header that the block was
/// inserted into, and then removed from, holds its first bytes again, each of
/// them. This holds of the blocks that have the header themselves, and of no
/// others.
pub proof fn law_remove_undoes_insert(block: Seq<u8>, content: Seq<u8>)
    requires
        has_header(block, block),
        !has_header(block, content),
    ensures
        remove_plan(block, outcome(Mode::Insert, block, content)) == Ok::<Option<Seq<u8>>, Error>(
            Some(content),
        ),
        outcome(Mode::Remove, block, outcome(Mode::Insert, block, content)) == content,
{
    law_inserted_is_present(block, content);
    assert((block + content).skip(block.len() as int) =~= content);
}

/// Over a run, too, inserting is idempotent: an entry that was dealt with
/// once in insert mode is left as it is when it is dealt with again.
pub proof fn law_run_insert_idempotent(
    config: ConfigView,
    regular: bool,
    name: Seq<u8>,
    content: Seq<u8>,
)
    requires
        has_header(config.block, config.block),
        config.mode == Mode::Insert,
    ensures
        settled(config, regular, name, settled(config, regular, name, content)) == settled(
            config,
            regular,
            name,
            content,
        ),
{
    law_insert_idempotent(config.block, content);
}

/// Over a run, too, removing undoes inserting: a run in remove mode gives a
/// file without the header back as it was before a run in insert mode with
/// the same block and extensions.
pub proof fn law_run_remove_undoes_insert(
    inserting: ConfigView,
    removing: ConfigView,
    regular: bool,
    name: Seq<u8>,
    content: Seq<u8>,
)
    requires
        has_header(inserting.block, inserting.block),
        inserting.mode == Mode::Insert,
        removing.mode == Mode::Remove,
        removing.block == inserting.block,
        removing.extensions == inserting.extensions,
        !has_header(inserting.block, content),
    ensures
        settled(removing, regular, name, settled(inserting, regular, name, content)) == content,
{
    law_remove_undoes_insert(inserting.block, content);
}

/// A file whose name is not eligible, because its extension is not in the
/// set, is not read, whatever the run was waiting for; so it is left as it
/// is, whatever it holds and in either mode.
pub proof fn law_other_extension_untouched(
    config: ConfigView,
    phase: Phase,
    regular: bool,
    name: Seq<u8>,
    content: Seq<u8>,
)
    requires
        !eligible(config.extensions, name),
    ensures
        step_of(config, phase, EventView::Entry { regular, name }) == (
            Phase::Walking,
            ActionView::Advance(Verdict::Skipped),
        ),
        settled(config, regular, name, content) == content,
{
}

/// A file whose name holds no dot has no extension, and is left as it is
/// whatever the set of extensions holds.
pub proof fn law_no_extension_untouched(
    config: ConfigView,
    phase: Phase,
    regular: bool,
    name: Seq<u8>,
    content: Seq<u8>,
)
    requires
        !name.contains(DOT),
    ensures
        !eligible(config.extensions, name),
        step_of(config, phase, EventView::Entry { regular, name }) == (
            Phase::Walking,
            ActionView::Advance(Verdict::Skipped),
        ),
        settled(config, regular, name, content) == content,
{
    lemma_extension_needs_dot(name);
}

/// Bytes are handed out for writing only in answer to the bytes of a file
/// that the run had asked for, and a file is asked for only where it is a
/// regular file with an eligible name.
pub proof fn law_write_follows_read(config: ConfigView, phase: Phase, event: EventView)
    ensures
        step_of(config, phase, event).1 is Write ==> phase == Phase::Reading && event is Content,
        step_of(config, phase, event).0 == Phase::Reading ==> (event matches EventView::Entry {
            regular,
            name,
        } && regular && eligible(config.extensions, name)),
{
}

/// What an insertion leaves in a file depends on the template, the comment
/// style and the bytes of the file, and on nothing else: two runs that agree
/// on the three leave the same bytes.
pub proof fn law_insert_determined(
    template: Seq<u8>,
    style: Seq<u8>,
    content: Seq<u8>,
    other_template: Seq<u8>,
    other_style: Seq<u8>,
    other_content: Seq<u8>,
)
    requires
        template == other_template,
        style == other_style,
        content == other_content,
    ensures
        outcome(Mode::Insert, block_of(template, style), content) == outcome(
            Mode::Insert,
            block_of(other_template, other_style),
            other_content,
        ),
{
}

} // verus!
