use vstd::prelude::*;
use crate::bytes::{push_all, push_range, starts_with};
use crate::error::Error;
use crate::header::HeaderBlock;
use crate::trim::{trim, trimmed};

verus! {

/// Whether a run adds the header block or takes it away.
#[derive(Clone, Copy, Debug, PartialEq, Eq, Structural)]
pub enum Mode {
    Insert,
    Remove,
}

/// A file has the header where its first bytes are the block without the
/// white space at the block's two ends. What follows them in the file makes
/// no difference.
pub open spec fn has_header(block: Seq<u8>, content: Seq<u8>) -> bool {
    trimmed(block).is_prefix_of(content)
}

/// What inserting writes: nothing where the header is there already, else the
/// block followed by the file as it was.
pub open spec fn insert_plan(block: Seq<u8>, content: Seq<u8>) -> Option<Seq<u8>> {
    if has_header(block, content) {
        None
    } else {
        Some(block + content)
    }
}

/// What removing writes: nothing where the header is not there, else the file
/// without its first bytes, as many as the block has. A file that has the
/// header and holds fewer bytes than the block is malformed.
pub open spec fn remove_plan(block: Seq<u8>, content: Seq<u8>) -> Result<Option<Seq<u8>>, Error> {
    if !has_header(block, content) {
        Ok(None)
    } else if content.len() < block.len() {
        Err(Error::MalformedHeader)
    } else {
        Ok(Some(content.skip(block.len() as int)))
    }
}

/// What a run in the given mode writes to a file.
pub open spec fn plan(mode: Mode, block: Seq<u8>, content: Seq<u8>) -> Result<
    Option<Seq<u8>>,
    Error,
> {
    match mode {
        Mode::Insert => Ok(insert_plan(block, content)),
        Mode::Remove => remove_plan(block, content),
    }
}

/// What a file holds once the plan for it was carried out: the new bytes, or
/// the old ones where nothing is written or the file was found malformed.
pub open spec fn outcome(mode: Mode, block: Seq<u8>, content: Seq<u8>) -> Seq<u8> {
    match plan(mode, block, content) {
        Ok(Some(bytes)) => bytes,
        _ => content,
    }
}

/// The bytes to write, seen as a sequence.
pub open spec fn written(bytes: Option<Vec<u8>>) -> Option<Seq<u8>> {
    match bytes {
        Some(v) => Some(v@),
        None => None,
    }
}

/// The result of planning, seen as sequences.
pub open spec fn planned(result: Result<Option<Vec<u8>>, Error>) -> Result<Option<Seq<u8>>, Error> {
    match result {
        Ok(bytes) => Ok(written(bytes)),
        Err(e) => Err(e),
    }
}

impl HeaderBlock {
    /// Whether `content` has the header.
    pub fn is_present(&self, content: &[u8]) -> (present: bool)
        ensures
            present == has_header(self@, content@),
    {
        starts_with(content, trim(self.as_bytes()))
    }

    /// The bytes to write in place of `content` so that the file has the
    /// header; `None` where it has it already.
    pub fn insert(&self, content: &[u8]) -> (bytes: Option<Vec<u8>>)
        ensures
            written(bytes) == insert_plan(self@, content@),
    {
        if self.is_present(content) {
            return None;
        }
        let mut out: Vec<u8> = Vec::new();
        push_all(&mut out, self.as_bytes());
        push_all(&mut out, content);
        assert(out@ =~= self@ + content@);
        Some(out)
    }

    /// The bytes to write in place of `content` so that the file loses the
    /// header; `None` where it has none.
    pub fn remove(&self, content: &[u8]) -> (result: Result<Option<Vec<u8>>, Error>)
        ensures
            planned(result) == remove_plan(self@, content@),
    {
        if !self.is_present(content) {
            return Ok(None);
        }
        let count = self.as_bytes().len();
        if content.len() < count {
            return Err(Error::MalformedHeader);
        }
        let mut out: Vec<u8> = Vec::new();
        push_range(&mut out, content, count, content.len());
        assert(out@ =~= content@.skip(self@.len() as int));
        Ok(Some(out))
    }

    /// The bytes to write in place of `content` in the given mode.
    pub fn rewrite(&self, mode: Mode, content: &[u8]) -> (result: Result<Option<Vec<u8>>, Error>)
        ensures
            planned(result) == plan(mode, self@, content@),
    {
        match mode {
            Mode::Insert => Ok(self.insert(content)),
            Mode::Remove => self.remove(content),
        }
    }
}

} // verus!
