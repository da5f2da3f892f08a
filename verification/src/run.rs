use vstd::prelude::*;
use crate::error::Error;
use crate::extension::{eligible, set_of, ExtensionSet};
use crate::header::{loaded, HeaderBlock, Template};
use crate::rewrite::{plan, Mode};

verus! {

/// What a run is given: the block, the extensions of the files to work on,
/// and whether the block is added or taken away.
#[derive(Debug)]
pub struct Config {
    pub block: HeaderBlock,
    pub extensions: ExtensionSet,
    pub mode: Mode,
}

/// A configuration as the rules see it.
pub struct ConfigView {
    pub block: Seq<u8>,
    pub extensions: Set<Seq<u8>>,
    pub mode: Mode,
}

impl View for Config {
    type V = ConfigView;

    open spec fn view(&self) -> ConfigView {
        ConfigView { block: self.block@, extensions: self.extensions@, mode: self.mode }
    }
}

/// What preparing a run gives. A template that could not be opened or read
/// ends the run as such, whatever the options; an empty comment style or an
/// empty list of extensions is refused once the template is there.
pub open spec fn prepared(
    source: Template,
    style: Seq<u8>,
    extensions: Seq<Vec<u8>>,
    mode: Mode,
) -> Result<ConfigView, Error> {
    match loaded(source, style) {
        Err(e) => Err(e),
        Ok(block) => if extensions.len() == 0 {
            Err(Error::InvalidConfig)
        } else {
            Ok(ConfigView { block, extensions: set_of(extensions), mode })
        },
    }
}

impl Config {
    /// Validates the options and builds the block, or says why the run cannot
    /// start.
    pub fn prepare(source: &Template, style: &[u8], extensions: Vec<Vec<u8>>, mode: Mode) -> (made:
        Result<Config, Error>)
        ensures
            match made {
                Ok(config) => prepared(*source, style@, extensions@, mode) == Ok::<
                    ConfigView,
                    Error,
                >(config@),
                Err(e) => prepared(*source, style@, extensions@, mode) == Err::<ConfigView, Error>(
                    e,
                ),
            },
    {
        let block = match HeaderBlock::load(source, style) {
            Ok(block) => block,
            Err(e) => {
                return Err(e);
            },
        };
        match ExtensionSet::new(extensions) {
            Ok(extensions) => Ok(Config { block, extensions, mode }),
            Err(e) => Err(e),
        }
    }
}

/// What the run is waiting for.
#[derive(Clone, Copy, Debug, PartialEq, Eq, Structural)]
pub enum Phase {
    /// The next entry of the tree.
    Walking,
    /// The bytes of the file that the last entry named.
    Reading,
    /// Word that the bytes handed out were written.
    Writing,
}

/// How the work on one entry ended.
#[derive(Clone, Copy, Debug, PartialEq, Eq, Structural)]
pub enum Verdict {
    /// The entry is no file that the run works on; it was not read.
    Skipped,
    /// The file was read and is left as it is.
    Unchanged,
    /// The file was written anew.
    Rewritten,
    /// The work on the entry was given up; the file was not written, or the
    /// writing failed.
    Failed(Error),
}

/// What the caller found while doing what the run asked for.
#[derive(Debug, PartialEq, Eq)]
pub enum Event {
    /// The walk came to an entry; `regular` says whether it is a regular
    /// file, and `name` is its file name without the directories.
    Entry { regular: bool, name: Vec<u8> },
    /// The walk could not give its next entry.
    WalkFailed,
    /// The bytes of the file that was to be read.
    Content(Vec<u8>),
    /// The file could not be read.
    ReadFailed,
    /// The bytes were written.
    Written,
    /// The bytes could not be written.
    WriteFailed,
}

/// An event as the rules see it.
pub enum EventView {
    Entry { regular: bool, name: Seq<u8> },
    WalkFailed,
    Content(Seq<u8>),
    ReadFailed,
    Written,
    WriteFailed,
}

impl View for Event {
    type V = EventView;

    open spec fn view(&self) -> EventView {
        match self {
            Event::Entry { regular, name } => EventView::Entry { regular: *regular, name: name@ },
            Event::WalkFailed => EventView::WalkFailed,
            Event::Content(bytes) => EventView::Content(bytes@),
            Event::ReadFailed => EventView::ReadFailed,
            Event::Written => EventView::Written,
            Event::WriteFailed => EventView::WriteFailed,
        }
    }
}

/// What the caller is to do next.
#[derive(Debug, PartialEq, Eq)]
pub enum Action {
    /// Go on to the next entry; the verdict is that of the entry just left.
    Advance(Verdict),
    /// Read the file of the entry and hand in its bytes.
    Read,
    /// Put these bytes in place of the file's content.
    Write(Vec<u8>),
}

/// An action as the rules see it.
pub enum ActionView {
    Advance(Verdict),
    Read,
    Write(Seq<u8>),
}

impl View for Action {
    type V = ActionView;

    open spec fn view(&self) -> ActionView {
        match self {
            Action::Advance(verdict) => ActionView::Advance(*verdict),
            Action::Read => ActionView::Read,
            Action::Write(bytes) => ActionView::Write(bytes@),
        }
    }
}

/// The rules of a run: the phase and the action that follow an event.
///
/// An entry is read where it is a regular file whose name is eligible, and
/// left alone otherwise. Bytes that were asked for are planned on: nothing to
/// write ends the work on the file, and so does a malformed header. A failure
/// of the walk, of reading or of writing is an I/O error for that entry. An
/// answer that was not asked for changes nothing and sends the caller on.
pub open spec fn step_of(config: ConfigView, phase: Phase, event: EventView) -> (
    Phase,
    ActionView,
) {
    match event {
        EventView::Entry { regular, name } => if regular && eligible(config.extensions, name) {
            (Phase::Reading, ActionView::Read)
        } else {
            (Phase::Walking, ActionView::Advance(Verdict::Skipped))
        },
        EventView::WalkFailed => (Phase::Walking, ActionView::Advance(Verdict::Failed(Error::Io))),
        EventView::Content(bytes) => if phase == Phase::Reading {
            match plan(config.mode, config.block, bytes) {
                Ok(Some(fresh)) => (Phase::Writing, ActionView::Write(fresh)),
                Ok(None) => (Phase::Walking, ActionView::Advance(Verdict::Unchanged)),
                Err(e) => (Phase::Walking, ActionView::Advance(Verdict::Failed(e))),
            }
        } else {
            (Phase::Walking, ActionView::Advance(Verdict::Skipped))
        },
        EventView::ReadFailed => if phase == Phase::Reading {
            (Phase::Walking, ActionView::Advance(Verdict::Failed(Error::Io)))
        } else {
            (Phase::Walking, ActionView::Advance(Verdict::Skipped))
        },
        EventView::Written => if phase == Phase::Writing {
            (Phase::Walking, ActionView::Advance(Verdict::Rewritten))
        } else {
            (Phase::Walking, ActionView::Advance(Verdict::Skipped))
        },
        EventView::WriteFailed => if phase == Phase::Writing {
            (Phase::Walking, ActionView::Advance(Verdict::Failed(Error::Io)))
        } else {
            (Phase::Walking, ActionView::Advance(Verdict::Skipped))
        },
    }
}

/// What a file holds after the run has dealt with its entry, where the caller
/// does as it is told and reading and writing succeed.
pub open spec fn settled(config: ConfigView, regular: bool, name: Seq<u8>, content: Seq<u8>) -> Seq<
    u8,
> {
    match step_of(config, Phase::Walking, EventView::Entry { regular, name }) {
        (phase, ActionView::Read) => match step_of(config, phase, EventView::Content(content)) {
            (_, ActionView::Write(fresh)) => fresh,
            _ => content,
        },
        _ => content,
    }
}

/// The failure that a run remembers: the first one.
pub open spec fn noted(failure: Option<Error>, action: ActionView) -> Option<Error> {
    match (failure, action) {
        (None, ActionView::Advance(Verdict::Failed(e))) => Some(e),
        _ => failure,
    }
}

/// The state of a run over a tree: what it waits for, and the first failure
/// among the entries so far. A failure ends the work on its entry and not the
/// run.
#[derive(Debug)]
pub struct Run {
    phase: Phase,
    failure: Option<Error>,
}

impl Run {
    /// What the run waits for.
    pub closed spec fn phase(&self) -> Phase {
        self.phase
    }

    /// The first failure so far.
    pub closed spec fn failure(&self) -> Option<Error> {
        self.failure
    }

    /// A run that has seen nothing yet.
    pub fn new() -> (run: Run)
        ensures
            run.phase() == Phase::Walking,
            run.failure() is None,
    {
        Run { phase: Phase::Walking, failure: None }
    }

    /// What the run waits for.
    pub fn waiting_for(&self) -> (phase: Phase)
        ensures
            phase == self.phase(),
    {
        self.phase
    }

    /// The first failure so far.
    pub fn first_failure(&self) -> (failure: Option<Error>)
        ensures
            failure == self.failure(),
    {
        self.failure
    }

    /// Takes what the caller found and says what to do next.
    pub fn step(&mut self, config: &Config, event: Event) -> (action: Action)
        ensures
            (final(self).phase(), action@) == step_of(config@, old(self).phase(), event@),
            final(self).failure() == noted(old(self).failure(), action@),
    {
        let phase = self.phase;
        let action = match event {
            Event::Entry { regular, name } => {
                if regular && config.extensions.selects(name.as_slice()) {
                    self.phase = Phase::Reading;
                    Action::Read
                } else {
                    self.phase = Phase::Walking;
                    Action::Advance(Verdict::Skipped)
                }
            },
            Event::WalkFailed => {
                self.phase = Phase::Walking;
                Action::Advance(Verdict::Failed(Error::Io))
            },
            Event::Content(bytes) => {
                if phase == Phase::Reading {
                    match config.block.rewrite(config.mode, bytes.as_slice()) {
                        Ok(Some(fresh)) => {
                            self.phase = Phase::Writing;
                            Action::Write(fresh)
                        },
                        Ok(None) => {
                            self.phase = Phase::Walking;
                            Action::Advance(Verdict::Unchanged)
                        },
                        Err(e) => {
                            self.phase = Phase::Walking;
                            Action::Advance(Verdict::Failed(e))
                        },
                    }
                } else {
                    self.phase = Phase::Walking;
                    Action::Advance(Verdict::Skipped)
                }
            },
            Event::ReadFailed => {
                self.phase = Phase::Walking;
                if phase == Phase::Reading {
                    Action::Advance(Verdict::Failed(Error::Io))
                } else {
                    Action::Advance(Verdict::Skipped)
                }
            },
            Event::Written => {
                self.phase = Phase::Walking;
                if phase == Phase::Writing {
                    Action::Advance(Verdict::Rewritten)
                } else {
                    Action::Advance(Verdict::Skipped)
                }
            },
            Event::WriteFailed => {
                self.phase = Phase::Walking;
                if phase == Phase::Writing {
                    Action::Advance(Verdict::Failed(Error::Io))
                } else {
                    Action::Advance(Verdict::Skipped)
                }
            },
        };
        if self.failure.is_none() {
            if let Action::Advance(Verdict::Failed(e)) = &action {
                self.failure = Some(*e);
            }
        }
        action
    }

    /// How the run ended: well where no entry failed, else with the first
    /// failure.
    pub fn finish(&self) -> (end: Result<(), Error>)
        ensures
            end == match self.failure() {
                Some(e) => Err::<(), Error>(e),
                None => Ok::<(), Error>(()),
            },
    {
        match self.failure {
            Some(e) => Err(e),
            None => Ok(()),
        }
    }
}

} // verus!
