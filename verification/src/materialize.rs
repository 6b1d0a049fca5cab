//! Making a local file of a dropped resource that cannot be addressed
//! locally: its bytes are read, written to a fresh temporary file, and that
//! file is renamed so that its name ends in the resource's own name.
//!
//! The work on files is done by the caller. This module decides, step by
//! step, what is to be done next and what becomes of the item.

use vstd::prelude::*;

verus! {

/// What becomes of a dropped item.
#[derive(Clone, Copy, Debug, PartialEq, Eq, Structural)]
pub enum Outcome {
    /// The item is local already: it is entered as it is.
    Unchanged,
    /// The temporary file is entered under the name it was created with.
    Temp,
    /// The temporary file is entered under its new name.
    Renamed,
    /// The item is left out of the batch.
    Dropped,
}

/// The reply that is waited for.
#[derive(Clone, Copy, Debug, PartialEq, Eq, Structural)]
pub enum Phase {
    DisplayName,
    TempFile,
    Bytes,
    Write,
    Rename,
    Finished(Outcome),
}

/// What the caller is to do next.
#[derive(Clone, Debug, PartialEq, Eq)]
pub enum Request {
    /// Ask for the display name of the resource.
    QueryDisplayName,
    /// Create a temporary file with a name of its own.
    CreateTemp,
    /// Read all bytes of the resource.
    LoadBytes,
    /// Write the bytes to the temporary file.
    WriteBytes,
    /// Give the temporary file this name.
    Rename(String),
    /// Nothing more: this is what becomes of the item.
    Finish(Outcome),
}

/// What the caller reports of the step it was asked for.
#[derive(Clone, Debug, PartialEq, Eq)]
pub enum Reply {
    /// The display name, or `None` if it could not be had.
    DisplayName(Option<String>),
    /// The base name of the temporary file, or `None` if none could be created.
    TempCreated(Option<String>),
    /// Whether the bytes were read.
    BytesLoaded(bool),
    /// Whether the bytes were written.
    Written(bool),
    /// Whether the file was renamed.
    Renamed(bool),
}

/// The steps for one dropped item.
#[derive(Clone, Debug, PartialEq, Eq)]
pub struct Materializer {
    phase: Phase,
    display_name: String,
    temp_name: String,
}

/// A `Materializer` as contracts see it.
pub struct MaterializerView {
    pub phase: Phase,
    pub display_name: Seq<char>,
    pub temp_name: Seq<char>,
}

/// A `Request` as contracts see it.
pub enum RequestView {
    QueryDisplayName,
    CreateTemp,
    LoadBytes,
    WriteBytes,
    Rename(Seq<char>),
    Finish(Outcome),
}

impl View for Request {
    type V = RequestView;

    open spec fn view(&self) -> RequestView {
        match *self {
            Request::QueryDisplayName => RequestView::QueryDisplayName,
            Request::CreateTemp => RequestView::CreateTemp,
            Request::LoadBytes => RequestView::LoadBytes,
            Request::WriteBytes => RequestView::WriteBytes,
            Request::Rename(name) => RequestView::Rename(name@),
            Request::Finish(outcome) => RequestView::Finish(outcome),
        }
    }
}

impl View for Materializer {
    type V = MaterializerView;

    closed spec fn view(&self) -> MaterializerView {
        MaterializerView {
            phase: self.phase,
            display_name: self.display_name@,
            temp_name: self.temp_name@,
        }
    }
}

/// The name that the temporary file is to get: the name it was created
/// with, followed by the display name of the resource.
pub open spec fn materialized_name(temp_name: Seq<char>, display_name: Seq<char>) -> Seq<char> {
    temp_name + display_name
}

/// The state at the start, for an item that is local or is not.
pub open spec fn start_state(local: bool) -> MaterializerView {
    MaterializerView {
        phase: if local {
            Phase::Finished(Outcome::Unchanged)
        } else {
            Phase::DisplayName
        },
        display_name: Seq::empty(),
        temp_name: Seq::empty(),
    }
}

/// The state that stops with `outcome`.
pub open spec fn finished(state: MaterializerView, outcome: Outcome) -> MaterializerView {
    MaterializerView { phase: Phase::Finished(outcome), ..state }
}

/// The state after `reply`.
///
/// A step that fails before the bytes are there drops the item. A failed
/// write is passed over. A failed rename keeps the temporary file under the
/// name it has. A reply that was not waited for drops the item, and nothing
/// moves a state that has finished.
pub open spec fn next_state(state: MaterializerView, reply: Reply) -> MaterializerView {
    match (state.phase, reply) {
        (Phase::Finished(_), _) => state,
        (Phase::DisplayName, Reply::DisplayName(Some(name))) => MaterializerView {
            phase: Phase::TempFile,
            display_name: name@,
            ..state
        },
        (Phase::TempFile, Reply::TempCreated(Some(name))) => MaterializerView {
            phase: Phase::Bytes,
            temp_name: name@,
            ..state
        },
        (Phase::Bytes, Reply::BytesLoaded(true)) => MaterializerView {
            phase: Phase::Write,
            ..state
        },
        (Phase::Write, Reply::Written(_)) => MaterializerView { phase: Phase::Rename, ..state },
        (Phase::Rename, Reply::Renamed(true)) => finished(state, Outcome::Renamed),
        (Phase::Rename, Reply::Renamed(false)) => finished(state, Outcome::Temp),
        _ => finished(state, Outcome::Dropped),
    }
}

/// What is to be done in `state`.
pub open spec fn request_in(state: MaterializerView) -> RequestView {
    match state.phase {
        Phase::DisplayName => RequestView::QueryDisplayName,
        Phase::TempFile => RequestView::CreateTemp,
        Phase::Bytes => RequestView::LoadBytes,
        Phase::Write => RequestView::WriteBytes,
        Phase::Rename => RequestView::Rename(
            materialized_name(state.temp_name, state.display_name),
        ),
        Phase::Finished(outcome) => RequestView::Finish(outcome),
    }
}

/// The state after the replies of `replies`, one after the other.
pub open spec fn state_after(state: MaterializerView, replies: Seq<Reply>) -> MaterializerView
    decreases replies.len(),
{
    if replies.len() == 0 {
        state
    } else {
        next_state(state_after(state, replies.drop_last()), replies.last())
    }
}

/// What becomes of an item that is not local, by what its steps report.
pub open spec fn outcome_of(
    display_name: Option<String>,
    temp_name: Option<String>,
    bytes_loaded: bool,
    renamed: bool,
) -> Outcome {
    if display_name is None || temp_name is None || !bytes_loaded {
        Outcome::Dropped
    } else if renamed {
        Outcome::Renamed
    } else {
        Outcome::Temp
    }
}

impl Materializer {
    /// Begins the steps for one item. A local item is finished at once and
    /// entered as it is; for any other the display name is asked for first.
    pub fn begin(local: bool) -> (started: (Materializer, Request))
        ensures
            started.0@ == start_state(local),
            started.1@ == request_in(start_state(local)),
    {
        let phase = if local {
            Phase::Finished(Outcome::Unchanged)
        } else {
            Phase::DisplayName
        };
        let steps = Materializer { phase, display_name: String::new(), temp_name: String::new() };
        let request = steps.request();
        (steps, request)
    }

    /// What is to be done now.
    pub fn request(&self) -> (request: Request)
        ensures
            request@ == request_in(self@),
    {
        match self.phase {
            Phase::DisplayName => Request::QueryDisplayName,
            Phase::TempFile => Request::CreateTemp,
            Phase::Bytes => Request::LoadBytes,
            Phase::Write => Request::WriteBytes,
            Phase::Rename => {
                let mut name = self.temp_name.clone();
                name.append(self.display_name.as_str());
                Request::Rename(name)
            },
            Phase::Finished(outcome) => Request::Finish(outcome),
        }
    }

    /// Takes the report of the step that was asked for, and says what is to
    /// be done next.
    pub fn advance(&mut self, reply: Reply) -> (request: Request)
        ensures
            final(self)@ == next_state(old(self)@, reply),
            request@ == request_in(final(self)@),
    {
        match self.phase {
            Phase::Finished(_) => {},
            Phase::DisplayName => match reply {
                Reply::DisplayName(Some(name)) => {
                    self.display_name = name;
                    self.phase = Phase::TempFile;
                },
                _ => {
                    self.phase = Phase::Finished(Outcome::Dropped);
                },
            },
            Phase::TempFile => match reply {
                Reply::TempCreated(Some(name)) => {
                    self.temp_name = name;
                    self.phase = Phase::Bytes;
                },
                _ => {
                    self.phase = Phase::Finished(Outcome::Dropped);
                },
            },
            Phase::Bytes => match reply {
                Reply::BytesLoaded(true) => {
                    self.phase = Phase::Write;
                },
                _ => {
                    self.phase = Phase::Finished(Outcome::Dropped);
                },
            },
            Phase::Write => match reply {
                Reply::Written(_) => {
                    self.phase = Phase::Rename;
                },
                _ => {
                    self.phase = Phase::Finished(Outcome::Dropped);
                },
            },
            Phase::Rename => match reply {
                Reply::Renamed(true) => {
                    self.phase = Phase::Finished(Outcome::Renamed);
                },
                Reply::Renamed(false) => {
                    self.phase = Phase::Finished(Outcome::Temp);
                },
                _ => {
                    self.phase = Phase::Finished(Outcome::Dropped);
                },
            },
        }
        self.request()
    }

    /// What became of the item, once the steps have finished.
    pub fn outcome(&self) -> (outcome: Option<Outcome>)
        ensures
            outcome == match self@.phase {
                Phase::Finished(o) => Some(o),
                _ => None,
            },
    {
        match self.phase {
            Phase::Finished(outcome) => Some(outcome),
            _ => None,
        }
    }
}

/// The steps for an item that is not local finish after five reports at the
/// latest. The item is dropped if its name, the temporary file or its bytes
/// could not be had; else it is entered, under the new name if the rename
/// went through and under the temporary name if not. Whether the write went
/// through makes no difference.
pub proof fn law_materialize_outcome(
    display_name: Option<String>,
    temp_name: Option<String>,
    bytes_loaded: bool,
    written: bool,
    renamed: bool,
)
    ensures
        state_after(
            start_state(false),
            seq![
                Reply::DisplayName(display_name),
                Reply::TempCreated(temp_name),
                Reply::BytesLoaded(bytes_loaded),
                Reply::Written(written),
                Reply::Renamed(renamed),
            ],
        ).phase == Phase::Finished(outcome_of(display_name, temp_name, bytes_loaded, renamed)),
{
    let replies = seq![
        Reply::DisplayName(display_name),
        Reply::TempCreated(temp_name),
        Reply::BytesLoaded(bytes_loaded),
        Reply::Written(written),
        Reply::Renamed(renamed),
    ];
    let start = start_state(false);
    let r4 = replies.drop_last();
    let r3 = r4.drop_last();
    let r2 = r3.drop_last();
    let r1 = r2.drop_last();
    let r0 = r1.drop_last();
    assert(r0.len() == 0);
    assert(state_after(start, r0) == start);
    assert(state_after(start, r1) == next_state(start, replies[0])) by {
        assert(r1.last() == replies[0]);
    }
    assert(state_after(start, r2) == next_state(state_after(start, r1), replies[1])) by {
        assert(r2.last() == replies[1]);
    }
    assert(state_after(start, r3) == next_state(state_after(start, r2), replies[2])) by {
        assert(r3.last() == replies[2]);
    }
    assert(state_after(start, r4) == next_state(state_after(start, r3), replies[3])) by {
        assert(r4.last() == replies[3]);
    }
    assert(state_after(start, replies) == next_state(state_after(start, r4), replies[4]));
}

/// Once the steps have finished, no report changes what became of the item.
pub proof fn law_finished_stays(state: MaterializerView, replies: Seq<Reply>)
    requires
        state.phase is Finished,
    ensures
        state_after(state, replies) == state,
    decreases replies.len(),
{
    if replies.len() > 0 {
        law_finished_stays(state, replies.drop_last());
    }
}

} // verus!
