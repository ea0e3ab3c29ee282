//! The state file: read-only at rest, writable only while it is rewritten.

use vstd::prelude::*;
use crate::effect::{opt_action, Action, ActionView, Event, EventView};
use crate::error::{Error, ErrorKind, ErrorView};
use crate::paths::{expand_home, expanded, parent_dir, parent_of};
use crate::state::{distinct_names, normalized, valid, Record, State, StateView};
use crate::text::chain;

verus! {

/// The permission bits of the state file at rest: everyone may read it,
/// nobody may write it.
pub const READONLY_MODE: u32 = 0o444;

/// The permission bits of the state file while it is rewritten.
pub const WRITABLE_MODE: u32 = 0o644;

/// The bits that give anyone the right to write.
pub const WRITE_BITS: u32 = 0o222;

/// The one place of the state file.
pub open spec fn state_file(home: Seq<char>) -> Seq<char> {
    expanded("~/.dotsync.state.json"@, home)
}

/// The one place of the state file.
pub fn state_file_path(home: &str) -> (r: String)
    ensures
        r@ == state_file(home@),
{
    expand_home("~/.dotsync.state.json", home)
}

/// What reading the state file gave.
#[derive(Clone, Debug, PartialEq, Eq)]
pub enum ReadOutcome {
    /// There is no state file.
    Missing,
    /// There is one, and it could not be read or is not a record.
    Unusable { detail: String },
    /// The record that the file holds.
    Parsed(Record),
}

/// What `load` makes of the reading of the state file.
pub open spec fn loaded(outcome: ReadOutcome) -> Result<StateView, ErrorView> {
    match outcome {
        ReadOutcome::Missing => Err(
            ErrorView {
                kind: ErrorKind::NotInitialized,
                message: "failed to read state: there is no state file"@,
            },
        ),
        ReadOutcome::Unusable { detail } => Err(
            ErrorView { kind: ErrorKind::Corrupt, message: "failed to read state: "@ + detail@ },
        ),
        ReadOutcome::Parsed(record) => taken_up(record@),
    }
}

/// What `load` makes of a record that was read: the state it holds, with an
/// empty history taken as none and an active profile that is not among the
/// profiles taken as `default`; a record in which two profiles share a name
/// is corrupt.
pub open spec fn taken_up(record: StateView) -> Result<StateView, ErrorView> {
    if distinct_names(record.profiles) {
        Ok(normalized(record))
    } else {
        Err(
            ErrorView {
                kind: ErrorKind::Corrupt,
                message: "failed to read state: "@ + "two profiles share a name"@,
            },
        )
    }
}

/// Takes up the state from what reading the state file gave: without a file
/// nothing is initialized, and a file that is no record is corrupt.
pub fn load(outcome: ReadOutcome) -> (r: Result<State, Error>)
    ensures
        match r {
            Ok(state) => loaded(outcome) == Ok::<StateView, ErrorView>(state@) && valid(state@),
            Err(e) => loaded(outcome) == Err::<StateView, ErrorView>(e@),
        },
{
    match outcome {
        ReadOutcome::Missing => Err(
            Error {
                kind: ErrorKind::NotInitialized,
                message: "failed to read state: there is no state file".to_owned(),
            },
        ),
        ReadOutcome::Unusable { detail } => Err(
            Error {
                kind: ErrorKind::Corrupt,
                message: chain("failed to read state: ", detail.as_str()),
            },
        ),
        ReadOutcome::Parsed(record) => match State::new(record) {
            Ok(state) => Ok(state),
            Err(e) => Err(
                Error {
                    kind: ErrorKind::Corrupt,
                    message: chain("failed to read state: ", e.message.as_str()),
                },
            ),
        },
    }
}

/// Where the writing of the state file stands.
#[derive(Debug)]
pub enum SavePhase {
    /// The directories above the state file are being made.
    Preparing,
    /// The state file is looked for.
    Probing,
    /// The state file of before is being made writable.
    Unlocking,
    /// The record is being written.
    Writing,
    /// The state file is being made read-only.
    Locking,
    /// The record is written and read-only.
    Done,
    /// The writing failed.
    Failed(Error),
}

/// `SavePhase` as a mathematical value.
pub enum SavePhaseView {
    Preparing,
    Probing,
    Unlocking,
    Writing,
    Locking,
    Done,
    Failed(ErrorView),
}

impl View for SavePhase {
    type V = SavePhaseView;

    open spec fn view(&self) -> SavePhaseView {
        match self {
            SavePhase::Preparing => SavePhaseView::Preparing,
            SavePhase::Probing => SavePhaseView::Probing,
            SavePhase::Unlocking => SavePhaseView::Unlocking,
            SavePhase::Writing => SavePhaseView::Writing,
            SavePhase::Locking => SavePhaseView::Locking,
            SavePhase::Done => SavePhaseView::Done,
            SavePhase::Failed(e) => SavePhaseView::Failed(e@),
        }
    }
}

/// The writing of the state file under way.
#[derive(Debug)]
pub struct Save {
    path: String,
    record: Record,
    phase: SavePhase,
}

/// `Save` as a mathematical value.
pub struct SaveView {
    pub path: Seq<char>,
    pub record: StateView,
    pub phase: SavePhaseView,
}

impl View for Save {
    type V = SaveView;

    closed spec fn view(&self) -> SaveView {
        SaveView { path: self.path@, record: self.record@, phase: self.phase@ }
    }
}

impl SaveView {
    /// The same, in another phase.
    pub open spec fn at(self, phase: SavePhaseView) -> SaveView {
        SaveView { phase, ..self }
    }

    /// The same, ended in failure.
    pub open spec fn failed(self, e: EventView) -> SaveView {
        self.at(
            SavePhaseView::Failed(
                ErrorView {
                    kind: ErrorKind::Unwritable,
                    message: "failed to write state file: "@ + e.detail(),
                },
            ),
        )
    }

    /// The save, about to write its record.
    pub open spec fn write(self) -> (SaveView, Option<ActionView>) {
        (
            self.at(SavePhaseView::Writing),
            Some(ActionView::WriteRecord { path: self.path, record: self.record }),
        )
    }

    /// How the writing ended, once it has.
    pub open spec fn outcome(self) -> Option<Result<(), ErrorView>> {
        match self.phase {
            SavePhaseView::Done => Some(Ok(())),
            SavePhaseView::Failed(e) => Some(Err(e)),
            _ => None,
        }
    }
}

/// The writing of a state at its start, and the first thing it asks for:
/// the directory that the state file lies in is made with all above it, or,
/// where the state file lies in no directory, the state file is looked for
/// at once.
pub open spec fn start_save(state: StateView, home: Seq<char>) -> (SaveView, Option<ActionView>) {
    let path = state_file(home);
    let s = SaveView { path, record: state, phase: SavePhaseView::Preparing };
    match parent_of(path) {
        Some(parent) => (s, Some(ActionView::MakeDirs { path: parent })),
        None => (s.at(SavePhaseView::Probing), Some(ActionView::Probe { path })),
    }
}

/// The writing after an event, and the next thing it asks for: a state file
/// of before is made writable first, the record is written, and the file is
/// made read-only.
pub open spec fn next_save(s: SaveView, e: EventView) -> (SaveView, Option<ActionView>) {
    match s.phase {
        SavePhaseView::Preparing => if e.affirms() {
            (s.at(SavePhaseView::Probing), Some(ActionView::Probe { path: s.path }))
        } else {
            (s.failed(e), None)
        },
        SavePhaseView::Probing => if e.affirms() {
            (
                s.at(SavePhaseView::Unlocking),
                Some(ActionView::SetMode { path: s.path, mode: WRITABLE_MODE }),
            )
        } else {
            s.write()
        },
        SavePhaseView::Unlocking => if e.affirms() {
            s.write()
        } else {
            (s.failed(e), None)
        },
        SavePhaseView::Writing => if e.affirms() {
            (
                s.at(SavePhaseView::Locking),
                Some(ActionView::SetMode { path: s.path, mode: READONLY_MODE }),
            )
        } else {
            (s.failed(e), None)
        },
        SavePhaseView::Locking => if e.affirms() {
            (s.at(SavePhaseView::Done), None)
        } else {
            (s.failed(e), None)
        },
        SavePhaseView::Done => (s, None),
        SavePhaseView::Failed(_) => (s, None),
    }
}

fn unwritable(prefix: &str, event: &Event) -> (r: Error)
    ensures
        r@ == (ErrorView { kind: ErrorKind::Unwritable, message: prefix@ + event@.detail() }),
{
    Error { kind: ErrorKind::Unwritable, message: chain(prefix, event.detail().as_str()) }
}

impl Save {
    /// Starts writing `state` to the state file.
    pub fn begin(state: &State, home: &str) -> (r: (Save, Option<Action>))
        ensures
            (r.0@, opt_action(r.1)) == start_save(state@, home@),
    {
        let path = state_file_path(home);
        match parent_dir(path.as_str()) {
            Some(parent) => (
                Save { path, record: state.record(), phase: SavePhase::Preparing },
                Some(Action::MakeDirs { path: parent }),
            ),
            None => {
                let action = Action::Probe { path: path.clone() };
                (Save { path, record: state.record(), phase: SavePhase::Probing }, Some(action))
            },
        }
    }

    /// Takes the event that answers the last action, and says what to do
    /// next. With nothing left to do, the writing has ended.
    pub fn step(self, event: &Event) -> (r: (Save, Option<Action>))
        ensures
            (r.0@, opt_action(r.1)) == next_save(self@, event@),
    {
        let yes = event.affirms();
        let Save { path, record, phase } = self;
        let failure = SavePhase::Failed(unwritable("failed to write state file: ", event));
        let (phase, action) = match phase {
            SavePhase::Preparing => if yes {
                (SavePhase::Probing, Some(Action::Probe { path: path.clone() }))
            } else {
                (failure, None)
            },
            SavePhase::Probing => if yes {
                (
                    SavePhase::Unlocking,
                    Some(Action::SetMode { path: path.clone(), mode: WRITABLE_MODE }),
                )
            } else {
                (
                    SavePhase::Writing,
                    Some(Action::WriteRecord { path: path.clone(), record: record.duplicate() }),
                )
            },
            SavePhase::Unlocking => if yes {
                (
                    SavePhase::Writing,
                    Some(Action::WriteRecord { path: path.clone(), record: record.duplicate() }),
                )
            } else {
                (failure, None)
            },
            SavePhase::Writing => if yes {
                (
                    SavePhase::Locking,
                    Some(Action::SetMode { path: path.clone(), mode: READONLY_MODE }),
                )
            } else {
                (failure, None)
            },
            SavePhase::Locking => if yes {
                (SavePhase::Done, None)
            } else {
                (failure, None)
            },
            SavePhase::Done => (SavePhase::Done, None),
            SavePhase::Failed(error) => (SavePhase::Failed(error), None),
        };
        (Save { path, record, phase }, action)
    }

    /// How the writing ended, once it has.
    pub fn outcome(&self) -> (r: Option<Result<(), Error>>)
        ensures
            match r {
                Some(Ok(_)) => self@.outcome() == Some(Ok::<(), ErrorView>(())),
                Some(Err(e)) => self@.outcome() == Some(Err::<(), ErrorView>(e@)),
                None => self@.outcome() is None,
            },
    {
        match &self.phase {
            SavePhase::Done => Some(Ok(())),
            SavePhase::Failed(e) => Some(Err(e.duplicate())),
            _ => None,
        }
    }
}

/// Where the removal of the state file stands.
#[derive(Debug)]
pub enum DeletePhase {
    /// The state file is looked for.
    Probing,
    /// The state file is being removed.
    Removing,
    /// There is no state file.
    Done,
    /// The removal failed.
    Failed(Error),
}

/// `DeletePhase` as a mathematical value.
pub enum DeletePhaseView {
    Probing,
    Removing,
    Done,
    Failed(ErrorView),
}

impl View for DeletePhase {
    type V = DeletePhaseView;

    open spec fn view(&self) -> DeletePhaseView {
        match self {
            DeletePhase::Probing => DeletePhaseView::Probing,
            DeletePhase::Removing => DeletePhaseView::Removing,
            DeletePhase::Done => DeletePhaseView::Done,
            DeletePhase::Failed(e) => DeletePhaseView::Failed(e@),
        }
    }
}

/// The removal of the state file under way.
#[derive(Debug)]
pub struct Delete {
    path: String,
    phase: DeletePhase,
}

/// `Delete` as a mathematical value.
pub struct DeleteView {
    pub path: Seq<char>,
    pub phase: DeletePhaseView,
}

impl View for Delete {
    type V = DeleteView;

    closed spec fn view(&self) -> DeleteView {
        DeleteView { path: self.path@, phase: self.phase@ }
    }
}

impl DeleteView {
    /// How the removal ended, once it has.
    pub open spec fn outcome(self) -> Option<Result<(), ErrorView>> {
        match self.phase {
            DeletePhaseView::Done => Some(Ok(())),
            DeletePhaseView::Failed(e) => Some(Err(e)),
            _ => None,
        }
    }
}

/// The removal of the state file at its start.
pub open spec fn start_delete(home: Seq<char>) -> (DeleteView, Option<ActionView>) {
    let path = state_file(home);
    (DeleteView { path, phase: DeletePhaseView::Probing }, Some(ActionView::Probe { path }))
}

/// The removal after an event: a state file that is not there needs no
/// removing.
pub open spec fn next_delete(s: DeleteView, e: EventView) -> (DeleteView, Option<ActionView>) {
    match s.phase {
        DeletePhaseView::Probing => if e.affirms() {
            (
                DeleteView { phase: DeletePhaseView::Removing, ..s },
                Some(ActionView::RemoveFile { path: s.path }),
            )
        } else {
            (DeleteView { phase: DeletePhaseView::Done, ..s }, None)
        },
        DeletePhaseView::Removing => if e.affirms() {
            (DeleteView { phase: DeletePhaseView::Done, ..s }, None)
        } else {
            (
                DeleteView {
                    phase: DeletePhaseView::Failed(
                        ErrorView {
                            kind: ErrorKind::Unwritable,
                            message: "failed to remove state file: "@ + e.detail(),
                        },
                    ),
                    ..s
                },
                None,
            )
        },
        DeletePhaseView::Done => (s, None),
        DeletePhaseView::Failed(_) => (s, None),
    }
}

impl Delete {
    /// Starts removing the state file.
    pub fn begin(home: &str) -> (r: (Delete, Option<Action>))
        ensures
            (r.0@, opt_action(r.1)) == start_delete(home@),
    {
        let path = state_file_path(home);
        let action = Action::Probe { path: path.clone() };
        (Delete { path, phase: DeletePhase::Probing }, Some(action))
    }

    /// Takes the event that answers the last action, and says what to do
    /// next. With nothing left to do, the removal has ended.
    pub fn step(self, event: &Event) -> (r: (Delete, Option<Action>))
        ensures
            (r.0@, opt_action(r.1)) == next_delete(self@, event@),
    {
        let yes = event.affirms();
        let Delete { path, phase } = self;
        let (phase, action) = match phase {
            DeletePhase::Probing => if yes {
                (DeletePhase::Removing, Some(Action::RemoveFile { path: path.clone() }))
            } else {
                (DeletePhase::Done, None)
            },
            DeletePhase::Removing => if yes {
                (DeletePhase::Done, None)
            } else {
                (DeletePhase::Failed(unwritable("failed to remove state file: ", event)), None)
            },
            DeletePhase::Done => (DeletePhase::Done, None),
            DeletePhase::Failed(error) => (DeletePhase::Failed(error), None),
        };
        (Delete { path, phase }, action)
    }

    /// How the removal ended, once it has.
    pub fn outcome(&self) -> (r: Option<Result<(), Error>>)
        ensures
            match r {
                Some(Ok(_)) => self@.outcome() == Some(Ok::<(), ErrorView>(())),
                Some(Err(e)) => self@.outcome() == Some(Err::<(), ErrorView>(e@)),
                None => self@.outcome() is None,
            },
    {
        match &self.phase {
            DeletePhase::Done => Some(Ok(())),
            DeletePhase::Failed(e) => Some(Err(e.duplicate())),
            _ => None,
        }
    }
}

/// The mode of the state file at rest gives nobody the right to write, and
/// everybody the right to read; the mode it has while it is rewritten gives
/// its owner the right to write.
pub proof fn modes_are_as_named()
    ensures
        READONLY_MODE & WRITE_BITS == 0,
        READONLY_MODE & 0o444 == 0o444,
        WRITABLE_MODE & 0o200 == 0o200,
{
    assert(0o444u32 & 0o222u32 == 0) by (bit_vector);
    assert(0o444u32 & 0o444u32 == 0o444u32) by (bit_vector);
    assert(0o644u32 & 0o200u32 == 0o200u32) by (bit_vector);
}

/// A save ends well only by making the state file read-only: success comes
/// with the news that the mode was set, and the mode asked for after the
/// write is the read-only one.
pub proof fn saved_record_is_read_only(s: SaveView, e: EventView)
    ensures
        s.outcome() is None && next_save(s, e).0.phase is Done ==> s.phase is Locking
            && e.affirms(),
        next_save(s, e).0.phase is Locking ==> next_save(s, e).1 == Some(
            ActionView::SetMode { path: s.path, mode: READONLY_MODE },
        ),
        s.phase is Writing && e.affirms() ==> next_save(s, e).0.phase is Locking,
{
}

/// A state file that is there is made writable before it is written, so
/// that a save over a read-only file of before succeeds; the record is
/// written at no other point.
pub proof fn existing_record_is_unlocked_first(s: SaveView, e: EventView)
    ensures
        s.phase is Probing && e.affirms() ==> next_save(s, e).1 == Some(
            ActionView::SetMode { path: s.path, mode: WRITABLE_MODE },
        ),
        next_save(s, e).1 matches Some(ActionView::WriteRecord { path, record }) ==> {
            &&& path == s.path
            &&& record == s.record
            &&& (s.phase is Probing && !e.affirms()) || (s.phase is Unlocking && e.affirms())
        },
{
}

/// What a save asks for, in order, where everything asked for is done:
/// with a state file of before, and without one.
pub open spec fn save_script(state: StateView, home: Seq<char>, exists: bool) -> Seq<ActionView> {
    let path = state_file(home);
    let prepare = match parent_of(path) {
        Some(parent) => seq![ActionView::MakeDirs { path: parent }],
        None => Seq::empty(),
    };
    let unlock = if exists {
        seq![ActionView::SetMode { path, mode: WRITABLE_MODE }]
    } else {
        Seq::empty()
    };
    prepare + seq![ActionView::Probe { path }] + unlock + seq![
        ActionView::WriteRecord { path, record: state },
        ActionView::SetMode { path, mode: READONLY_MODE },
    ]
}

/// Saving and loading gives back what was saved: a save writes the state
/// as it is to the state file, and the record that it writes is taken up as
/// the same state, field for field.
pub proof fn saved_state_loads_unchanged(state: StateView, home: Seq<char>, exists: bool)
    requires
        valid(state),
    ensures
        save_script(state, home, exists).contains(
            ActionView::WriteRecord { path: state_file(home), record: state },
        ),
        taken_up(state) == Ok::<StateView, ErrorView>(state),
{
    let script = save_script(state, home, exists);
    let written = ActionView::WriteRecord { path: state_file(home), record: state };
    assert(script[script.len() - 2] == written);
}

/// What a save has asked for after `steps` answers, the first action
/// counted, where everything asked for is done and the state file is there
/// or not as `exists` says.
pub open spec fn save_trace(
    s: SaveView,
    pending: Option<ActionView>,
    exists: bool,
    steps: nat,
) -> (SaveView, Seq<ActionView>)
    decreases steps,
{
    match pending {
        None => (s, Seq::empty()),
        Some(action) => if steps == 0 {
            (s, seq![action])
        } else {
            let e = if s.phase is Probing {
                EventView::Found { present: exists }
            } else {
                EventView::Completed
            };
            let (t, then) = next_save(s, e);
            let (end, rest) = save_trace(t, then, exists, (steps - 1) as nat);
            (end, seq![action] + rest)
        },
    }
}

/// Where nothing fails, a save does exactly the steps of its script and
/// ends well: whether or not a state file was there, the last thing done to
/// it is to make it read-only. A second save meets the read-only file of
/// the first and goes through as well.
pub proof fn save_follows_its_script(state: StateView, home: Seq<char>, exists: bool)
    ensures
        ({
            let (s, first) = start_save(state, home);
            let (end, actions) = save_trace(s, first, exists, 5);
            &&& end.outcome() == Some(Ok::<(), ErrorView>(()))
            &&& actions == save_script(state, home, exists)
            &&& actions.last() == ActionView::SetMode {
                path: state_file(home),
                mode: READONLY_MODE,
            }
        }),
{
    reveal_with_fuel(save_trace, 7);
    let (s, first) = start_save(state, home);
    let (end, actions) = save_trace(s, first, exists, 5);
    assert(actions =~= save_script(state, home, exists));
}

} // verus!
