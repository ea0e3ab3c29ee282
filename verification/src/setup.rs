//! `setup`: back up the files of a profile, link them into the fetched tree,
//! and record the run in the state.

use vstd::prelude::*;
use crate::backup::{Backup, BackupView};
use crate::clock::Stamps;
use crate::effect::{opt_action, Action, ActionView, Event, EventView};
use crate::error::{Error, ErrorKind, ErrorView};
use crate::link::{Link, LinkView};
use crate::state::{
    extended,
    has_profile,
    lookup,
    resolved,
    resolved_name,
    valid,
    History,
    HistoryView,
    State,
    StateView,
};
use crate::store::{next_save, start_save, state_file, Save, SaveView};
use crate::text::{copy_texts, texts};

verus! {

/// Where a setup stands.
#[derive(Debug)]
pub enum SetupPhase {
    /// The files of the profile are being backed up.
    BackingUp(Backup),
    /// The backup is complete, in `archive`, and the files are being linked.
    Linking { link: Link, archive: String },
    /// The files are linked, and the state record is being written.
    Saving(Save),
    /// The profile is set up and the run is recorded.
    Done,
    /// The setup failed. Nothing that was done is undone.
    Failed(Error),
}

/// `SetupPhase` as a mathematical value.
pub enum SetupPhaseView {
    BackingUp(BackupView),
    Linking { link: LinkView, archive: Seq<char> },
    Saving(SaveView),
    Done,
    Failed(ErrorView),
}

impl View for SetupPhase {
    type V = SetupPhaseView;

    open spec fn view(&self) -> SetupPhaseView {
        match self {
            SetupPhase::BackingUp(b) => SetupPhaseView::BackingUp(b@),
            SetupPhase::Linking { link, archive } => SetupPhaseView::Linking {
                link: link@,
                archive: archive@,
            },
            SetupPhase::Saving(s) => SetupPhaseView::Saving(s@),
            SetupPhase::Done => SetupPhaseView::Done,
            SetupPhase::Failed(e) => SetupPhaseView::Failed(e@),
        }
    }
}

/// A setup under way.
#[derive(Debug)]
pub struct Setup {
    state: State,
    files: Vec<String>,
    home: String,
    phase: SetupPhase,
}

/// `Setup` as a mathematical value.
pub struct SetupView {
    /// The state: with the profile active from the start, and with the run
    /// in its history from the moment the files are linked.
    pub state: StateView,
    /// The files that the setup works on.
    pub files: Seq<Seq<char>>,
    pub home: Seq<char>,
    pub phase: SetupPhaseView,
}

impl View for Setup {
    type V = SetupView;

    closed spec fn view(&self) -> SetupView {
        SetupView {
            state: self.state@,
            files: texts(self.files@),
            home: self.home@,
            phase: self.phase@,
        }
    }
}

/// The history entry of a run.
pub open spec fn run_entry(
    files: Seq<Seq<char>>,
    archive: Seq<char>,
    finished_at: Seq<char>,
) -> HistoryView {
    HistoryView { created_at: finished_at, backup: archive, files }
}

impl SetupView {
    /// The parts of a setup fit together: what is backed up and linked are
    /// the setup's files, what is written is the setup's state, and the part
    /// that is at work has not ended.
    pub open spec fn wf(self) -> bool {
        match self.phase {
            SetupPhaseView::BackingUp(backup) => backup.wf() && backup.files == self.files
                && backup.outcome() is None,
            SetupPhaseView::Linking { link, .. } => link.wf() && link.files == self.files
                && link.outcome() is None,
            SetupPhaseView::Saving(save) => save.record == self.state && save.path == state_file(
                self.home,
            ) && save.outcome() is None,
            _ => true,
        }
    }

    /// How the setup ended, once it has.
    pub open spec fn outcome(self) -> Option<Result<(), ErrorView>> {
        match self.phase {
            SetupPhaseView::Done => Some(Ok(())),
            SetupPhaseView::Failed(e) => Some(Err(e)),
            _ => None,
        }
    }

    /// The same, ended in failure.
    pub open spec fn failed(self, error: ErrorView) -> (SetupView, Option<ActionView>) {
        (SetupView { phase: SetupPhaseView::Failed(error), ..self }, None)
    }

    /// The setup once the linking has taken a step: it goes on linking, or,
    /// with every file linked, enters the run into the history and begins
    /// to write the state.
    pub open spec fn linked(
        self,
        link: LinkView,
        action: Option<ActionView>,
        archive: Seq<char>,
    ) -> (SetupView, Option<ActionView>) {
        match link.outcome() {
            None => (
                SetupView { phase: SetupPhaseView::Linking { link, archive }, ..self },
                action,
            ),
            Some(Ok(finished_at)) => {
                let state = StateView {
                    history: Some(
                        extended(self.state.history, run_entry(self.files, archive, finished_at)),
                    ),
                    ..self.state
                };
                let (save, action) = start_save(state, self.home);
                (SetupView { state, phase: SetupPhaseView::Saving(save), ..self }, action)
            },
            Some(Err(error)) => self.failed(error),
        }
    }
}

/// A setup at its start, and the first thing it asks for. The files are
/// those of the profile, or those of `default` where the profile does not
/// exist, and the profile whose files they are becomes the active one; with
/// neither profile, the setup fails before anything is done.
pub open spec fn start_setup(
    state: StateView,
    profile: Seq<char>,
    home: Seq<char>,
    stamp: Seq<char>,
) -> Result<(SetupView, Option<ActionView>), ErrorView> {
    match resolved(state.profiles, profile) {
        Some(files) => {
            let (backup, action) = crate::backup::start(files, state.backup_path, home, stamp);
            Ok(
                (
                    SetupView {
                        state: StateView {
                            active_profile: Some(resolved_name(state.profiles, profile)),
                            ..state
                        },
                        files,
                        home,
                        phase: SetupPhaseView::BackingUp(backup),
                    },
                    action,
                ),
            )
        },
        None => Err(
            ErrorView {
                kind: ErrorKind::ProfileResolution,
                message: "no 'default' profile found!"@,
            },
        ),
    }
}

/// The setup after an event, and the next thing it asks for. `finished_at`
/// is the time of the event: the linking ends with the time of its last
/// event, and the history entry of the run carries that time.
pub open spec fn next_setup(s: SetupView, e: EventView, finished_at: Seq<char>) -> (
    SetupView,
    Option<ActionView>,
) {
    match s.phase {
        SetupPhaseView::BackingUp(backup) => {
            let (backup, action) = crate::backup::next(backup, e);
            match backup.outcome() {
                None => (SetupView { phase: SetupPhaseView::BackingUp(backup), ..s }, action),
                Some(Ok(archive)) => {
                    let (link, action) = crate::link::start(
                        s.files,
                        s.state.path,
                        s.home,
                        finished_at,
                    );
                    s.linked(link, action, archive)
                },
                Some(Err(error)) => s.failed(error),
            }
        },
        SetupPhaseView::Linking { link, archive } => {
            let (link, action) = crate::link::next(link, e, finished_at);
            s.linked(link, action, archive)
        },
        SetupPhaseView::Saving(save) => {
            let (save, action) = next_save(save, e);
            match save.outcome() {
                None => (SetupView { phase: SetupPhaseView::Saving(save), ..s }, action),
                Some(Ok(_)) => (SetupView { phase: SetupPhaseView::Done, ..s }, None),
                Some(Err(error)) => s.failed(error),
            }
        },
        SetupPhaseView::Done => (s, None),
        SetupPhaseView::Failed(_) => (s, None),
    }
}

/// What `setup` returns, against what the model says.
pub open spec fn begins_as(
    r: Result<(Setup, Option<Action>), Error>,
    model: Result<(SetupView, Option<ActionView>), ErrorView>,
) -> bool {
    match r {
        Ok((machine, action)) => model == Ok::<(SetupView, Option<ActionView>), ErrorView>(
            (machine@, opt_action(action)),
        ),
        Err(e) => model == Err::<(SetupView, Option<ActionView>), ErrorView>(e@),
    }
}

/// Starts the setup of a profile at the time `now`, after which the backup
/// archive is named. The setup fails, with nothing done, exactly when
/// neither the profile nor `default` exists.
pub fn setup(state: State, profile: String, home: &str, now: &Stamps) -> (r: Result<
    (Setup, Option<Action>),
    Error,
>)
    ensures
        r is Err <==> !has_profile(state@.profiles, profile@) && !has_profile(
            state@.profiles,
            "default"@,
        ),
        begins_as(r, start_setup(state@, profile@, home@, now@.archive)),
        r matches Ok((machine, _)) ==> machine@.wf(),
{
    match state.resolve(profile.as_str()) {
        Ok(files) => {
            let (backup, action) = Backup::begin(&files, state.backup_path().as_str(), home, now);
            Ok(
                (
                    Setup {
                        state: state.set_active_profile(profile.as_str()),
                        files,
                        home: home.to_owned(),
                        phase: SetupPhase::BackingUp(backup),
                    },
                    action,
                ),
            )
        },
        Err(error) => Err(error),
    }
}

impl Setup {
    #[verifier::type_invariant]
    spec fn well_formed(&self) -> bool {
        self@.wf()
    }

    fn after_link(
        state: State,
        files: Vec<String>,
        home: String,
        link: Link,
        action: Option<Action>,
        archive: String,
    ) -> (r: (Setup, Option<Action>))
        requires
            link@.wf(),
            link@.files == texts(files@),
        ensures
            (r.0@, opt_action(r.1)) == (SetupView {
                state: state@,
                files: texts(files@),
                home: home@,
                phase: SetupPhaseView::Done,
            }).linked(link@, opt_action(action), archive@),
            r.0@.wf(),
    {
        match link.outcome() {
            None => (
                Setup { state, files, home, phase: SetupPhase::Linking { link, archive } },
                action,
            ),
            Some(Ok(finished_at)) => {
                let entry = History {
                    created_at: finished_at,
                    backup: archive,
                    files: copy_texts(&files),
                };
                let state = state.append_history(entry);
                let (save, action) = Save::begin(&state, home.as_str());
                (Setup { state, files, home, phase: SetupPhase::Saving(save) }, action)
            },
            Some(Err(error)) => (
                Setup { state, files, home, phase: SetupPhase::Failed(error) },
                None,
            ),
        }
    }

    /// Takes the event that answers the last action, and that came at the
    /// time `now`, and says what to do next. With nothing left to do, the
    /// setup has ended.
    pub fn step(self, event: &Event, now: &Stamps) -> (r: (Setup, Option<Action>))
        ensures
            (r.0@, opt_action(r.1)) == next_setup(self@, event@, now@.history),
            r.0@.wf(),
    {
        proof {
            use_type_invariant(&self);
        }
        let Setup { state, files, home, phase } = self;
        match phase {
            SetupPhase::BackingUp(backup) => {
                proof {
                    crate::backup::backup_stays_well_formed(backup@, event@);
                }
                let (backup, action) = backup.step(event);
                match backup.outcome() {
                    None => (
                        Setup { state, files, home, phase: SetupPhase::BackingUp(backup) },
                        action,
                    ),
                    Some(Ok(archive)) => {
                        let (link, action) = Link::begin(
                            &files,
                            state.path().as_str(),
                            home.as_str(),
                            now,
                        );
                        Setup::after_link(state, files, home, link, action, archive)
                    },
                    Some(Err(error)) => (
                        Setup { state, files, home, phase: SetupPhase::Failed(error) },
                        None,
                    ),
                }
            },
            SetupPhase::Linking { link, archive } => {
                proof {
                    crate::link::linking_stays_well_formed(link@, event@, now@.history);
                }
                let (link, action) = link.step(event, now);
                Setup::after_link(state, files, home, link, action, archive)
            },
            SetupPhase::Saving(save) => {
                let (save, action) = save.step(event);
                match save.outcome() {
                    None => (Setup { state, files, home, phase: SetupPhase::Saving(save) }, action),
                    Some(Ok(_)) => (Setup { state, files, home, phase: SetupPhase::Done }, None),
                    Some(Err(error)) => (
                        Setup { state, files, home, phase: SetupPhase::Failed(error) },
                        None,
                    ),
                }
            },
            SetupPhase::Done => (Setup { state, files, home, phase: SetupPhase::Done }, None),
            SetupPhase::Failed(error) => (
                Setup { state, files, home, phase: SetupPhase::Failed(error) },
                None,
            ),
        }
    }

    /// How the setup ended, once it has.
    pub fn outcome(&self) -> (r: Option<Result<(), Error>>)
        ensures
            match r {
                Some(Ok(_)) => self@.outcome() == Some(Ok::<(), ErrorView>(())),
                Some(Err(e)) => self@.outcome() == Some(Err::<(), ErrorView>(e@)),
                None => self@.outcome() is None,
            },
    {
        match &self.phase {
            SetupPhase::Done => Some(Ok(())),
            SetupPhase::Failed(e) => Some(Err(e.duplicate())),
            _ => None,
        }
    }

    /// The state of the setup.
    pub fn state(&self) -> (r: &State)
        ensures
            r@ == self@.state,
    {
        &self.state
    }

    /// The files that the setup works on.
    pub fn files(&self) -> (r: Vec<String>)
        ensures
            texts(r@) == self@.files,
    {
        copy_texts(&self.files)
    }
}

/// A setup stays well formed through every event, and keeps its files.
pub proof fn setup_stays_well_formed(s: SetupView, e: EventView, finished_at: Seq<char>)
    requires
        s.wf(),
    ensures
        next_setup(s, e, finished_at).0.wf(),
        next_setup(s, e, finished_at).0.files == s.files,
        next_setup(s, e, finished_at).0.home == s.home,
        next_setup(s, e, finished_at).0.state.active_profile == s.state.active_profile,
{
    match s.phase {
        SetupPhaseView::BackingUp(backup) => {
            crate::backup::backup_stays_well_formed(backup, e);
        },
        SetupPhaseView::Linking { link, .. } => {
            crate::link::linking_stays_well_formed(link, e, finished_at);
        },
        _ => {},
    }
}

/// A profile that does not exist is set up as `default` is: the two setups
/// begin alike in everything, the files, the first action and the state
/// with `default` as its active profile, and so they go on alike through
/// every event and leave the same record. Where `default` does not exist
/// either, both fail alike.
pub proof fn missing_profile_is_set_up_as_default(
    state: StateView,
    profile: Seq<char>,
    home: Seq<char>,
    stamp: Seq<char>,
)
    requires
        !has_profile(state.profiles, profile),
    ensures
        start_setup(state, profile, home, stamp) == start_setup(state, "default"@, home, stamp),
        start_setup(state, profile, home, stamp) matches Ok((machine, _))
            ==> machine.state.active_profile == Some("default"@),
{
}

/// A setup fails at its start exactly when neither the profile nor
/// `default` exists, and then with a profile-resolution error. It has asked
/// for nothing then: no file is touched and no state is written. A setup
/// that begins has as its active profile an existing profile, the one whose
/// files it works on.
pub proof fn unresolved_profile_fails(
    state: StateView,
    profile: Seq<char>,
    home: Seq<char>,
    stamp: Seq<char>,
)
    ensures
        start_setup(state, profile, home, stamp) is Err <==> !has_profile(state.profiles, profile)
            && !has_profile(state.profiles, "default"@),
        start_setup(state, profile, home, stamp) matches Err(e) ==> e.kind
            == ErrorKind::ProfileResolution,
        start_setup(state, profile, home, stamp) matches Ok((machine, action)) ==> {
            &&& machine.wf()
            &&& machine.phase is BackingUp
            &&& machine.state.active_profile == Some(resolved_name(state.profiles, profile))
            &&& has_profile(machine.state.profiles, machine.state.active_profile->0)
            &&& lookup(machine.state.profiles, machine.state.active_profile->0) == Some(
                machine.files,
            )
            &&& resolved(state.profiles, profile) == Some(machine.files)
            &&& valid(state) ==> valid(machine.state)
            &&& action is Some
        },
{
}

/// The backup comes first: the linking begins, and a link is made, only
/// when the backup has ended well, and a backup that fails ends the setup
/// with no link made and no state written.
pub proof fn backup_comes_before_links(s: SetupView, e: EventView, finished_at: Seq<char>)
    requires
        s.wf(),
        s.phase is BackingUp,
    ensures
        ({
            let backup = crate::backup::next(s.phase->BackingUp_0, e).0;
            let (t, action) = next_setup(s, e, finished_at);
            &&& action matches Some(ActionView::Symlink { .. }) ==> t.phase is Linking
            &&& (t.phase is Linking || t.phase is Saving) ==> backup.outcome() is Some
                && backup.outcome()->0 is Ok
            &&& t.phase matches SetupPhaseView::Linking { archive, .. } ==> backup.outcome()
                == Some(Ok::<Seq<char>, ErrorView>(archive))
            &&& backup.outcome() matches Some(Err(error)) ==> t.phase == SetupPhaseView::Failed(
                error,
            ) && action is None && t.state == s.state
        }),
{
    crate::backup::backup_stays_well_formed(s.phase->BackingUp_0, e);
}

/// A link that fails ends the setup: where a directory or a symlink cannot
/// be made, the failure is reported, nothing more is asked for, and the
/// state is neither changed nor written.
pub proof fn failed_link_ends_setup(s: SetupView, e: EventView, finished_at: Seq<char>)
    requires
        s.wf(),
        s.phase is Linking,
        s.phase->Linking_link.phase is Preparing || s.phase->Linking_link.phase is Linking,
        !e.affirms(),
    ensures
        next_setup(s, e, finished_at).0.phase is Failed,
        next_setup(s, e, finished_at).1 is None,
        next_setup(s, e, finished_at).0.state == s.state,
{
}

/// When the last file is linked the run enters the history: the state of
/// the setup becomes the state of before with one more entry, which holds
/// the time the linking was completed, the archive of the backup and the
/// files that were set up. The entries of before stay as they are.
pub proof fn run_is_recorded(s: SetupView, e: EventView, finished_at: Seq<char>)
    requires
        s.wf(),
        s.phase is Linking,
        next_setup(s, e, finished_at).0.phase is Saving,
    ensures
        ({
            let t = next_setup(s, e, finished_at).0;
            let entry = run_entry(s.files, s.phase->Linking_archive, finished_at);
            &&& e.affirms()
            &&& t.state == (StateView {
                history: Some(extended(s.state.history, entry)),
                ..s.state
            })
            &&& t.state.history->0.last() == entry
            &&& s.state.history matches Some(before) ==> before.is_prefix_of(t.state.history->0)
            &&& t.phase->Saving_0.record == t.state
        }),
{
    crate::state::history_is_append_only(
        s.state.history,
        run_entry(s.files, s.phase->Linking_archive, finished_at),
    );
}

/// The state is written only while the setup is saving, which it is only
/// once every file is linked; and what is written is the state of the
/// setup, to the state file.
pub proof fn state_is_written_last(s: SetupView, e: EventView, finished_at: Seq<char>)
    requires
        s.wf(),
        next_setup(s, e, finished_at).1 matches Some(ActionView::WriteRecord { .. }),
    ensures
        s.phase is Saving,
        next_setup(s, e, finished_at).1 == Some(
            ActionView::WriteRecord { path: state_file(s.home), record: s.state },
        ),
        next_setup(s, e, finished_at).0.state == s.state,
{
}

} // verus!
