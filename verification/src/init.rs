//! `init`: fetch the dotfiles tree, then write the first state record.

use vstd::prelude::*;
use crate::effect::{opt_action, Action, ActionView, Event, EventView};
use crate::error::{Error, ErrorKind, ErrorView};
use crate::fetch::{Fetch, FetchView};
use crate::paths::{expand_home, expanded};
use crate::source::{classify, detect_source_type};
use crate::state::{distinct_names, initial, valid, Config, ConfigView, State, StateView};
use crate::store::{next_save, start_save, state_file, taken_up, Save, SaveView};

verus! {

/// Where an initialization stands.
#[derive(Debug)]
pub enum InitPhase {
    /// The tree is being fetched.
    Fetching(Fetch),
    /// The tree is in place, and the state record is being written.
    Saving(Save),
    /// The tree is in place and the state record is written.
    Done,
    /// The initialization failed.
    Failed(Error),
}

/// `InitPhase` as a mathematical value.
pub enum InitPhaseView {
    Fetching(FetchView),
    Saving(SaveView),
    Done,
    Failed(ErrorView),
}

impl View for InitPhase {
    type V = InitPhaseView;

    open spec fn view(&self) -> InitPhaseView {
        match self {
            InitPhase::Fetching(f) => InitPhaseView::Fetching(f@),
            InitPhase::Saving(s) => InitPhaseView::Saving(s@),
            InitPhase::Done => InitPhaseView::Done,
            InitPhase::Failed(e) => InitPhaseView::Failed(e@),
        }
    }
}

/// An initialization under way.
#[derive(Debug)]
pub struct Init {
    state: State,
    home: String,
    phase: InitPhase,
}

/// `Init` as a mathematical value.
pub struct InitView {
    /// The state that is written once the tree is fetched.
    pub state: StateView,
    pub home: Seq<char>,
    pub phase: InitPhaseView,
}

impl View for Init {
    type V = InitView;

    closed spec fn view(&self) -> InitView {
        InitView { state: self.state@, home: self.home@, phase: self.phase@ }
    }
}

impl InitView {
    /// The part that is at work has not ended, and while the record is
    /// being written, it is this initialization's state that is written, to
    /// the state file.
    pub open spec fn wf(self) -> bool {
        match self.phase {
            InitPhaseView::Fetching(fetch) => fetch.outcome() is None,
            InitPhaseView::Saving(save) => save.record == self.state && save.path == state_file(
                self.home,
            ) && save.outcome() is None,
            _ => true,
        }
    }

    /// How the initialization ended, once it has.
    pub open spec fn outcome(self) -> Option<Result<(), ErrorView>> {
        match self.phase {
            InitPhaseView::Done => Some(Ok(())),
            InitPhaseView::Failed(e) => Some(Err(e)),
            _ => None,
        }
    }
}

/// The state that a configuration is initialized to: the configuration's
/// own fields, the source type of its location, and nothing else set.
pub open spec fn first_state(config: ConfigView) -> StateView {
    StateView { source_type: Some(classify(config.url)), ..initial(config) }
}

/// An initialization at its start, and the first thing it asks for. A
/// configuration in which two profiles share a name is refused.
pub open spec fn start_init(config: ConfigView, home: Seq<char>) -> Result<
    (InitView, Option<ActionView>),
    ErrorView,
> {
    if distinct_names(config.profiles) {
        let (fetch, action) = crate::fetch::start(
            config.url,
            config.branch,
            expanded(config.path, home),
        );
        Ok(
            (
                InitView {
                    state: first_state(config),
                    home,
                    phase: InitPhaseView::Fetching(fetch),
                },
                action,
            ),
        )
    } else {
        Err(ErrorView { kind: ErrorKind::Config, message: "two profiles share a name"@ })
    }
}

/// The initialization after an event, and the next thing it asks for. The
/// state record is written once the fetch has ended well; a failed fetch
/// ends the initialization with nothing written.
pub open spec fn next_init(s: InitView, e: EventView) -> (InitView, Option<ActionView>) {
    match s.phase {
        InitPhaseView::Fetching(fetch) => {
            let (fetch, action) = crate::fetch::next(fetch, e);
            match fetch.outcome() {
                None => (InitView { phase: InitPhaseView::Fetching(fetch), ..s }, action),
                Some(Ok(_)) => {
                    let (save, action) = start_save(s.state, s.home);
                    (InitView { phase: InitPhaseView::Saving(save), ..s }, action)
                },
                Some(Err(error)) => (InitView { phase: InitPhaseView::Failed(error), ..s }, None),
            }
        },
        InitPhaseView::Saving(save) => {
            let (save, action) = next_save(save, e);
            match save.outcome() {
                None => (InitView { phase: InitPhaseView::Saving(save), ..s }, action),
                Some(Ok(_)) => (InitView { phase: InitPhaseView::Done, ..s }, None),
                Some(Err(error)) => (InitView { phase: InitPhaseView::Failed(error), ..s }, None),
            }
        },
        InitPhaseView::Done => (s, None),
        InitPhaseView::Failed(_) => (s, None),
    }
}

/// Starts the initialization from a configuration.
pub fn init(config: Config, home: &str) -> (r: Result<(Init, Option<Action>), Error>)
    ensures
        match r {
            Ok((machine, action)) => start_init(config@, home@) == Ok::<
                (InitView, Option<ActionView>),
                ErrorView,
            >((machine@, opt_action(action))) && machine@.wf(),
            Err(e) => start_init(config@, home@) == Err::<
                (InitView, Option<ActionView>),
                ErrorView,
            >(e@),
        },
{
    let kind = detect_source_type(config.url.as_str());
    let destination = expand_home(config.path.as_str(), home);
    let (fetch, action) = Fetch::begin(config.url.as_str(), &config.branch, destination.as_str());
    match State::from_config(config) {
        Ok(state) => Ok(
            (
                Init {
                    state: state.set_source_type(kind),
                    home: home.to_owned(),
                    phase: InitPhase::Fetching(fetch),
                },
                action,
            ),
        ),
        Err(error) => Err(error),
    }
}

impl Init {
    #[verifier::type_invariant]
    spec fn well_formed(&self) -> bool {
        self@.wf()
    }

    /// Takes the event that answers the last action, and says what to do
    /// next. With nothing left to do, the initialization has ended.
    pub fn step(self, event: &Event) -> (r: (Init, Option<Action>))
        ensures
            (r.0@, opt_action(r.1)) == next_init(self@, event@),
            r.0@.wf(),
    {
        proof {
            use_type_invariant(&self);
        }
        let Init { state, home, phase } = self;
        match phase {
            InitPhase::Fetching(fetch) => {
                let (fetch, action) = fetch.step(event);
                match fetch.outcome() {
                    None => (Init { state, home, phase: InitPhase::Fetching(fetch) }, action),
                    Some(Ok(_)) => {
                        let (save, action) = Save::begin(&state, home.as_str());
                        (Init { state, home, phase: InitPhase::Saving(save) }, action)
                    },
                    Some(Err(error)) => (
                        Init { state, home, phase: InitPhase::Failed(error) },
                        None,
                    ),
                }
            },
            InitPhase::Saving(save) => {
                let (save, action) = save.step(event);
                match save.outcome() {
                    None => (Init { state, home, phase: InitPhase::Saving(save) }, action),
                    Some(Ok(_)) => (Init { state, home, phase: InitPhase::Done }, None),
                    Some(Err(error)) => (
                        Init { state, home, phase: InitPhase::Failed(error) },
                        None,
                    ),
                }
            },
            InitPhase::Done => (Init { state, home, phase: InitPhase::Done }, None),
            InitPhase::Failed(error) => (
                Init { state, home, phase: InitPhase::Failed(error) },
                None,
            ),
        }
    }

    /// How the initialization ended, once it has.
    pub fn outcome(&self) -> (r: Option<Result<(), Error>>)
        ensures
            match r {
                Some(Ok(_)) => self@.outcome() == Some(Ok::<(), ErrorView>(())),
                Some(Err(e)) => self@.outcome() == Some(Err::<(), ErrorView>(e@)),
                None => self@.outcome() is None,
            },
    {
        match &self.phase {
            InitPhase::Done => Some(Ok(())),
            InitPhase::Failed(e) => Some(Err(e.duplicate())),
            _ => None,
        }
    }

    /// The state that the initialization writes.
    pub fn state(&self) -> (r: &State)
        ensures
            r@ == self@.state,
    {
        &self.state
    }
}

/// An initialization stays well formed, and the state it writes stays what
/// it was at the start.
pub proof fn init_stays_well_formed(s: InitView, e: EventView)
    requires
        s.wf(),
    ensures
        next_init(s, e).0.wf(),
        next_init(s, e).0.state == s.state,
        next_init(s, e).0.home == s.home,
{
}

/// What an initialization writes is the configuration it was started from:
/// the state has the configuration's location, branch, paths and profiles,
/// the source type of the location, and nothing else; and the record of that
/// state, once written, is loaded as the same state.
pub proof fn init_writes_the_configuration(config: ConfigView, home: Seq<char>)
    requires
        distinct_names(config.profiles),
    ensures
        start_init(config, home) is Ok,
        ({
            let s = start_init(config, home)->Ok_0.0;
            &&& s.wf()
            &&& s.phase is Fetching
            &&& s.state == first_state(config)
            &&& s.state.url == config.url
            &&& s.state.branch == config.branch
            &&& s.state.path == config.path
            &&& s.state.backup_path == config.backup_path
            &&& s.state.profiles == config.profiles
            &&& s.state.source_type == Some(classify(config.url))
            &&& s.state.active_profile is None
            &&& s.state.history is None
            &&& valid(s.state)
            &&& taken_up(s.state) == Ok::<StateView, ErrorView>(s.state)
        }),
{
}

/// The record that an initialization writes is its state, and it goes to
/// the state file.
pub proof fn init_writes_its_state(s: InitView, e: EventView)
    requires
        s.wf(),
        next_init(s, e).1 matches Some(ActionView::WriteRecord { .. }),
    ensures
        next_init(s, e).1 == Some(
            ActionView::WriteRecord { path: state_file(s.home), record: s.state },
        ),
        s.phase is Saving,
{
}

/// A failed fetch leaves nothing written: the initialization ends with the
/// failure of the fetch, and the writing of the record begins only when the
/// fetch has ended well.
pub proof fn failed_fetch_writes_nothing(s: InitView, e: EventView)
    requires
        s.phase is Fetching,
    ensures
        ({
            let fetch = crate::fetch::next(s.phase->Fetching_0, e).0;
            &&& !(next_init(s, e).1 matches Some(ActionView::WriteRecord { .. }))
            &&& fetch.outcome() matches Some(Err(error)) ==> next_init(s, e) == (
                InitView { phase: InitPhaseView::Failed(error), ..s },
                None::<ActionView>,
            )
            &&& next_init(s, e).0.phase is Saving <==> fetch.outcome() == Some(
                Ok::<(), ErrorView>(()),
            )
        }),
{
}

} // verus!
