//! The stages that a machine's dotfiles go through, and how the lifecycle
//! operations move between them.

use vstd::prelude::*;
use crate::effect::{Action, EventView};
use crate::init::{first_state, start_init};
use crate::setup::{next_setup, start_setup, SetupView};
use crate::state::{distinct_names, resolved_name, ConfigView, State, StateView};
use crate::store::taken_up;

verus! {

/// Where the dotfiles of a machine stand.
#[derive(Clone, Debug, PartialEq, Eq)]
pub enum Stage {
    /// There is no state record: nothing was initialized, or everything was
    /// destroyed.
    Uninitialized,
    /// The tree is fetched and no profile is set up.
    Initialized,
    /// The profile of this name is set up.
    Active(String),
}

/// `Stage` as a mathematical value.
pub enum StageView {
    Uninitialized,
    Initialized,
    Active(Seq<char>),
}

impl View for Stage {
    type V = StageView;

    open spec fn view(&self) -> StageView {
        match self {
            Stage::Uninitialized => StageView::Uninitialized,
            Stage::Initialized => StageView::Initialized,
            Stage::Active(profile) => StageView::Active(profile@),
        }
    }
}

/// The stage that a state record, or the absence of one, stands for.
pub open spec fn stage_of(state: Option<StateView>) -> StageView {
    match state {
        None => StageView::Uninitialized,
        Some(s) => match s.active_profile {
            None => StageView::Initialized,
            Some(profile) => StageView::Active(profile),
        },
    }
}

/// The stage that a state, or the absence of one, stands for.
pub fn stage(state: Option<&State>) -> (r: Stage)
    ensures
        r@ == stage_of(
            match state {
                Some(s) => Some(s@),
                None => None,
            },
        ),
{
    match state {
        None => Stage::Uninitialized,
        Some(s) => match s.active_profile() {
            None => Stage::Initialized,
            Some(profile) => Stage::Active(profile),
        },
    }
}

/// `refresh` is reserved for bringing the fetched tree up to date. For now
/// it asks for nothing, and so changes nothing.
pub fn refresh() -> (r: Option<Action>)
    ensures
        r is None,
{
    None
}

/// `init` leads to the stage `Initialized`: the state that it writes has no
/// active profile.
pub proof fn init_leads_to_initialized(config: ConfigView, home: Seq<char>)
    requires
        distinct_names(config.profiles),
    ensures
        start_init(config, home) is Ok,
        start_init(config, home)->Ok_0.0.state == first_state(config),
        stage_of(Some(first_state(config))) == StageView::Initialized,
{
}

/// `setup` leads to the stage `Active`, from `Initialized` as from `Active`
/// of any profile: the state of a setup has the profile active that was set
/// up, the requested one or `default` in its place, from its start through
/// every event.
pub proof fn setup_leads_to_active(
    state: StateView,
    profile: Seq<char>,
    home: Seq<char>,
    stamp: Seq<char>,
    e: EventView,
    finished_at: Seq<char>,
)
    requires
        start_setup(state, profile, home, stamp) is Ok,
    ensures
        ({
            let begun = start_setup(state, profile, home, stamp)->Ok_0.0;
            let active = resolved_name(state.profiles, profile);
            &&& stage_of(Some(begun.state)) == StageView::Active(active)
            &&& stage_of(Some(next_setup(begun, e, finished_at).0.state)) == StageView::Active(
                active,
            )
        }),
{
    let begun = start_setup(state, profile, home, stamp)->Ok_0.0;
    crate::setup::unresolved_profile_fails(state, profile, home, stamp);
    crate::setup::setup_stays_well_formed(begun, e, finished_at);
}

/// A setup keeps the stage of its state through every event.
pub proof fn setup_keeps_its_stage(s: SetupView, e: EventView, finished_at: Seq<char>)
    requires
        s.wf(),
    ensures
        stage_of(Some(next_setup(s, e, finished_at).0.state)) == stage_of(Some(s.state)),
{
    crate::setup::setup_stays_well_formed(s, e, finished_at);
}

/// Reading the state file tells the stage: without a file the stage is
/// `Uninitialized`, and a record that is taken up tells by its active
/// profile whether the stage is `Initialized` or `Active`.
pub proof fn record_tells_the_stage(record: StateView)
    requires
        taken_up(record) is Ok,
    ensures
        record.active_profile is None <==> stage_of(Some(taken_up(record)->Ok_0))
            == StageView::Initialized,
        record.active_profile matches Some(active) ==> stage_of(Some(taken_up(record)->Ok_0))
            == StageView::Active(resolved_name(record.profiles, active)),
        stage_of(None) == StageView::Uninitialized,
{
}

} // verus!
