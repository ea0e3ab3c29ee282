//! `destroy`: remove the links of the active profile as far as that goes,
//! then remove the state record.

use vstd::prelude::*;
use crate::effect::{opt_action, Action, ActionView, Event, EventView};
use crate::error::{Error, ErrorView};
use crate::paths::{expand_home, expanded};
use crate::report::{copy_lines, line_views, said, say, warn, warned, Line, LineView};
use crate::state::{lookup, State, StateView};
use crate::status::reported_files;
use crate::store::{next_delete, start_delete, Delete, DeleteView};
use crate::text::{chain, chain3, texts};

verus! {

/// Where a destroy stands.
#[derive(Debug)]
pub enum DestroyPhase {
    /// The link of the current file is being removed.
    Removing,
    /// The links are dealt with, and the state record is being removed.
    Deleting(Delete),
    /// The state record is gone.
    Done,
    /// The state record could not be removed.
    Failed(Error),
}

/// `DestroyPhase` as a mathematical value.
pub enum DestroyPhaseView {
    Removing,
    Deleting(DeleteView),
    Done,
    Failed(ErrorView),
}

impl View for DestroyPhase {
    type V = DestroyPhaseView;

    open spec fn view(&self) -> DestroyPhaseView {
        match self {
            DestroyPhase::Removing => DestroyPhaseView::Removing,
            DestroyPhase::Deleting(d) => DestroyPhaseView::Deleting(d@),
            DestroyPhase::Done => DestroyPhaseView::Done,
            DestroyPhase::Failed(e) => DestroyPhaseView::Failed(e@),
        }
    }
}

/// A destroy under way.
#[derive(Debug)]
pub struct Destroy {
    files: Vec<String>,
    home: String,
    lines: Vec<Line>,
    tried: usize,
    phase: DestroyPhase,
}

/// `Destroy` as a mathematical value.
pub struct DestroyView {
    /// The files of the active profile.
    pub files: Seq<Seq<char>>,
    pub home: Seq<char>,
    /// What is reported to the user so far.
    pub lines: Seq<LineView>,
    /// The number of files whose removal was tried. The current file is the
    /// one after these.
    pub tried: nat,
    pub phase: DestroyPhaseView,
}

impl View for Destroy {
    type V = DestroyView;

    closed spec fn view(&self) -> DestroyView {
        DestroyView {
            files: texts(self.files@),
            home: self.home@,
            lines: line_views(self.lines@),
            tried: self.tried as nat,
            phase: self.phase@,
        }
    }
}

/// The line on the removal of a file's link: that it is removed, or, on
/// standard error, why it could not be.
pub open spec fn removal_line(file: Seq<char>, e: EventView) -> LineView {
    if e.affirms() {
        said("removed "@ + file)
    } else {
        warned("couldn't remove symlink for file "@ + file + ": "@ + e.detail())
    }
}

/// The lines of a destroy before those of the files.
pub open spec fn opening(state: StateView) -> Seq<LineView> {
    match state.active_profile {
        None => seq![said("no active profile set."@)],
        Some(profile) => {
            let head = seq![said("active profile: "@ + profile)];
            match lookup(state.profiles, profile) {
                None => head.push(said("no files found for profile '"@ + profile + "'"@)),
                Some(_) => head,
            }
        },
    }
}

impl DestroyView {
    /// The count fits the files, and the phase fits the count.
    pub open spec fn wf(self) -> bool {
        &&& self.tried <= self.files.len()
        &&& self.phase is Removing ==> self.tried < self.files.len()
        &&& !(self.phase is Removing) ==> self.tried == self.files.len()
        &&& self.phase matches DestroyPhaseView::Deleting(delete) ==> delete.outcome() is None
    }

    /// Turns to the file after those tried, or, with none left, to the
    /// state record.
    pub open spec fn seek(self) -> (DestroyView, Option<ActionView>) {
        if self.tried < self.files.len() {
            (
                DestroyView { phase: DestroyPhaseView::Removing, ..self },
                Some(
                    ActionView::RemoveFile {
                        path: expanded(self.files[self.tried as int], self.home),
                    },
                ),
            )
        } else {
            let (delete, action) = start_delete(self.home);
            (DestroyView { phase: DestroyPhaseView::Deleting(delete), ..self }, action)
        }
    }

    /// How the destroy ended, once it has.
    pub open spec fn outcome(self) -> Option<Result<(), ErrorView>> {
        match self.phase {
            DestroyPhaseView::Done => Some(Ok(())),
            DestroyPhaseView::Failed(e) => Some(Err(e)),
            _ => None,
        }
    }
}

/// A destroy at its start, and the first thing it asks for.
pub open spec fn start_destroy(state: StateView, home: Seq<char>) -> (
    DestroyView,
    Option<ActionView>,
) {
    (DestroyView {
        files: reported_files(state),
        home,
        lines: opening(state),
        tried: 0,
        phase: DestroyPhaseView::Done,
    }).seek()
}

/// The destroy after an event, and the next thing it asks for. A link that
/// cannot be removed is reported and passed over; the state record is
/// removed whatever came of the links.
pub open spec fn next_destroy(s: DestroyView, e: EventView) -> (DestroyView, Option<ActionView>) {
    match s.phase {
        DestroyPhaseView::Removing => (DestroyView {
            lines: s.lines.push(removal_line(s.files[s.tried as int], e)),
            tried: s.tried + 1,
            ..s
        }).seek(),
        DestroyPhaseView::Deleting(delete) => {
            let (delete, action) = next_delete(delete, e);
            match delete.outcome() {
                None => (DestroyView { phase: DestroyPhaseView::Deleting(delete), ..s }, action),
                Some(Ok(_)) => (DestroyView { phase: DestroyPhaseView::Done, ..s }, None),
                Some(Err(error)) => (
                    DestroyView { phase: DestroyPhaseView::Failed(error), ..s },
                    None,
                ),
            }
        },
        DestroyPhaseView::Done => (s, None),
        DestroyPhaseView::Failed(_) => (s, None),
    }
}

impl Destroy {
    #[verifier::type_invariant]
    spec fn well_formed(&self) -> bool {
        self@.wf()
    }

    fn turn(files: Vec<String>, home: String, lines: Vec<Line>, tried: usize) -> (r: (
        Destroy,
        Option<Action>,
    ))
        requires
            tried <= files.len(),
        ensures
            (r.0@, opt_action(r.1)) == (DestroyView {
                files: texts(files@),
                home: home@,
                lines: line_views(lines@),
                tried: tried as nat,
                phase: DestroyPhaseView::Done,
            }).seek(),
            r.0@.wf(),
    {
        if tried < files.len() {
            let path = expand_home(files[tried].as_str(), home.as_str());
            (
                Destroy { files, home, lines, tried, phase: DestroyPhase::Removing },
                Some(Action::RemoveFile { path }),
            )
        } else {
            let (delete, action) = Delete::begin(home.as_str());
            (Destroy { files, home, lines, tried, phase: DestroyPhase::Deleting(delete) }, action)
        }
    }

    /// Takes the event that answers the last action, and says what to do
    /// next. With nothing left to do, the destroy has ended.
    pub fn step(self, event: &Event) -> (r: (Destroy, Option<Action>))
        ensures
            (r.0@, opt_action(r.1)) == next_destroy(self@, event@),
            r.0@.wf(),
    {
        proof {
            use_type_invariant(&self);
        }
        let Destroy { files, home, mut lines, tried, phase } = self;
        match phase {
            DestroyPhase::Removing => {
                let count = files.len();
                assert(tried < count) by {
                    assert(texts(files@).len() == count);
                }
                let ghost before = line_views(lines@);
                let line = if event.affirms() {
                    say(chain("removed ", files[tried].as_str()))
                } else {
                    let mut text = chain3(
                        "couldn't remove symlink for file ",
                        files[tried].as_str(),
                        ": ",
                    );
                    text.append(event.detail().as_str());
                    warn(text)
                };
                lines.push(line);
                assert(line_views(lines@) =~= before.push(
                    removal_line(texts(files@)[tried as int], event@),
                ));
                Destroy::turn(files, home, lines, tried + 1)
            },
            DestroyPhase::Deleting(delete) => {
                let (delete, action) = delete.step(event);
                match delete.outcome() {
                    None => {
                        let phase = DestroyPhase::Deleting(delete);
                        (Destroy { files, home, lines, tried, phase }, action)
                    },
                    Some(Ok(_)) => (
                        Destroy { files, home, lines, tried, phase: DestroyPhase::Done },
                        None,
                    ),
                    Some(Err(error)) => (
                        Destroy { files, home, lines, tried, phase: DestroyPhase::Failed(error) },
                        None,
                    ),
                }
            },
            DestroyPhase::Done => (
                Destroy { files, home, lines, tried, phase: DestroyPhase::Done },
                None,
            ),
            DestroyPhase::Failed(error) => (
                Destroy { files, home, lines, tried, phase: DestroyPhase::Failed(error) },
                None,
            ),
        }
    }

    /// How the destroy ended, once it has.
    pub fn outcome(&self) -> (r: Option<Result<(), Error>>)
        ensures
            match r {
                Some(Ok(_)) => self@.outcome() == Some(Ok::<(), ErrorView>(())),
                Some(Err(e)) => self@.outcome() == Some(Err::<(), ErrorView>(e@)),
                None => self@.outcome() is None,
            },
    {
        match &self.phase {
            DestroyPhase::Done => Some(Ok(())),
            DestroyPhase::Failed(e) => Some(Err(e.duplicate())),
            _ => None,
        }
    }

    /// What is reported to the user so far.
    pub fn lines(&self) -> (r: Vec<Line>)
        ensures
            line_views(r@) == self@.lines,
    {
        copy_lines(&self.lines)
    }
}

/// Starts the destroy of what a state describes.
pub fn destroy(state: &State, home: &str) -> (r: (Destroy, Option<Action>))
    ensures
        (r.0@, opt_action(r.1)) == start_destroy(state@, home@),
        r.0@.wf(),
{
    let mut lines: Vec<Line> = Vec::new();
    let files: Vec<String> = match state.active_profile() {
        None => {
            lines.push(say("no active profile set.".to_owned()));
            Vec::new()
        },
        Some(profile) => {
            lines.push(say(chain("active profile: ", profile.as_str())));
            match state.profile_files(profile.as_str()) {
                None => {
                    lines.push(say(chain3("no files found for profile '", profile.as_str(), "'")));
                    Vec::new()
                },
                Some(files) => files,
            }
        },
    };
    assert(line_views(lines@) =~= opening(state@));
    assert(texts(files@) =~= reported_files(state@));
    Destroy::turn(files, home.to_owned(), lines, 0)
}

/// A link that cannot be removed does not stop a destroy: the failure is
/// reported on standard error, and the destroy turns to the next file, or
/// to the state record after the last.
pub proof fn failed_removal_is_passed_over(s: DestroyView, e: EventView)
    requires
        s.wf(),
        s.phase is Removing,
    ensures
        ({
            let (t, action) = next_destroy(s, e);
            &&& t.wf()
            &&& t.outcome() is None
            &&& t.tried == s.tried + 1
            &&& t.lines == s.lines.push(removal_line(s.files[s.tried as int], e))
            &&& t.lines.last().error == !e.affirms()
            &&& action is Some
            &&& s.tried + 1 < s.files.len() ==> action->0 is RemoveFile && t.phase is Removing
            &&& s.tried + 1 == s.files.len() ==> t.phase is Deleting && action
                == start_delete(s.home).1
        }),
{
}

/// The destroy after the events in `events`, in order.
pub open spec fn run_destroy(s: DestroyView, events: Seq<EventView>) -> DestroyView
    decreases events.len(),
{
    if events.len() == 0 {
        s
    } else {
        run_destroy(next_destroy(s, events[0]).0, events.drop_first())
    }
}

/// The state record is removed whatever comes of the links: after one
/// event for each file that was left, whatever these events say, the
/// destroy has turned to the state record.
pub proof fn state_record_is_removed_unconditionally(s: DestroyView, events: Seq<EventView>)
    requires
        s.wf(),
        s.phase is Removing,
        events.len() == s.files.len() - s.tried,
    ensures
        run_destroy(s, events).phase == DestroyPhaseView::Deleting(start_delete(s.home).0),
        run_destroy(s, events).lines.len() == s.lines.len() + events.len(),
    decreases events.len(),
{
    let t = next_destroy(s, events[0]).0;
    failed_removal_is_passed_over(s, events[0]);
    if t.phase is Removing {
        state_record_is_removed_unconditionally(t, events.drop_first());
    } else {
        assert(events.drop_first().len() == 0);
        assert(run_destroy(t, events.drop_first()) == t);
    }
}

/// A destroy stays well formed through every event, and it fails only if
/// the state record cannot be removed.
pub proof fn destroy_stays_well_formed(s: DestroyView, e: EventView)
    requires
        s.wf(),
    ensures
        next_destroy(s, e).0.wf(),
        next_destroy(s, e).0.phase is Failed && !(s.phase is Failed) ==> s.phase is Deleting,
{
}

} // verus!
