//! `status`: the active profile and, for each of its files, whether it is
//! linked.

use vstd::prelude::*;
use crate::effect::{opt_action, Action, ActionView, Event, EventView};
use crate::error::{Error, ErrorKind, ErrorView};
use crate::paths::{expand_home, expanded};
use crate::report::{copy_lines, line_views, said, say, Line, LineView};
use crate::state::{lookup, State, StateView};
use crate::store::{load, loaded, ReadOutcome};
use crate::text::{chain, chain3, decimal, decimal_text, texts};

verus! {

/// Where a status report stands.
#[derive(Clone, Copy, Debug, PartialEq, Eq, Structural)]
pub enum StatusPhase {
    /// The current file is asked about.
    Probing,
    /// The report is complete.
    Done,
}

/// A status report under way.
#[derive(Debug)]
pub struct Status {
    files: Vec<String>,
    home: String,
    lines: Vec<Line>,
    phase: StatusPhase,
    seen: usize,
}

/// `Status` as a mathematical value.
pub struct StatusView {
    /// The files of the active profile.
    pub files: Seq<Seq<char>>,
    pub home: Seq<char>,
    /// The report so far.
    pub lines: Seq<LineView>,
    pub phase: StatusPhase,
    /// The number of files reported on. The current file is the one after
    /// these.
    pub seen: nat,
}

impl View for Status {
    type V = StatusView;

    closed spec fn view(&self) -> StatusView {
        StatusView {
            files: texts(self.files@),
            home: self.home@,
            lines: line_views(self.lines@),
            phase: self.phase,
            seen: self.seen as nat,
        }
    }
}

/// The line of a file: `+` for one that is linked, `-` for one that is not
/// a symlink.
pub open spec fn file_line(file: Seq<char>, linked: bool) -> LineView {
    said(
        (if linked {
            "  + "@
        } else {
            "  - "@
        }) + file,
    )
}

/// The profile that is active, where there is a state and it has one.
pub open spec fn active_in(state: Option<StateView>) -> Option<Seq<char>> {
    match state {
        Some(s) => s.active_profile,
        None => None,
    }
}

/// The lines of a report before those of the files. Without a state, as
/// with a state in which no profile is active, the report says that no
/// profile is active.
pub open spec fn heading(state: Option<StateView>) -> Seq<LineView> {
    match active_in(state) {
        None => seq![
            said("no active profile set."@),
            said("run 'dotsync setup --profile=<name>' first."@),
        ],
        Some(profile) => {
            let head = seq![said("active profile: "@ + profile), said(Seq::empty())];
            match lookup(state->0.profiles, profile) {
                None => head.push(said("no files found for profile '"@ + profile + "'"@)),
                Some(files) => head.push(
                    said("synced dotfiles ("@ + decimal_text(files.len()) + "):"@),
                ),
            }
        },
    }
}

/// The files that a report covers: those of the active profile, where
/// there is one and it exists.
pub open spec fn reported_files(state: StateView) -> Seq<Seq<char>> {
    match state.active_profile {
        None => Seq::empty(),
        Some(profile) => match lookup(state.profiles, profile) {
            None => Seq::empty(),
            Some(files) => files,
        },
    }
}

impl StatusView {
    /// The count fits the files, and the phase fits the count.
    pub open spec fn wf(self) -> bool {
        &&& self.seen <= self.files.len()
        &&& self.phase == StatusPhase::Probing ==> self.seen < self.files.len()
        &&& self.phase == StatusPhase::Done ==> self.seen == self.files.len()
    }

    /// Turns to the file after those reported on, or ends with none left.
    pub open spec fn seek(self) -> (StatusView, Option<ActionView>) {
        if self.seen < self.files.len() {
            (
                StatusView { phase: StatusPhase::Probing, ..self },
                Some(
                    ActionView::ProbeLink {
                        path: expanded(self.files[self.seen as int], self.home),
                    },
                ),
            )
        } else {
            (StatusView { phase: StatusPhase::Done, ..self }, None)
        }
    }

    /// The report, once it is complete.
    pub open spec fn outcome(self) -> Option<Seq<LineView>> {
        if self.phase == StatusPhase::Done {
            Some(self.lines)
        } else {
            None
        }
    }
}

/// The files that a report covers, where there may be no state.
pub open spec fn files_to_report(state: Option<StateView>) -> Seq<Seq<char>> {
    match state {
        Some(s) => reported_files(s),
        None => Seq::empty(),
    }
}

/// A status report at its start, and the first thing it asks for.
pub open spec fn start_status(state: Option<StateView>, home: Seq<char>) -> (
    StatusView,
    Option<ActionView>,
) {
    (StatusView {
        files: files_to_report(state),
        home,
        lines: heading(state),
        phase: StatusPhase::Done,
        seen: 0,
    }).seek()
}

/// The report after an event, and the next thing it asks for.
pub open spec fn next_status(s: StatusView, e: EventView) -> (StatusView, Option<ActionView>) {
    match s.phase {
        StatusPhase::Probing => (StatusView {
            lines: s.lines.push(file_line(s.files[s.seen as int], e.affirms())),
            seen: s.seen + 1,
            ..s
        }).seek(),
        StatusPhase::Done => (s, None),
    }
}

impl Status {
    #[verifier::type_invariant]
    spec fn well_formed(&self) -> bool {
        self@.wf()
    }

    fn turn(files: Vec<String>, home: String, lines: Vec<Line>, seen: usize) -> (r: (
        Status,
        Option<Action>,
    ))
        requires
            seen <= files.len(),
        ensures
            (r.0@, opt_action(r.1)) == (StatusView {
                files: texts(files@),
                home: home@,
                lines: line_views(lines@),
                phase: StatusPhase::Done,
                seen: seen as nat,
            }).seek(),
            r.0@.wf(),
    {
        if seen < files.len() {
            let path = expand_home(files[seen].as_str(), home.as_str());
            (
                Status { files, home, lines, phase: StatusPhase::Probing, seen },
                Some(Action::ProbeLink { path }),
            )
        } else {
            (Status { files, home, lines, phase: StatusPhase::Done, seen }, None)
        }
    }

    /// Takes the answer to the last question, and says what to ask next.
    /// With nothing left to ask, the report is complete.
    pub fn step(self, event: &Event) -> (r: (Status, Option<Action>))
        ensures
            (r.0@, opt_action(r.1)) == next_status(self@, event@),
            r.0@.wf(),
    {
        proof {
            use_type_invariant(&self);
        }
        let Status { files, home, mut lines, phase, seen } = self;
        match phase {
            StatusPhase::Probing => {
                let count = files.len();
                assert(seen < count) by {
                    assert(texts(files@).len() == count);
                }
                let mark = if event.affirms() {
                    "  + "
                } else {
                    "  - "
                };
                let ghost before = line_views(lines@);
                lines.push(say(chain(mark, files[seen].as_str())));
                assert(line_views(lines@) =~= before.push(
                    file_line(texts(files@)[seen as int], event@.affirms()),
                ));
                Status::turn(files, home, lines, seen + 1)
            },
            StatusPhase::Done => (Status { files, home, lines, phase, seen }, None),
        }
    }

    /// The report, once it is complete.
    pub fn outcome(&self) -> (r: Option<Vec<Line>>)
        ensures
            match r {
                Some(lines) => self@.outcome() == Some(line_views(lines@)),
                None => self@.outcome() is None,
            },
    {
        match self.phase {
            StatusPhase::Done => Some(copy_lines(&self.lines)),
            StatusPhase::Probing => None,
        }
    }
}

/// Starts a status report on a state, or on the absence of one.
pub fn report(state: Option<&State>, home: &str) -> (r: (Status, Option<Action>))
    ensures
        (r.0@, opt_action(r.1)) == start_status(
            match state {
                Some(s) => Some(s@),
                None => None,
            },
            home@,
        ),
        r.0@.wf(),
{
    let ghost view = match state {
        Some(s) => Some(s@),
        None => None,
    };
    let mut lines: Vec<Line> = Vec::new();
    let active = match state {
        Some(s) => s.active_profile(),
        None => None,
    };
    let files: Vec<String> = match active {
        None => {
            lines.push(say("no active profile set.".to_owned()));
            lines.push(say("run 'dotsync setup --profile=<name>' first.".to_owned()));
            Vec::new()
        },
        Some(profile) => {
            lines.push(say(chain("active profile: ", profile.as_str())));
            lines.push(say(String::new()));
            match state {
                Some(s) => match s.profile_files(profile.as_str()) {
                    None => {
                        lines.push(
                            say(chain3("no files found for profile '", profile.as_str(), "'")),
                        );
                        Vec::new()
                    },
                    Some(files) => {
                        let count = decimal(files.len());
                        lines.push(say(chain3("synced dotfiles (", count.as_str(), "):")));
                        files
                    },
                },
                None => Vec::new(),
            }
        },
    };
    assert(line_views(lines@) =~= heading(view));
    assert(texts(files@) =~= files_to_report(view));
    Status::turn(files, home.to_owned(), lines, 0)
}

/// What `status` makes of the reading of the state file: a report on the
/// state, a report that no profile is active where nothing is initialized,
/// and the failure where the state file is no record.
pub open spec fn status_of(read: Result<StateView, ErrorView>, home: Seq<char>) -> Result<
    (StatusView, Option<ActionView>),
    ErrorView,
> {
    match read {
        Ok(state) => Ok(start_status(Some(state), home)),
        Err(e) => if e.kind == ErrorKind::NotInitialized {
            Ok(start_status(None, home))
        } else {
            Err(e)
        },
    }
}

/// Starts a status report from what reading the state file gave. A status
/// can be asked for in every state, also before anything is initialized and
/// after everything is destroyed.
pub fn status(outcome: ReadOutcome, home: &str) -> (r: Result<(Status, Option<Action>), Error>)
    ensures
        match r {
            Ok((machine, action)) => status_of(loaded(outcome), home@) == Ok::<
                (StatusView, Option<ActionView>),
                ErrorView,
            >((machine@, opt_action(action))) && machine@.wf(),
            Err(e) => status_of(loaded(outcome), home@) == Err::<
                (StatusView, Option<ActionView>),
                ErrorView,
            >(e@),
        },
{
    match load(outcome) {
        Ok(state) => Ok(report(Some(&state), home)),
        Err(e) => if e.kind == ErrorKind::NotInitialized {
            Ok(report(None, home))
        } else {
            Err(e)
        },
    }
}

/// A status report changes nothing: all it ever asks is whether a path is a
/// symlink.
pub proof fn status_only_looks(s: StatusView, e: EventView)
    ensures
        next_status(s, e).1 is Some ==> next_status(s, e).1->0 is ProbeLink,
        next_status(s, e).0.files == s.files,
        s.wf() ==> next_status(s, e).0.wf(),
        next_status(s, e).1 is None <==> next_status(s, e).0.outcome() is Some,
{
}

/// The report after answers that say of each file whether it is linked.
pub open spec fn run_status(s: StatusView, linked: Seq<bool>, steps: nat) -> StatusView
    decreases steps,
{
    if steps == 0 || s.phase == StatusPhase::Done {
        s
    } else {
        run_status(
            next_status(s, EventView::Found { present: linked[s.seen as int] }).0,
            linked,
            (steps - 1) as nat,
        )
    }
}

/// A report ends after one answer for each file, and holds then, after the
/// lines it had, one line for each file, in the order of the profile, with
/// the mark of what was answered for that file.
pub proof fn status_lists_every_file(s: StatusView, linked: Seq<bool>, steps: nat)
    requires
        s.wf(),
        linked.len() == s.files.len(),
        steps >= s.files.len() - s.seen,
    ensures
        run_status(s, linked, steps).outcome() == Some(
            s.lines + Seq::new(
                (s.files.len() - s.seen) as nat,
                |i: int| file_line(s.files[s.seen + i], linked[s.seen + i]),
            ),
        ),
    decreases steps,
{
    let rest = Seq::new(
        (s.files.len() - s.seen) as nat,
        |i: int| file_line(s.files[s.seen + i], linked[s.seen + i]),
    );
    if s.phase == StatusPhase::Done {
        assert(s.lines + rest =~= s.lines);
    } else {
        let t = next_status(s, EventView::Found { present: linked[s.seen as int] }).0;
        status_lists_every_file(t, linked, (steps - 1) as nat);
        let rest_of_t = Seq::new(
            (t.files.len() - t.seen) as nat,
            |i: int| file_line(t.files[t.seen + i], linked[t.seen + i]),
        );
        assert(t.lines + rest_of_t =~= s.lines + rest);
    }
}

} // verus!
