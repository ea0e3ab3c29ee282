//! Linking a profile's files: for each file a symlink in the home directory
//! that points into the fetched tree.

use vstd::prelude::*;
use crate::clock::Stamps;
use crate::effect::{opt_action, Action, ActionView, Event, EventView};
use crate::error::{Error, ErrorKind, ErrorView};
use crate::paths::{
    link_source,
    link_target,
    parent_dir,
    parent_of,
    source_of,
    source_root,
    target_of,
    tree_root,
};
use crate::text::{chain, copy_texts, quote, quoted, texts};

verus! {

/// Where the linking stands: what it is waiting for, or how it ended.
#[derive(Debug)]
pub enum LinkPhase {
    /// The directory of the current file's symlink is looked for.
    Checking,
    /// The directory of the current file's symlink, which is not there, is
    /// being made.
    Preparing,
    /// The current file's symlink is being made.
    Linking,
    /// Every file is linked, since the time given.
    Done(String),
    /// Making a link failed. The links made before it are left in place.
    Failed(Error),
}

/// `LinkPhase` as a mathematical value.
pub enum LinkPhaseView {
    Checking,
    Preparing,
    Linking,
    Done(Seq<char>),
    Failed(ErrorView),
}

impl View for LinkPhase {
    type V = LinkPhaseView;

    open spec fn view(&self) -> LinkPhaseView {
        match self {
            LinkPhase::Checking => LinkPhaseView::Checking,
            LinkPhase::Preparing => LinkPhaseView::Preparing,
            LinkPhase::Linking => LinkPhaseView::Linking,
            LinkPhase::Done(at) => LinkPhaseView::Done(at@),
            LinkPhase::Failed(e) => LinkPhaseView::Failed(e@),
        }
    }
}

/// The linking of a profile under way.
#[derive(Debug)]
pub struct Link {
    files: Vec<String>,
    home: String,
    root: String,
    made: usize,
    phase: LinkPhase,
}

/// `Link` as a mathematical value.
pub struct LinkView {
    /// The files to link, as the profile writes them.
    pub files: Seq<Seq<char>>,
    pub home: Seq<char>,
    /// The root of the fetched tree.
    pub root: Seq<char>,
    /// The number of links made. The current file is the one after these.
    pub made: nat,
    pub phase: LinkPhaseView,
}

impl View for Link {
    type V = LinkView;

    closed spec fn view(&self) -> LinkView {
        LinkView {
            files: texts(self.files@),
            home: self.home@,
            root: self.root@,
            made: self.made as nat,
            phase: self.phase@,
        }
    }
}

impl LinkView {
    /// No more links are made than there are files, and while one is being
    /// made there is a file for it.
    pub open spec fn wf(self) -> bool {
        &&& self.made <= self.files.len()
        &&& (self.phase is Checking || self.phase is Preparing || self.phase is Linking)
            ==> self.made < self.files.len()
        &&& self.phase is Done ==> self.made == self.files.len()
    }

    /// The file that is being linked.
    pub open spec fn current(self) -> Seq<char> {
        self.files[self.made as int]
    }

    /// Where the current file's symlink is made.
    pub open spec fn target(self) -> Seq<char> {
        link_target(self.current(), self.home)
    }

    /// What the current file's symlink points at.
    pub open spec fn source(self) -> Seq<char> {
        link_source(self.current(), self.root)
    }

    /// The directory in which the current file's symlink is made; the empty
    /// path where the place of the symlink lies in no directory.
    pub open spec fn directory(self) -> Seq<char> {
        match parent_of(self.target()) {
            Some(parent) => parent,
            None => Seq::empty(),
        }
    }

    /// The same, in another phase.
    pub open spec fn at(self, phase: LinkPhaseView) -> LinkView {
        LinkView { phase, ..self }
    }

    /// The same, ended in failure.
    pub open spec fn failed(self, message: Seq<char>) -> LinkView {
        self.at(LinkPhaseView::Failed(ErrorView { kind: ErrorKind::Link, message }))
    }

    /// The linking, about to make the symlink of its current file.
    pub open spec fn link(self) -> (LinkView, Option<ActionView>) {
        (
            self.at(LinkPhaseView::Linking),
            Some(ActionView::Symlink { source: self.source(), target: self.target() }),
        )
    }

    /// Turns to the file after those that are linked: the directory of its
    /// symlink is looked for, or, where its place lies in no directory, the
    /// symlink is made at once. With no file left, the linking ends at the
    /// time `now`.
    pub open spec fn seek(self, now: Seq<char>) -> (LinkView, Option<ActionView>) {
        if self.made < self.files.len() {
            match parent_of(self.target()) {
                Some(parent) => (
                    self.at(LinkPhaseView::Checking),
                    Some(ActionView::Probe { path: parent }),
                ),
                None => self.link(),
            }
        } else {
            (self.at(LinkPhaseView::Done(now)), None)
        }
    }

    /// How the linking ended, once it has: with the time at which the last
    /// link was made, or with a failure.
    pub open spec fn outcome(self) -> Option<Result<Seq<char>, ErrorView>> {
        match self.phase {
            LinkPhaseView::Done(at) => Some(Ok(at)),
            LinkPhaseView::Failed(e) => Some(Err(e)),
            _ => None,
        }
    }
}

/// The linking at its start, at the time `now`, and the first thing it asks
/// for. The root of the fetched tree is the configured location without
/// trailing separators, home-expanded.
pub open spec fn start(
    files: Seq<Seq<char>>,
    location: Seq<char>,
    home: Seq<char>,
    now: Seq<char>,
) -> (LinkView, Option<ActionView>) {
    (LinkView {
        files,
        home,
        root: source_root(location, home),
        made: 0,
        phase: LinkPhaseView::Linking,
    }).seek(now)
}

/// The linking after an event that came at the time `now`, and the next
/// thing it asks for. A directory is made only where it is missing. The
/// first failure ends the linking, and the links made until then stay.
pub open spec fn next(s: LinkView, e: EventView, now: Seq<char>) -> (
    LinkView,
    Option<ActionView>,
) {
    match s.phase {
        LinkPhaseView::Checking => if e.affirms() {
            s.link()
        } else {
            (s.at(LinkPhaseView::Preparing), Some(ActionView::MakeDirs { path: s.directory() }))
        },
        LinkPhaseView::Preparing => if e.affirms() {
            s.link()
        } else {
            (
                s.failed(
                    "failed to create directory "@ + quoted(s.directory()) + ": "@ + e.detail(),
                ),
                None,
            )
        },
        LinkPhaseView::Linking => if e.affirms() {
            (LinkView { made: s.made + 1, ..s }).seek(now)
        } else {
            (
                s.failed(
                    "failed to create symlink "@ + quoted(s.source()) + " -> "@ + quoted(
                        s.target(),
                    ) + ": "@ + e.detail(),
                ),
                None,
            )
        },
        LinkPhaseView::Done(_) => (s, None),
        LinkPhaseView::Failed(_) => (s, None),
    }
}

fn failure(message: String) -> (r: LinkPhase)
    ensures
        r@ == LinkPhaseView::Failed(ErrorView { kind: ErrorKind::Link, message: message@ }),
{
    LinkPhase::Failed(Error { kind: ErrorKind::Link, message })
}

impl Link {
    #[verifier::type_invariant]
    spec fn well_formed(&self) -> bool {
        self@.wf()
    }

    /// The directory in which the symlink of a file is made.
    fn directory_of(file: &str, home: &str) -> (r: String)
        ensures
            r@ == match parent_of(link_target(file@, home@)) {
                Some(parent) => parent,
                None => Seq::empty(),
            },
    {
        match parent_dir(target_of(file, home).as_str()) {
            Some(parent) => parent,
            None => String::new(),
        }
    }

    fn make(files: Vec<String>, home: String, root: String, made: usize) -> (r: (
        Link,
        Option<Action>,
    ))
        requires
            made < files.len(),
        ensures
            (r.0@, opt_action(r.1)) == (LinkView {
                files: texts(files@),
                home: home@,
                root: root@,
                made: made as nat,
                phase: LinkPhaseView::Linking,
            }).link(),
            r.0@.wf(),
    {
        let target = target_of(files[made].as_str(), home.as_str());
        let source = source_of(files[made].as_str(), root.as_str());
        (
            Link { files, home, root, made, phase: LinkPhase::Linking },
            Some(Action::Symlink { source, target }),
        )
    }

    fn turn(files: Vec<String>, home: String, root: String, made: usize, now: &str) -> (r: (
        Link,
        Option<Action>,
    ))
        requires
            made <= files.len(),
        ensures
            (r.0@, opt_action(r.1)) == (LinkView {
                files: texts(files@),
                home: home@,
                root: root@,
                made: made as nat,
                phase: LinkPhaseView::Linking,
            }).seek(now@),
            r.0@.wf(),
    {
        if made < files.len() {
            let target = target_of(files[made].as_str(), home.as_str());
            match parent_dir(target.as_str()) {
                Some(parent) => (
                    Link { files, home, root, made, phase: LinkPhase::Checking },
                    Some(Action::Probe { path: parent }),
                ),
                None => Link::make(files, home, root, made),
            }
        } else {
            (Link { files, home, root, made, phase: LinkPhase::Done(now.to_owned()) }, None)
        }
    }

    /// Starts linking `files` into the tree fetched to `location`, at the
    /// time `now`.
    pub fn begin(files: &Vec<String>, location: &str, home: &str, now: &Stamps) -> (r: (
        Link,
        Option<Action>,
    ))
        ensures
            (r.0@, opt_action(r.1)) == start(texts(files@), location@, home@, now@.history),
            r.0@.wf(),
    {
        Link::turn(
            copy_texts(files),
            home.to_owned(),
            tree_root(location, home),
            0,
            now.history().as_str(),
        )
    }

    /// Takes the event that answers the last action, and that came at the
    /// time `now`, and says what to do next. With nothing left to do, the
    /// linking has ended.
    pub fn step(self, event: &Event, now: &Stamps) -> (r: (Link, Option<Action>))
        ensures
            (r.0@, opt_action(r.1)) == next(self@, event@, now@.history),
            r.0@.wf(),
    {
        proof {
            use_type_invariant(&self);
        }
        let yes = event.affirms();
        let Link { files, home, root, made, phase } = self;
        let count = files.len();
        assert(texts(files@).len() == count);
        match phase {
            LinkPhase::Checking => if yes {
                Link::make(files, home, root, made)
            } else {
                let path = Link::directory_of(files[made].as_str(), home.as_str());
                (
                    Link { files, home, root, made, phase: LinkPhase::Preparing },
                    Some(Action::MakeDirs { path }),
                )
            },
            LinkPhase::Preparing => if yes {
                Link::make(files, home, root, made)
            } else {
                let directory = Link::directory_of(files[made].as_str(), home.as_str());
                let mut message = chain(
                    "failed to create directory ",
                    quote(directory.as_str()).as_str(),
                );
                message.append(": ");
                message.append(event.detail().as_str());
                (Link { files, home, root, made, phase: failure(message) }, None)
            },
            LinkPhase::Linking => if yes {
                Link::turn(files, home, root, made + 1, now.history().as_str())
            } else {
                let target = target_of(files[made].as_str(), home.as_str());
                let source = source_of(files[made].as_str(), root.as_str());
                let mut message = chain(
                    "failed to create symlink ",
                    quote(source.as_str()).as_str(),
                );
                message.append(" -> ");
                message.append(quote(target.as_str()).as_str());
                message.append(": ");
                message.append(event.detail().as_str());
                (Link { files, home, root, made, phase: failure(message) }, None)
            },
            LinkPhase::Done(at) => (
                Link { files, home, root, made, phase: LinkPhase::Done(at) },
                None,
            ),
            LinkPhase::Failed(error) => (
                Link { files, home, root, made, phase: LinkPhase::Failed(error) },
                None,
            ),
        }
    }

    /// How the linking ended, once it has: with the time at which the last
    /// link was made, or with a failure.
    pub fn outcome(&self) -> (r: Option<Result<String, Error>>)
        ensures
            match r {
                Some(Ok(at)) => self@.outcome() == Some(Ok::<Seq<char>, ErrorView>(at@)),
                Some(Err(e)) => self@.outcome() == Some(Err::<Seq<char>, ErrorView>(e@)),
                None => self@.outcome() is None,
            },
    {
        match &self.phase {
            LinkPhase::Done(at) => Some(Ok(at.clone())),
            LinkPhase::Failed(e) => Some(Err(e.duplicate())),
            _ => None,
        }
    }

    /// The number of links made so far. After a failure it tells how far the
    /// profile was applied.
    pub fn made(&self) -> (r: usize)
        ensures
            r == self@.made,
    {
        self.made
    }
}

/// The linking stays well formed through every event, and never loses
/// count of a link it made.
pub proof fn linking_stays_well_formed(s: LinkView, e: EventView, now: Seq<char>)
    requires
        s.wf(),
    ensures
        next(s, e, now).0.wf(),
        next(s, e, now).0.files == s.files,
        next(s, e, now).0.made >= s.made,
{
}

/// A failure to link is reported and nothing is rolled back: where a
/// directory cannot be made or a symlink cannot be made, the linking ends
/// in failure, asks for nothing more, and the links made before stay
/// counted. No event makes the linking remove anything.
pub proof fn failed_link_is_not_rolled_back(s: LinkView, e: EventView, now: Seq<char>)
    ensures
        (s.phase is Preparing || s.phase is Linking) && !e.affirms() ==> {
            &&& next(s, e, now).0.phase is Failed
            &&& next(s, e, now).0.phase->Failed_0.kind == ErrorKind::Link
            &&& next(s, e, now).1 is None
            &&& next(s, e, now).0.made == s.made
        },
        !(next(s, e, now).1 matches Some(ActionView::RemoveFile { .. })),
        s.outcome() is Some ==> next(s, e, now) == (s, None::<ActionView>),
{
}

/// A directory is made only where it is missing: only in answer to the news
/// that the directory of the current file's symlink is not there, and it is
/// this directory that is made.
pub proof fn directory_is_made_where_missing(s: LinkView, e: EventView, now: Seq<char>)
    requires
        next(s, e, now).1 matches Some(ActionView::MakeDirs { .. }),
    ensures
        s.phase is Checking,
        !e.affirms(),
        next(s, e, now).1 == Some(ActionView::MakeDirs { path: s.directory() }),
        next(s, e, now).0.made == s.made,
{
}

/// The links are made in the order of the profile: each link is that of
/// the file after those already linked, from its place in the fetched tree
/// to its place in the home directory.
pub proof fn links_follow_the_profile(s: LinkView, e: EventView, now: Seq<char>)
    requires
        next(s, e, now).1 matches Some(ActionView::Symlink { .. }),
    ensures
        ({
            let t = next(s, e, now).0;
            &&& t.phase is Linking
            &&& next(s, e, now).1 == Some(
                ActionView::Symlink {
                    source: link_source(t.files[t.made as int], t.root),
                    target: link_target(t.files[t.made as int], t.home),
                },
            )
            &&& s.phase is Linking ==> t.made == s.made + 1 && e.affirms()
            &&& !(s.phase is Linking) ==> t.made == s.made
        }),
{
}

/// The answer that a cooperative world gives to the linking: the directory
/// of each file's symlink is there or not as `there` says, and everything
/// asked for is done.
pub open spec fn answer(s: LinkView, there: Seq<bool>) -> EventView {
    if s.phase is Checking {
        EventView::Found { present: there[s.made as int] }
    } else {
        EventView::Completed
    }
}

/// The linking after at most `steps` answers of a cooperative world, all at
/// the time `now`.
pub open spec fn run(s: LinkView, there: Seq<bool>, now: Seq<char>, steps: nat) -> LinkView
    decreases steps,
{
    if steps == 0 || s.outcome() is Some {
        s
    } else {
        run(next(s, answer(s, there), now).0, there, now, (steps - 1) as nat)
    }
}

/// The number of events after which the linking has ended at the latest.
pub open spec fn work_left(s: LinkView) -> nat {
    let files = (s.files.len() - s.made) as nat;
    match s.phase {
        LinkPhaseView::Checking => 3 * files,
        LinkPhaseView::Preparing => (3 * files - 1) as nat,
        LinkPhaseView::Linking => (3 * files - 2) as nat,
        LinkPhaseView::Done(_) => 0,
        LinkPhaseView::Failed(_) => 0,
    }
}

/// Where nothing fails, every file of the profile is linked, whichever
/// directories were there before, and the linking ends with the time of its
/// last event.
pub proof fn linking_covers_the_profile(
    s: LinkView,
    there: Seq<bool>,
    now: Seq<char>,
    steps: nat,
)
    requires
        s.wf(),
        s.outcome() is None,
        steps >= work_left(s),
    ensures
        run(s, there, now, steps).outcome() == Some(Ok::<Seq<char>, ErrorView>(now)),
        run(s, there, now, steps).made == s.files.len(),
    decreases steps,
{
    let t = next(s, answer(s, there), now).0;
    linking_stays_well_formed(s, answer(s, there), now);
    assert(work_left(t) < work_left(s));
    if t.outcome() is None {
        linking_covers_the_profile(t, there, now, (steps - 1) as nat);
    } else {
        assert(run(t, there, now, (steps - 1) as nat) == t);
    }
}

} // verus!
