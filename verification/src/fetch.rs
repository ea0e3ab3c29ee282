//! Fetching the dotfiles tree: by downloading and unpacking an archive, or
//! by cloning a repository.

use vstd::prelude::*;
use crate::effect::{opt_action, Action, ActionView, Event, EventView};
use crate::error::{Error, ErrorKind, ErrorView};
use crate::paths::{parent_dir, parent_of, temp_archive, temp_archive_path};
use crate::source::{classify, detect_source_type, SourceType};
use crate::state::opt_text;
use crate::text::{chain, texts};

verus! {

/// Where a fetch stands: what it is waiting for, or how it ended.
#[derive(Debug)]
pub enum FetchPhase {
    /// Archive: the directories above the destination are being made.
    PreparingArchive,
    /// Archive: the download runs.
    Downloading,
    /// Archive: the download is being unpacked.
    Extracting,
    /// Archive: unpacking failed, and the download is being removed before
    /// the failure is reported.
    Discarding(Error),
    /// Archive: unpacking is done, and the download is being removed.
    Clearing,
    /// Repository: the version-control client is asked for its version.
    CheckingClient,
    /// Repository: the directories above the destination are being made.
    PreparingClone,
    /// Repository: the clone runs.
    Cloning,
    /// The tree is in place.
    Done,
    /// The fetch failed.
    Failed(Error),
}

/// `FetchPhase` as a mathematical value.
pub enum FetchPhaseView {
    PreparingArchive,
    Downloading,
    Extracting,
    Discarding(ErrorView),
    Clearing,
    CheckingClient,
    PreparingClone,
    Cloning,
    Done,
    Failed(ErrorView),
}

impl View for FetchPhase {
    type V = FetchPhaseView;

    open spec fn view(&self) -> FetchPhaseView {
        match self {
            FetchPhase::PreparingArchive => FetchPhaseView::PreparingArchive,
            FetchPhase::Downloading => FetchPhaseView::Downloading,
            FetchPhase::Extracting => FetchPhaseView::Extracting,
            FetchPhase::Discarding(e) => FetchPhaseView::Discarding(e@),
            FetchPhase::Clearing => FetchPhaseView::Clearing,
            FetchPhase::CheckingClient => FetchPhaseView::CheckingClient,
            FetchPhase::PreparingClone => FetchPhaseView::PreparingClone,
            FetchPhase::Cloning => FetchPhaseView::Cloning,
            FetchPhase::Done => FetchPhaseView::Done,
            FetchPhase::Failed(e) => FetchPhaseView::Failed(e@),
        }
    }
}

/// A fetch under way.
#[derive(Debug)]
pub struct Fetch {
    url: String,
    branch: String,
    destination: String,
    temp: String,
    phase: FetchPhase,
}

/// `Fetch` as a mathematical value.
pub struct FetchView {
    pub url: Seq<char>,
    /// The branch to clone; empty for the remote's default.
    pub branch: Seq<char>,
    pub destination: Seq<char>,
    /// Where the archive is downloaded to.
    pub temp: Seq<char>,
    pub phase: FetchPhaseView,
}

impl View for Fetch {
    type V = FetchView;

    closed spec fn view(&self) -> FetchView {
        FetchView {
            url: self.url@,
            branch: self.branch@,
            destination: self.destination@,
            temp: self.temp@,
            phase: self.phase@,
        }
    }
}

/// The arguments of the clone: the branch is asked for only when one is
/// named.
pub open spec fn clone_args(url: Seq<char>, branch: Seq<char>, destination: Seq<char>) -> Seq<
    Seq<char>,
> {
    if branch.len() > 0 {
        seq!["clone"@, "--branch"@, branch, url, destination]
    } else {
        seq!["clone"@, url, destination]
    }
}

/// The arguments of the download.
pub open spec fn download_args(url: Seq<char>, temp: Seq<char>) -> Seq<Seq<char>> {
    seq!["-L"@, "-o"@, temp, url]
}

/// The arguments of the unpacking.
pub open spec fn extract_args(temp: Seq<char>, destination: Seq<char>) -> Seq<Seq<char>> {
    seq!["-q"@, temp, "-d"@, destination]
}

/// The line that reports a program that failed: what it wrote to standard
/// error when it ran, the reason when it could not be run.
pub open spec fn run_failure(program: Seq<char>, ended_badly: Seq<char>, e: EventView) -> Seq<
    char,
> {
    match e {
        EventView::Exited { stderr, .. } => ended_badly + stderr,
        _ => "failed to execute "@ + program + ": "@ + e.detail(),
    }
}

impl FetchView {
    /// The fetch, failed with a message.
    pub open spec fn failed(self, kind: ErrorKind, message: Seq<char>) -> FetchView {
        FetchView { phase: FetchPhaseView::Failed(ErrorView { kind, message }), ..self }
    }

    /// The fetch in another phase.
    pub open spec fn at(self, phase: FetchPhaseView) -> FetchView {
        FetchView { phase, ..self }
    }

    /// The fetch, about to download the archive.
    pub open spec fn download(self) -> (FetchView, Option<ActionView>) {
        (
            self.at(FetchPhaseView::Downloading),
            Some(ActionView::Run { program: "curl"@, args: download_args(self.url, self.temp) }),
        )
    }

    /// The fetch, about to clone the repository.
    pub open spec fn run_clone(self) -> (FetchView, Option<ActionView>) {
        (
            self.at(FetchPhaseView::Cloning),
            Some(
                ActionView::Run {
                    program: "git"@,
                    args: clone_args(self.url, self.branch, self.destination),
                },
            ),
        )
    }

    /// Before anything is fetched, the directory that the destination lies
    /// in is made with all above it, in the phase `preparing`; where the
    /// destination lies in no directory, the fetch goes on as `then`.
    pub open spec fn prepare(
        self,
        preparing: FetchPhaseView,
        then: (FetchView, Option<ActionView>),
    ) -> (FetchView, Option<ActionView>) {
        match parent_of(self.destination) {
            Some(parent) => (self.at(preparing), Some(ActionView::MakeDirs { path: parent })),
            None => then,
        }
    }

    /// How the fetch ended, once it has.
    pub open spec fn outcome(self) -> Option<Result<(), ErrorView>> {
        match self.phase {
            FetchPhaseView::Done => Some(Ok(())),
            FetchPhaseView::Failed(e) => Some(Err(e)),
            _ => None,
        }
    }
}

/// A fetch at its start, and the first thing it asks for. The location
/// decides the way: an archive is downloaded, anything else is cloned.
pub open spec fn start(url: Seq<char>, branch: Option<Seq<char>>, destination: Seq<char>) -> (
    FetchView,
    Option<ActionView>,
) {
    let s = FetchView {
        url,
        branch: match branch {
            Some(b) => b,
            None => Seq::empty(),
        },
        destination,
        temp: temp_archive(destination),
        phase: FetchPhaseView::PreparingArchive,
    };
    if classify(url) == SourceType::Zip {
        s.prepare(FetchPhaseView::PreparingArchive, s.download())
    } else {
        (
            s.at(FetchPhaseView::CheckingClient),
            Some(ActionView::Run { program: "git"@, args: seq!["--version"@] }),
        )
    }
}

/// The fetch after an event, and the next thing it asks for.
pub open spec fn next(s: FetchView, e: EventView) -> (FetchView, Option<ActionView>) {
    match s.phase {
        FetchPhaseView::PreparingArchive => if e.affirms() {
            s.download()
        } else {
            (s.failed(ErrorKind::Fetch, "failed to create directories: "@ + e.detail()), None)
        },
        FetchPhaseView::Downloading => if e.affirms() {
            (
                s.at(FetchPhaseView::Extracting),
                Some(
                    ActionView::Run {
                        program: "unzip"@,
                        args: extract_args(s.temp, s.destination),
                    },
                ),
            )
        } else {
            (s.failed(ErrorKind::Fetch, run_failure("curl"@, "curl failed: "@, e)), None)
        },
        FetchPhaseView::Extracting => if e.affirms() {
            (s.at(FetchPhaseView::Clearing), Some(ActionView::RemoveFile { path: s.temp }))
        } else {
            (
                s.at(
                    FetchPhaseView::Discarding(
                        ErrorView {
                            kind: ErrorKind::Fetch,
                            message: run_failure("unzip"@, "unzip failed: "@, e),
                        },
                    ),
                ),
                Some(ActionView::RemoveFile { path: s.temp }),
            )
        },
        FetchPhaseView::Discarding(error) => (s.at(FetchPhaseView::Failed(error)), None),
        FetchPhaseView::Clearing => if e.affirms() {
            (s.at(FetchPhaseView::Done), None)
        } else {
            (
                s.failed(ErrorKind::Fetch, "failed to remove temporary zip file: "@ + e.detail()),
                None,
            )
        },
        FetchPhaseView::CheckingClient => if e.affirms() {
            s.prepare(FetchPhaseView::PreparingClone, s.run_clone())
        } else {
            (
                s.failed(
                    ErrorKind::ToolMissing,
                    "git is not installed. please install git to proceed."@,
                ),
                None,
            )
        },
        FetchPhaseView::PreparingClone => if e.affirms() {
            s.run_clone()
        } else {
            (s.failed(ErrorKind::Fetch, "failed to create directories: "@ + e.detail()), None)
        },
        FetchPhaseView::Cloning => if e.affirms() {
            (s.at(FetchPhaseView::Done), None)
        } else {
            (s.failed(ErrorKind::Fetch, run_failure("git"@, "git clone failed: "@, e)), None)
        },
        FetchPhaseView::Done => (s, None),
        FetchPhaseView::Failed(_) => (s, None),
    }
}

/// How far a fetch has come.
pub open spec fn progress(phase: FetchPhaseView) -> nat {
    match phase {
        FetchPhaseView::PreparingArchive => 0,
        FetchPhaseView::Downloading => 1,
        FetchPhaseView::Extracting => 2,
        FetchPhaseView::Discarding(_) => 3,
        FetchPhaseView::Clearing => 3,
        FetchPhaseView::CheckingClient => 0,
        FetchPhaseView::PreparingClone => 1,
        FetchPhaseView::Cloning => 2,
        FetchPhaseView::Done => 4,
        FetchPhaseView::Failed(_) => 4,
    }
}

/// The line that reports a program that failed.
fn report_run(program: &str, ended_badly: &str, event: &Event) -> (r: String)
    ensures
        r@ == run_failure(program@, ended_badly@, event@),
{
    match event {
        Event::Exited { stderr, .. } => chain(ended_badly, stderr.as_str()),
        _ => {
            let mut r = chain("failed to execute ", program);
            r.append(": ");
            r.append(event.detail().as_str());
            r
        },
    }
}

/// The list of the arguments of a clone.
pub fn clone_arguments(url: &str, branch: &str, destination: &str) -> (r: Vec<String>)
    ensures
        texts(r@) == clone_args(url@, branch@, destination@),
{
    let mut args: Vec<String> = Vec::new();
    args.push("clone".to_owned());
    if branch.unicode_len() > 0 {
        args.push("--branch".to_owned());
        args.push(branch.to_owned());
    }
    args.push(url.to_owned());
    args.push(destination.to_owned());
    assert(texts(args@) =~= clone_args(url@, branch@, destination@));
    args
}

impl Fetch {
    /// Starts a fetch of `url` into `destination`.
    pub fn begin(url: &str, branch: &Option<String>, destination: &str) -> (r: (
        Fetch,
        Option<Action>,
    ))
        ensures
            (r.0@, opt_action(r.1)) == start(url@, opt_text(*branch), destination@),
    {
        let branch = match branch {
            Some(b) => b.clone(),
            None => String::new(),
        };
        let temp = temp_archive_path(destination);
        let (phase, action) = if detect_source_type(url) == SourceType::Zip {
            match parent_dir(destination) {
                Some(path) => (FetchPhase::PreparingArchive, Some(Action::MakeDirs { path })),
                None => (FetchPhase::Downloading, Some(Fetch::curl(url, temp.as_str()))),
            }
        } else {
            let mut args: Vec<String> = Vec::new();
            args.push("--version".to_owned());
            assert(texts(args@) =~= seq!["--version"@]);
            (FetchPhase::CheckingClient, Some(Action::Run { program: "git".to_owned(), args }))
        };
        (
            Fetch { url: url.to_owned(), branch, destination: destination.to_owned(), temp, phase },
            action,
        )
    }

    /// The download of `url` to `temp`.
    fn curl(url: &str, temp: &str) -> (r: Action)
        ensures
            r@ == (ActionView::Run { program: "curl"@, args: download_args(url@, temp@) }),
    {
        let mut args: Vec<String> = Vec::new();
        args.push("-L".to_owned());
        args.push("-o".to_owned());
        args.push(temp.to_owned());
        args.push(url.to_owned());
        assert(texts(args@) =~= download_args(url@, temp@));
        Action::Run { program: "curl".to_owned(), args }
    }

    /// The clone of `url` into `destination`.
    fn git_clone(url: &str, branch: &str, destination: &str) -> (r: Action)
        ensures
            r@ == (ActionView::Run {
                program: "git"@,
                args: clone_args(url@, branch@, destination@),
            }),
    {
        Action::Run { program: "git".to_owned(), args: clone_arguments(url, branch, destination) }
    }

    /// Takes the event that answers the last action, and says what to do
    /// next. With nothing left to do, the fetch has ended.
    pub fn step(self, event: &Event) -> (r: (Fetch, Option<Action>))
        ensures
            (r.0@, opt_action(r.1)) == next(self@, event@),
    {
        let yes = event.affirms();
        let Fetch { url, branch, destination, temp, phase } = self;
        let (phase, action) = match phase {
            FetchPhase::PreparingArchive => if yes {
                (FetchPhase::Downloading, Some(Fetch::curl(url.as_str(), temp.as_str())))
            } else {
                let message = chain("failed to create directories: ", event.detail().as_str());
                (FetchPhase::Failed(Error { kind: ErrorKind::Fetch, message }), None)
            },
            FetchPhase::Downloading => if yes {
                let mut args: Vec<String> = Vec::new();
                args.push("-q".to_owned());
                args.push(temp.clone());
                args.push("-d".to_owned());
                args.push(destination.clone());
                assert(texts(args@) =~= extract_args(temp@, destination@));
                (FetchPhase::Extracting, Some(Action::Run { program: "unzip".to_owned(), args }))
            } else {
                let message = report_run("curl", "curl failed: ", event);
                (FetchPhase::Failed(Error { kind: ErrorKind::Fetch, message }), None)
            },
            FetchPhase::Extracting => {
                let remove = Some(Action::RemoveFile { path: temp.clone() });
                if yes {
                    (FetchPhase::Clearing, remove)
                } else {
                    let message = report_run("unzip", "unzip failed: ", event);
                    (FetchPhase::Discarding(Error { kind: ErrorKind::Fetch, message }), remove)
                }
            },
            FetchPhase::Discarding(error) => (FetchPhase::Failed(error), None),
            FetchPhase::Clearing => if yes {
                (FetchPhase::Done, None)
            } else {
                let message = chain(
                    "failed to remove temporary zip file: ",
                    event.detail().as_str(),
                );
                (FetchPhase::Failed(Error { kind: ErrorKind::Fetch, message }), None)
            },
            FetchPhase::CheckingClient => if yes {
                match parent_dir(destination.as_str()) {
                    Some(path) => (FetchPhase::PreparingClone, Some(Action::MakeDirs { path })),
                    None => (
                        FetchPhase::Cloning,
                        Some(Fetch::git_clone(url.as_str(), branch.as_str(), destination.as_str())),
                    ),
                }
            } else {
                let message = "git is not installed. please install git to proceed.".to_owned();
                (FetchPhase::Failed(Error { kind: ErrorKind::ToolMissing, message }), None)
            },
            FetchPhase::PreparingClone => if yes {
                (
                    FetchPhase::Cloning,
                    Some(Fetch::git_clone(url.as_str(), branch.as_str(), destination.as_str())),
                )
            } else {
                let message = chain("failed to create directories: ", event.detail().as_str());
                (FetchPhase::Failed(Error { kind: ErrorKind::Fetch, message }), None)
            },
            FetchPhase::Cloning => if yes {
                (FetchPhase::Done, None)
            } else {
                let message = report_run("git", "git clone failed: ", event);
                (FetchPhase::Failed(Error { kind: ErrorKind::Fetch, message }), None)
            },
            FetchPhase::Done => (FetchPhase::Done, None),
            FetchPhase::Failed(error) => (FetchPhase::Failed(error), None),
        };
        (Fetch { url, branch, destination, temp, phase }, action)
    }

    /// How the fetch ended, once it has.
    pub fn outcome(&self) -> (r: Option<Result<(), Error>>)
        ensures
            match r {
                Some(Ok(_)) => self@.outcome() == Some(Ok::<(), ErrorView>(())),
                Some(Err(e)) => self@.outcome() == Some(Err::<(), ErrorView>(e@)),
                None => self@.outcome() is None,
            },
    {
        match &self.phase {
            FetchPhase::Done => Some(Ok(())),
            FetchPhase::Failed(e) => Some(Err(e.duplicate())),
            _ => None,
        }
    }
}

/// A download is removed whatever came of unpacking it: whether the
/// unpacking ended well, ended badly, or could not be run at all. After a
/// failed unpacking the fetch fails however the removal went.
pub proof fn download_is_removed_after_extraction(s: FetchView, e: EventView, removal: EventView)
    requires
        s.phase is Extracting,
    ensures
        next(s, e).1 == Some(ActionView::RemoveFile { path: s.temp }),
        !e.affirms() ==> next(next(s, e).0, removal).0.phase is Failed,
{
}

/// Nothing is tried twice: each event moves a fetch forward, so that a fetch
/// ends after at most four events, and a fetch that has ended asks for
/// nothing more.
pub proof fn fetch_moves_forward(s: FetchView, e: EventView)
    ensures
        s.outcome() is None ==> progress(next(s, e).0.phase) > progress(s.phase),
        s.outcome() is Some ==> next(s, e) == (s, None::<ActionView>),
        next(s, e).1 is None <==> next(s, e).0.outcome() is Some,
        progress(s.phase) <= 4,
{
}

/// A failure is reported, never passed over: an event that says no ends the
/// fetch in failure, at once or once the download is discarded.
pub proof fn failure_is_reported(s: FetchView, e: EventView)
    requires
        s.outcome() is None,
        !e.affirms(),
    ensures
        next(s, e).0.phase is Failed || next(s, e).0.phase is Discarding,
        next(s, e).0.phase is Failed ==> next(s, e).0.outcome() is Some && next(
            s,
            e,
        ).0.outcome()->0 is Err,
{
}

/// The way of a fetch follows the source type of its location: an archive
/// is prepared for and downloaded, and for anything else the client is
/// asked for first.
pub proof fn way_follows_source_type(
    url: Seq<char>,
    branch: Option<Seq<char>>,
    destination: Seq<char>,
)
    ensures
        classify(url) == SourceType::Zip <==> start(url, branch, destination).0.phase
            is PreparingArchive || start(url, branch, destination).0.phase is Downloading,
        classify(url) != SourceType::Zip <==> start(url, branch, destination).0.phase
            is CheckingClient,
        start(url, branch, destination).0.outcome() is None,
        start(url, branch, destination).1 is Some,
{
}

/// The directory that the destination lies in is made before anything is
/// fetched: a download or a clone is asked for only where that directory
/// was made, or where the destination lies in none.
pub proof fn destination_is_prepared_first(s: FetchView, e: EventView)
    requires
        next(s, e).1 matches Some(ActionView::Run { program, .. }) && (program == "curl"@
            || (program == "git"@ && next(s, e).0.phase is Cloning)),
    ensures
        e.affirms(),
        s.phase is PreparingArchive || s.phase is PreparingClone || (s.phase is CheckingClient
            && parent_of(s.destination) is None),
{
    reveal_strlit("curl");
    reveal_strlit("unzip");
    reveal_strlit("git");
}

} // verus!
