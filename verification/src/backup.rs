//! Backing up a profile's files: each file that exists is stored in one
//! archive and then removed from where it was.

use vstd::prelude::*;
use crate::clock::{archive_name, is_time, name_archive, Stamps};
use crate::effect::{opt_action, Action, ActionView, Event, EventView};
use crate::error::{Error, ErrorKind, ErrorView};
use crate::paths::{expand_home, expanded, join_path, joined};
use crate::text::{chain, copy_texts, quote, quoted, texts};

verus! {

/// Where a backup stands: what it is waiting for, or how it ended.
#[derive(Debug)]
pub enum BackupPhase {
    /// The backup directory is being made.
    MakingDir,
    /// The archive is being created.
    Creating,
    /// The current file is looked for.
    Probing,
    /// The current file is being read.
    Reading,
    /// The entry of the current file is being begun in the archive.
    Starting,
    /// What was read of the current file is being written to its entry.
    Writing,
    /// The current file, now stored, is being removed.
    Removing,
    /// The archive is being finished.
    Finishing,
    /// The archive is complete.
    Done,
    /// The backup failed. What was written of the archive is left behind.
    Failed(Error),
}

/// `BackupPhase` as a mathematical value.
pub enum BackupPhaseView {
    MakingDir,
    Creating,
    Probing,
    Reading,
    Starting,
    Writing,
    Removing,
    Finishing,
    Done,
    Failed(ErrorView),
}

impl View for BackupPhase {
    type V = BackupPhaseView;

    open spec fn view(&self) -> BackupPhaseView {
        match self {
            BackupPhase::MakingDir => BackupPhaseView::MakingDir,
            BackupPhase::Creating => BackupPhaseView::Creating,
            BackupPhase::Probing => BackupPhaseView::Probing,
            BackupPhase::Reading => BackupPhaseView::Reading,
            BackupPhase::Starting => BackupPhaseView::Starting,
            BackupPhase::Writing => BackupPhaseView::Writing,
            BackupPhase::Removing => BackupPhaseView::Removing,
            BackupPhase::Finishing => BackupPhaseView::Finishing,
            BackupPhase::Done => BackupPhaseView::Done,
            BackupPhase::Failed(e) => BackupPhaseView::Failed(e@),
        }
    }
}

/// A backup under way.
#[derive(Debug)]
pub struct Backup {
    files: Vec<String>,
    home: String,
    dir: String,
    archive: String,
    taken: Vec<bool>,
    phase: BackupPhase,
}

/// `Backup` as a mathematical value.
pub struct BackupView {
    /// The files to back up, as the profile writes them.
    pub files: Seq<Seq<char>>,
    pub home: Seq<char>,
    /// The backup directory.
    pub dir: Seq<char>,
    /// The archive that is written.
    pub archive: Seq<char>,
    /// For each file that the backup is through with, whether it went into
    /// the archive. The current file is the one after these.
    pub taken: Seq<bool>,
    pub phase: BackupPhaseView,
}

impl View for Backup {
    type V = BackupView;

    closed spec fn view(&self) -> BackupView {
        BackupView {
            files: texts(self.files@),
            home: self.home@,
            dir: self.dir@,
            archive: self.archive@,
            taken: self.taken@,
            phase: self.phase@,
        }
    }
}

impl BackupView {
    /// The backup is through with no more files than there are, and while
    /// it works on a file there is one.
    pub open spec fn wf(self) -> bool {
        &&& self.taken.len() <= self.files.len()
        &&& self.at_a_file() ==> self.taken.len() < self.files.len()
        &&& (self.phase is Finishing || self.phase is Done) ==> self.taken.len()
            == self.files.len()
    }

    /// The backup works on a file: it looks for it, stores it or removes it.
    pub open spec fn at_a_file(self) -> bool {
        self.phase is Probing || self.storing() || self.phase is Removing
    }

    /// The backup is storing its current file in the archive, step by step:
    /// it reads the file, begins its entry, or writes what was read.
    pub open spec fn storing(self) -> bool {
        self.phase is Reading || self.phase is Starting || self.phase is Writing
    }

    /// The file that the backup works on, as the profile writes it. It is
    /// the name of the file's entry in the archive.
    pub open spec fn current(self) -> Seq<char> {
        self.files[self.taken.len() as int]
    }

    /// Where the current file is on disk.
    pub open spec fn current_path(self) -> Seq<char> {
        expanded(self.current(), self.home)
    }

    /// The same, in another phase.
    pub open spec fn at(self, phase: BackupPhaseView) -> BackupView {
        BackupView { phase, ..self }
    }

    /// The same, ended in failure.
    pub open spec fn failed(self, message: Seq<char>) -> BackupView {
        self.at(BackupPhaseView::Failed(ErrorView { kind: ErrorKind::Backup, message }))
    }

    /// The backup, through with its current file.
    pub open spec fn past(self, taken: bool) -> BackupView {
        BackupView { taken: self.taken.push(taken), ..self }
    }

    /// Turns to the file after those the backup is through with: it is
    /// looked for, or, with no file left, the archive is finished.
    pub open spec fn seek(self) -> (BackupView, Option<ActionView>) {
        if self.taken.len() < self.files.len() {
            (
                self.at(BackupPhaseView::Probing),
                Some(ActionView::Probe { path: self.current_path() }),
            )
        } else {
            (self.at(BackupPhaseView::Finishing), Some(ActionView::FinishArchive))
        }
    }

    /// How the backup ended, once it has: with the path of the archive, or
    /// with a failure.
    pub open spec fn outcome(self) -> Option<Result<Seq<char>, ErrorView>> {
        match self.phase {
            BackupPhaseView::Done => Some(Ok(self.archive)),
            BackupPhaseView::Failed(e) => Some(Err(e)),
            _ => None,
        }
    }

    /// The files that went into the archive so far, in order.
    pub open spec fn captured(self) -> Seq<Seq<char>> {
        kept(self.files.take(self.taken.len() as int), self.taken)
    }
}

/// Those of `files` whose flag is set, in order.
pub open spec fn kept(files: Seq<Seq<char>>, flags: Seq<bool>) -> Seq<Seq<char>>
    decreases flags.len(),
{
    if flags.len() == 0 || files.len() == 0 {
        Seq::empty()
    } else if flags.last() {
        kept(files.drop_last(), flags.drop_last()).push(files.last())
    } else {
        kept(files.drop_last(), flags.drop_last())
    }
}

/// A backup at its start, and the first thing it asks for. The archive is
/// named after the time `stamp` and lies in the backup directory.
pub open spec fn start(
    files: Seq<Seq<char>>,
    backup_path: Seq<char>,
    home: Seq<char>,
    stamp: Seq<char>,
) -> (BackupView, Option<ActionView>) {
    let dir = expanded(backup_path, home);
    (
        BackupView {
            files,
            home,
            dir,
            archive: joined(dir, archive_name(stamp)),
            taken: Seq::empty(),
            phase: BackupPhaseView::MakingDir,
        },
        Some(ActionView::MakeDirs { path: dir }),
    )
}

/// The backup after an event, and the next thing it asks for.
///
/// A file that is not there is passed over. A file that is there is stored
/// in the archive first and removed only when that went well. Any failure
/// ends the backup.
pub open spec fn next(s: BackupView, e: EventView) -> (BackupView, Option<ActionView>) {
    match s.phase {
        BackupPhaseView::MakingDir => if e.affirms() {
            (s.at(BackupPhaseView::Creating), Some(ActionView::CreateArchive { path: s.archive }))
        } else {
            (
                s.failed(
                    "failed to create backup directory "@ + quoted(s.dir) + ": "@ + e.detail(),
                ),
                None,
            )
        },
        BackupPhaseView::Creating => if e.affirms() {
            s.seek()
        } else {
            (
                s.failed("failed to create zip file "@ + quoted(s.archive) + ": "@ + e.detail()),
                None,
            )
        },
        BackupPhaseView::Probing => if e.affirms() {
            (s.at(BackupPhaseView::Reading), Some(ActionView::ReadFile { path: s.current_path() }))
        } else {
            s.past(false).seek()
        },
        BackupPhaseView::Reading => if e.affirms() {
            (s.at(BackupPhaseView::Starting), Some(ActionView::StartEntry { entry: s.current() }))
        } else {
            (
                s.failed(
                    "failed to read file "@ + quoted(s.current_path()) + ": "@ + e.detail(),
                ),
                None,
            )
        },
        BackupPhaseView::Starting => if e.affirms() {
            (s.at(BackupPhaseView::Writing), Some(ActionView::WriteEntry))
        } else {
            (s.failed("failed to add file to zip: "@ + e.detail()), None)
        },
        BackupPhaseView::Writing => if e.affirms() {
            (
                s.at(BackupPhaseView::Removing),
                Some(ActionView::RemoveFile { path: s.current_path() }),
            )
        } else {
            (s.failed("failed to write to zip: "@ + e.detail()), None)
        },
        BackupPhaseView::Removing => if e.affirms() {
            s.past(true).seek()
        } else {
            (
                s.failed(
                    "failed to remove file from "@ + quoted(s.current()) + ": "@ + e.detail(),
                ),
                None,
            )
        },
        BackupPhaseView::Finishing => if e.affirms() {
            (s.at(BackupPhaseView::Done), None)
        } else {
            (s.failed("failed to finalize zip: "@ + e.detail()), None)
        },
        BackupPhaseView::Done => (s, None),
        BackupPhaseView::Failed(_) => (s, None),
    }
}

fn failure(message: String) -> (r: BackupPhase)
    ensures
        r@ == BackupPhaseView::Failed(ErrorView { kind: ErrorKind::Backup, message: message@ }),
{
    BackupPhase::Failed(Error { kind: ErrorKind::Backup, message })
}

/// `what`, a quoted path, a colon and the reason.
fn describe(what: &str, path: &str, event: &Event) -> (r: String)
    ensures
        r@ == what@ + quoted(path@) + ": "@ + event@.detail(),
{
    let mut r = chain(what, quote(path).as_str());
    r.append(": ");
    r.append(event.detail().as_str());
    r
}

impl Backup {
    #[verifier::type_invariant]
    spec fn well_formed(&self) -> bool {
        self@.wf()
    }

    /// Starts a backup of `files` into a new archive in `backup_path`, named
    /// after the time `now`, to the second.
    pub fn begin(files: &Vec<String>, backup_path: &str, home: &str, now: &Stamps) -> (r: (
        Backup,
        Option<Action>,
    ))
        ensures
            (r.0@, opt_action(r.1)) == start(texts(files@), backup_path@, home@, now@.archive),
            r.0@.wf(),
            is_time(now@.archive),
    {
        let dir = expand_home(backup_path, home);
        let archive = join_path(dir.as_str(), name_archive(now.archive().as_str()).as_str());
        let action = Action::MakeDirs { path: dir.clone() };
        (
            Backup {
                files: copy_texts(files),
                home: home.to_owned(),
                dir,
                archive,
                taken: Vec::new(),
                phase: BackupPhase::MakingDir,
            },
            Some(action),
        )
    }

    /// Turns to the file after those the backup is through with.
    fn turn(
        files: Vec<String>,
        home: String,
        dir: String,
        archive: String,
        taken: Vec<bool>,
    ) -> (r: (Backup, Option<Action>))
        requires
            taken.len() <= files.len(),
        ensures
            (r.0@, opt_action(r.1)) == (BackupView {
                files: texts(files@),
                home: home@,
                dir: dir@,
                archive: archive@,
                taken: taken@,
                phase: BackupPhaseView::Done,
            }).seek(),
    {
        if taken.len() < files.len() {
            let path = expand_home(files[taken.len()].as_str(), home.as_str());
            (
                Backup { files, home, dir, archive, taken, phase: BackupPhase::Probing },
                Some(Action::Probe { path }),
            )
        } else {
            (
                Backup { files, home, dir, archive, taken, phase: BackupPhase::Finishing },
                Some(Action::FinishArchive),
            )
        }
    }

    /// Takes the event that answers the last action, and says what to do
    /// next. With nothing left to do, the backup has ended.
    pub fn step(self, event: &Event) -> (r: (Backup, Option<Action>))
        ensures
            (r.0@, opt_action(r.1)) == next(self@, event@),
            r.0@.wf(),
    {
        proof {
            use_type_invariant(&self);
        }
        let yes = event.affirms();
        let Backup { files, home, dir, archive, mut taken, phase } = self;
        match phase {
            BackupPhase::MakingDir => if yes {
                let action = Action::CreateArchive { path: archive.clone() };
                (
                    Backup { files, home, dir, archive, taken, phase: BackupPhase::Creating },
                    Some(action),
                )
            } else {
                let message = describe("failed to create backup directory ", dir.as_str(), event);
                (Backup { files, home, dir, archive, taken, phase: failure(message) }, None)
            },
            BackupPhase::Creating => if yes {
                Backup::turn(files, home, dir, archive, taken)
            } else {
                let message = describe("failed to create zip file ", archive.as_str(), event);
                (Backup { files, home, dir, archive, taken, phase: failure(message) }, None)
            },
            BackupPhase::Probing => if yes {
                let path = expand_home(files[taken.len()].as_str(), home.as_str());
                (
                    Backup { files, home, dir, archive, taken, phase: BackupPhase::Reading },
                    Some(Action::ReadFile { path }),
                )
            } else {
                taken.push(false);
                Backup::turn(files, home, dir, archive, taken)
            },
            BackupPhase::Reading => if yes {
                let entry = files[taken.len()].clone();
                (
                    Backup { files, home, dir, archive, taken, phase: BackupPhase::Starting },
                    Some(Action::StartEntry { entry }),
                )
            } else {
                let path = expand_home(files[taken.len()].as_str(), home.as_str());
                let message = describe("failed to read file ", path.as_str(), event);
                (Backup { files, home, dir, archive, taken, phase: failure(message) }, None)
            },
            BackupPhase::Starting => if yes {
                (
                    Backup { files, home, dir, archive, taken, phase: BackupPhase::Writing },
                    Some(Action::WriteEntry),
                )
            } else {
                let message = chain("failed to add file to zip: ", event.detail().as_str());
                (Backup { files, home, dir, archive, taken, phase: failure(message) }, None)
            },
            BackupPhase::Writing => if yes {
                let path = expand_home(files[taken.len()].as_str(), home.as_str());
                (
                    Backup { files, home, dir, archive, taken, phase: BackupPhase::Removing },
                    Some(Action::RemoveFile { path }),
                )
            } else {
                let message = chain("failed to write to zip: ", event.detail().as_str());
                (Backup { files, home, dir, archive, taken, phase: failure(message) }, None)
            },
            BackupPhase::Removing => if yes {
                taken.push(true);
                Backup::turn(files, home, dir, archive, taken)
            } else {
                let message = describe(
                    "failed to remove file from ",
                    files[taken.len()].as_str(),
                    event,
                );
                (Backup { files, home, dir, archive, taken, phase: failure(message) }, None)
            },
            BackupPhase::Finishing => if yes {
                (Backup { files, home, dir, archive, taken, phase: BackupPhase::Done }, None)
            } else {
                let message = chain("failed to finalize zip: ", event.detail().as_str());
                (Backup { files, home, dir, archive, taken, phase: failure(message) }, None)
            },
            BackupPhase::Done => (
                Backup { files, home, dir, archive, taken, phase: BackupPhase::Done },
                None,
            ),
            BackupPhase::Failed(error) => (
                Backup { files, home, dir, archive, taken, phase: BackupPhase::Failed(error) },
                None,
            ),
        }
    }

    /// How the backup ended, once it has: with the path of the archive, or
    /// with a failure.
    pub fn outcome(&self) -> (r: Option<Result<String, Error>>)
        ensures
            match r {
                Some(Ok(path)) => self@.outcome() == Some(Ok::<Seq<char>, ErrorView>(path@)),
                Some(Err(e)) => self@.outcome() == Some(Err::<Seq<char>, ErrorView>(e@)),
                None => self@.outcome() is None,
            },
    {
        match &self.phase {
            BackupPhase::Done => Some(Ok(self.archive.clone())),
            BackupPhase::Failed(e) => Some(Err(e.duplicate())),
            _ => None,
        }
    }

    /// For each file that the backup is through with, whether it went into
    /// the archive.
    pub fn taken(&self) -> (r: Vec<bool>)
        ensures
            r@ == self@.taken,
    {
        let mut r: Vec<bool> = Vec::new();
        let mut i: usize = 0;
        while i < self.taken.len()
            invariant
                i <= self.taken.len(),
                r@ == self.taken@.take(i as int),
            decreases self.taken.len() - i,
        {
            r.push(self.taken[i]);
            assert(self.taken@.take(i + 1) == self.taken@.take(i as int).push(
                self.taken@[i as int],
            ));
            i += 1;
        }
        assert(self.taken@.take(self.taken@.len() as int) == self.taken@);
        r
    }
}

/// A backup stays well formed, from its start through every event.
pub proof fn backup_stays_well_formed(s: BackupView, e: EventView)
    requires
        s.wf(),
    ensures
        next(s, e).0.wf(),
        next(s, e).0.files == s.files,
        next(s, e).0.archive == s.archive,
        s.taken.is_prefix_of(next(s, e).0.taken),
{
}

/// A file is removed only after it was stored: a removal is asked for only
/// in answer to the news that what was read of this very file is written
/// to its entry in the archive.
pub proof fn file_is_removed_only_once_stored(s: BackupView, e: EventView)
    requires
        next(s, e).1 matches Some(ActionView::RemoveFile { .. }),
    ensures
        s.phase is Writing,
        e.affirms(),
        next(s, e).1 == Some(ActionView::RemoveFile { path: s.current_path() }),
{
}

/// A file is stored as it is handled on its own: it is read from where it
/// is, its entry is begun under the name that the profile gives the file,
/// and what was read is written to that entry, each step only when the one
/// before went well.
pub proof fn file_is_stored_step_by_step(s: BackupView, e: EventView)
    requires
        s.storing() || s.phase is Probing,
        e.affirms(),
    ensures
        s.phase is Probing ==> next(s, e) == (
            s.at(BackupPhaseView::Reading),
            Some(ActionView::ReadFile { path: s.current_path() }),
        ),
        s.phase is Reading ==> next(s, e) == (
            s.at(BackupPhaseView::Starting),
            Some(ActionView::StartEntry { entry: s.current() }),
        ),
        s.phase is Starting ==> next(s, e) == (
            s.at(BackupPhaseView::Writing),
            Some(ActionView::WriteEntry),
        ),
        s.phase is Writing ==> next(s, e).0.phase is Removing,
{
}

/// A file that is not there is passed over without a failure: nothing is
/// stored or removed for it, and the backup turns to what comes after it.
pub proof fn missing_file_is_passed_over(s: BackupView, e: EventView)
    requires
        s.wf(),
        s.phase is Probing,
        !e.affirms(),
    ensures
        next(s, e).0.outcome() is None,
        next(s, e).0.taken == s.taken.push(false),
        next(s, e).1 is Some,
        next(s, e).1->0 is Probe || next(s, e).1->0 is FinishArchive,
{
}

/// Outside the search for a file, an event that says no ends the backup in
/// failure, and nothing more is asked for: no file is removed, and what was
/// written of the archive stays.
pub proof fn failure_ends_backup(s: BackupView, e: EventView)
    requires
        s.outcome() is None,
        !(s.phase is Probing),
        !e.affirms(),
    ensures
        next(s, e).0.phase is Failed,
        next(s, e).0.phase->Failed_0.kind == ErrorKind::Backup,
        next(s, e).1 is None,
        next(s, e).0.taken == s.taken,
{
}

/// The answer that a cooperative world gives to a backup: each file is
/// there or not as `present` says, and everything asked for is done.
pub open spec fn answer(s: BackupView, present: Seq<bool>) -> EventView {
    if s.phase is Probing {
        EventView::Found { present: present[s.taken.len() as int] }
    } else {
        EventView::Completed
    }
}

/// The backup after at most `steps` answers of a cooperative world.
pub open spec fn run(s: BackupView, present: Seq<bool>, steps: nat) -> BackupView
    decreases steps,
{
    if steps == 0 || s.outcome() is Some {
        s
    } else {
        run(next(s, answer(s, present)).0, present, (steps - 1) as nat)
    }
}

/// The number of answers after which a backup has ended at the latest.
pub open spec fn work_left(s: BackupView) -> nat {
    let files = (s.files.len() - s.taken.len()) as nat;
    match s.phase {
        BackupPhaseView::MakingDir => 5 * files + 3,
        BackupPhaseView::Creating => 5 * files + 2,
        BackupPhaseView::Probing => 5 * files + 1,
        BackupPhaseView::Reading => 5 * files,
        BackupPhaseView::Starting => (5 * files - 1) as nat,
        BackupPhaseView::Writing => (5 * files - 2) as nat,
        BackupPhaseView::Removing => (5 * files - 3) as nat,
        BackupPhaseView::Finishing => 1,
        BackupPhaseView::Done => 0,
        BackupPhaseView::Failed(_) => 0,
    }
}

/// Where nothing fails, a backup succeeds whichever of its files exist:
/// it ends with the archive, having stored exactly the files that were
/// there and passed over the others. (A backup that is storing or removing
/// a file has found it there.)
pub proof fn backup_takes_exactly_what_exists(s: BackupView, present: Seq<bool>, steps: nat)
    requires
        s.wf(),
        !(s.phase is Failed),
        present.len() == s.files.len(),
        (s.storing() || s.phase is Removing) ==> present[s.taken.len() as int],
        steps >= work_left(s),
    ensures
        run(s, present, steps).outcome() == Some(Ok::<Seq<char>, ErrorView>(s.archive)),
        run(s, present, steps).taken == s.taken + present.skip(s.taken.len() as int),
        run(s, present, steps).files == s.files,
    decreases steps,
{
    if s.phase is Done {
        assert(present.skip(s.taken.len() as int) =~= Seq::<bool>::empty());
        assert(s.taken + Seq::<bool>::empty() =~= s.taken);
    } else {
        let e = answer(s, present);
        let t = next(s, e).0;
        backup_stays_well_formed(s, e);
        assert(work_left(t) < work_left(s));
        backup_takes_exactly_what_exists(t, present, (steps - 1) as nat);
        let n = s.taken.len() as int;
        if t.taken.len() == n {
            assert(t.taken == s.taken);
        } else {
            assert(t.taken == s.taken.push(present[n]));
            assert(s.taken.push(present[n]) + present.skip(n + 1) =~= s.taken + present.skip(n));
        }
    }
}

/// From its start on, a backup of files of which some are missing ends well
/// and has stored the files that exist, in the order of the profile.
pub proof fn backup_with_missing_files_succeeds(
    files: Seq<Seq<char>>,
    backup_path: Seq<char>,
    home: Seq<char>,
    stamp: Seq<char>,
    present: Seq<bool>,
)
    requires
        present.len() == files.len(),
    ensures
        ({
            let begun = start(files, backup_path, home, stamp).0;
            let ended = run(begun, present, work_left(begun));
            &&& ended.outcome() == Some(Ok::<Seq<char>, ErrorView>(begun.archive))
            &&& ended.taken == present
            &&& ended.captured() == kept(files, present)
        }),
{
    let begun = start(files, backup_path, home, stamp).0;
    backup_takes_exactly_what_exists(begun, present, work_left(begun));
    let ended = run(begun, present, work_left(begun));
    assert(Seq::<bool>::empty() + present.skip(0) =~= present);
    assert(files.take(files.len() as int) =~= files);
}

} // verus!
