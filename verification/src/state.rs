//! The state record: the configuration it starts from, the persisted form,
//! and the record itself with the rules that every record obeys.

use vstd::prelude::*;
use crate::error::{Error, ErrorKind};
use crate::source::SourceType;
use crate::text::{copy_texts, same, texts};

verus! {

/// One run of `setup`: when it finished, the archive it backed up into, and
/// the files it covered.
#[derive(Clone, Debug, PartialEq, Eq)]
pub struct History {
    pub created_at: String,
    pub backup: String,
    pub files: Vec<String>,
}

/// `History` as a mathematical value.
pub struct HistoryView {
    pub created_at: Seq<char>,
    pub backup: Seq<char>,
    pub files: Seq<Seq<char>>,
}

impl View for History {
    type V = HistoryView;

    open spec fn view(&self) -> HistoryView {
        HistoryView {
            created_at: self.created_at@,
            backup: self.backup@,
            files: texts(self.files@),
        }
    }
}

/// A named list of files that are linked together.
#[derive(Clone, Debug, PartialEq, Eq)]
pub struct Profile {
    pub name: String,
    pub files: Vec<String>,
}

/// `Profile` as a mathematical value.
pub struct ProfileView {
    pub name: Seq<char>,
    pub files: Seq<Seq<char>>,
}

impl View for Profile {
    type V = ProfileView;

    open spec fn view(&self) -> ProfileView {
        ProfileView { name: self.name@, files: texts(self.files@) }
    }
}

/// The configuration that `init` starts from.
#[derive(Clone, Debug, PartialEq, Eq)]
pub struct Config {
    pub url: String,
    pub branch: Option<String>,
    pub path: String,
    pub backup_path: String,
    pub profiles: Vec<Profile>,
}

/// `Config` as a mathematical value.
pub struct ConfigView {
    pub url: Seq<char>,
    pub branch: Option<Seq<char>>,
    pub path: Seq<char>,
    pub backup_path: Seq<char>,
    pub profiles: Seq<ProfileView>,
}

impl View for Config {
    type V = ConfigView;

    open spec fn view(&self) -> ConfigView {
        ConfigView {
            url: self.url@,
            branch: opt_text(self.branch),
            path: self.path@,
            backup_path: self.backup_path@,
            profiles: profile_views(self.profiles@),
        }
    }
}

/// The persisted form of the state: what is written to and read from the
/// state file, with no rule enforced on it yet.
#[derive(Clone, Debug, PartialEq, Eq)]
pub struct Record {
    pub url: String,
    pub branch: Option<String>,
    pub path: String,
    pub backup_path: String,
    pub profiles: Vec<Profile>,
    pub active_profile: Option<String>,
    pub history: Option<Vec<History>>,
    pub source_type: Option<SourceType>,
}

/// The state as a mathematical value.
pub struct StateView {
    pub url: Seq<char>,
    pub branch: Option<Seq<char>>,
    pub path: Seq<char>,
    pub backup_path: Seq<char>,
    pub profiles: Seq<ProfileView>,
    pub active_profile: Option<Seq<char>>,
    pub history: Option<Seq<HistoryView>>,
    pub source_type: Option<SourceType>,
}

impl View for Record {
    type V = StateView;

    open spec fn view(&self) -> StateView {
        StateView {
            url: self.url@,
            branch: opt_text(self.branch),
            path: self.path@,
            backup_path: self.backup_path@,
            profiles: profile_views(self.profiles@),
            active_profile: opt_text(self.active_profile),
            history: match self.history {
                Some(h) => Some(history_views(h@)),
                None => None,
            },
            source_type: self.source_type,
        }
    }
}

/// A text that may be absent, as a mathematical value.
pub open spec fn opt_text(o: Option<String>) -> Option<Seq<char>> {
    match o {
        Some(s) => Some(s@),
        None => None,
    }
}

/// The profiles as mathematical values, in order.
pub open spec fn profile_views(v: Seq<Profile>) -> Seq<ProfileView> {
    Seq::new(v.len(), |i: int| v[i]@)
}

/// The history entries as mathematical values, in order.
pub open spec fn history_views(v: Seq<History>) -> Seq<HistoryView> {
    Seq::new(v.len(), |i: int| v[i]@)
}

/// No two profiles share a name.
pub open spec fn distinct_names(profiles: Seq<ProfileView>) -> bool {
    forall|i: int, j: int|
        0 <= i < j < profiles.len() ==> (#[trigger] profiles[i]).name != (
        #[trigger] profiles[j]).name
}

/// A profile of that name exists.
pub open spec fn has_profile(profiles: Seq<ProfileView>, name: Seq<char>) -> bool {
    exists|i: int| 0 <= i < profiles.len() && (#[trigger] profiles[i]).name == name
}

/// The files of the profile of that name.
pub open spec fn files_of(profiles: Seq<ProfileView>, name: Seq<char>) -> Seq<Seq<char>> {
    let i = choose|i: int| 0 <= i < profiles.len() && (#[trigger] profiles[i]).name == name;
    profiles[i].files
}

/// The files of the profile of that name, if there is one.
pub open spec fn lookup(profiles: Seq<ProfileView>, name: Seq<char>) -> Option<Seq<Seq<char>>> {
    if has_profile(profiles, name) {
        Some(files_of(profiles, name))
    } else {
        None
    }
}

/// The files that `setup` works on for a requested profile: those of the
/// profile itself, or those of `default` when the profile does not exist.
pub open spec fn resolved(profiles: Seq<ProfileView>, name: Seq<char>) -> Option<Seq<Seq<char>>> {
    if has_profile(profiles, name) {
        lookup(profiles, name)
    } else {
        lookup(profiles, "default"@)
    }
}

/// The name under which a requested profile is set up: its own where the
/// profile exists, and `default` otherwise.
pub open spec fn resolved_name(profiles: Seq<ProfileView>, name: Seq<char>) -> Seq<char> {
    if has_profile(profiles, name) {
        name
    } else {
        "default"@
    }
}

/// An active profile names an existing profile, or is `default`.
pub open spec fn names_its_profile(v: StateView) -> bool {
    v.active_profile matches Some(active) ==> has_profile(v.profiles, active) || active
        == "default"@
}

/// The rules of a state record: profile names are unique, an active profile
/// names an existing profile or is `default`, and a history that is present
/// holds at least one entry.
pub open spec fn valid(v: StateView) -> bool {
    &&& distinct_names(v.profiles)
    &&& names_its_profile(v)
    &&& v.history matches Some(h) ==> h.len() > 0
}

/// The record as `State::new` takes it up: an empty history counts as
/// none, and an active profile that is not among the profiles counts as
/// `default`, as it does when a profile is set up.
pub open spec fn normalized(v: StateView) -> StateView {
    StateView {
        active_profile: match v.active_profile {
            Some(active) => Some(resolved_name(v.profiles, active)),
            None => None,
        },
        history: match v.history {
            Some(h) => if h.len() == 0 {
                None
            } else {
                Some(h)
            },
            None => None,
        },
        ..v
    }
}

/// The state that a configuration starts as: nothing set up yet.
pub open spec fn initial(c: ConfigView) -> StateView {
    StateView {
        url: c.url,
        branch: c.branch,
        path: c.path,
        backup_path: c.backup_path,
        profiles: c.profiles,
        active_profile: None,
        history: None,
        source_type: None,
    }
}

/// The history with one more entry at its end.
pub open spec fn extended(history: Option<Seq<HistoryView>>, entry: HistoryView) -> Seq<
    HistoryView,
> {
    match history {
        Some(h) => h.push(entry),
        None => seq![entry],
    }
}

/// A copy of a text that may be absent.
pub fn copy_opt_text(o: &Option<String>) -> (r: Option<String>)
    ensures
        opt_text(r) == opt_text(*o),
{
    match o {
        Some(s) => Some(s.clone()),
        None => None,
    }
}

impl History {
    /// A copy.
    pub fn duplicate(&self) -> (r: History)
        ensures
            r@ == self@,
    {
        History {
            created_at: self.created_at.clone(),
            backup: self.backup.clone(),
            files: copy_texts(&self.files),
        }
    }
}

impl Profile {
    /// A copy.
    pub fn duplicate(&self) -> (r: Profile)
        ensures
            r@ == self@,
    {
        Profile { name: self.name.clone(), files: copy_texts(&self.files) }
    }
}

/// A copy of a list of profiles.
pub fn copy_profiles(v: &Vec<Profile>) -> (r: Vec<Profile>)
    ensures
        profile_views(r@) == profile_views(v@),
{
    let mut r: Vec<Profile> = Vec::new();
    let mut i: usize = 0;
    while i < v.len()
        invariant
            i <= v.len(),
            r.len() == i,
            forall|j: int| 0 <= j < i ==> r@[j]@ == v@[j]@,
        decreases v.len() - i,
    {
        r.push(v[i].duplicate());
        i += 1;
    }
    assert(profile_views(r@) =~= profile_views(v@));
    r
}

/// A copy of a history.
pub fn copy_history(v: &Vec<History>) -> (r: Vec<History>)
    ensures
        history_views(r@) == history_views(v@),
{
    let mut r: Vec<History> = Vec::new();
    let mut i: usize = 0;
    while i < v.len()
        invariant
            i <= v.len(),
            r.len() == i,
            forall|j: int| 0 <= j < i ==> r@[j]@ == v@[j]@,
        decreases v.len() - i,
    {
        r.push(v[i].duplicate());
        i += 1;
    }
    assert(history_views(r@) =~= history_views(v@));
    r
}

impl Record {
    /// A copy.
    pub fn duplicate(&self) -> (r: Record)
        ensures
            r@ == self@,
    {
        Record {
            url: self.url.clone(),
            branch: copy_opt_text(&self.branch),
            path: self.path.clone(),
            backup_path: self.backup_path.clone(),
            profiles: copy_profiles(&self.profiles),
            active_profile: copy_opt_text(&self.active_profile),
            history: match &self.history {
                Some(h) => Some(copy_history(h)),
                None => None,
            },
            source_type: self.source_type,
        }
    }
}

/// The position of the profile of that name.
pub fn find_profile(profiles: &Vec<Profile>, name: &str) -> (r: Option<usize>)
    ensures
        r is Some <==> has_profile(profile_views(profiles@), name@),
        r matches Some(i) ==> i < profiles.len() && profiles@[i as int].name@ == name@,
{
    let mut i: usize = 0;
    while i < profiles.len()
        invariant
            i <= profiles.len(),
            forall|j: int| 0 <= j < i ==> profiles@[j].name@ != name@,
        decreases profiles.len() - i,
    {
        if same(profiles[i].name.as_str(), name) {
            assert(profile_views(profiles@)[i as int].name == name@);
            return Some(i);
        }
        i += 1;
    }
    assert forall|j: int| 0 <= j < profiles.len() implies (#[trigger] profile_views(
        profiles@,
    )[j]).name != name@ by {
        assert(profile_views(profiles@)[j] == profiles@[j]@);
    }
    None
}

/// Whether no two profiles share a name.
pub fn names_are_distinct(profiles: &Vec<Profile>) -> (r: bool)
    ensures
        r == distinct_names(profile_views(profiles@)),
{
    let ghost views = profile_views(profiles@);
    let mut j: usize = 0;
    while j < profiles.len()
        invariant
            j <= profiles.len(),
            views == profile_views(profiles@),
            forall|a: int, b: int| 0 <= a < b < j ==> (#[trigger] views[a]).name != (
            #[trigger] views[b]).name,
        decreases profiles.len() - j,
    {
        let mut i: usize = 0;
        while i < j
            invariant
                i <= j < profiles.len(),
                views == profile_views(profiles@),
                forall|a: int| 0 <= a < i ==> (#[trigger] views[a]).name != views[j as int].name,
            decreases j - i,
        {
            if same(profiles[i].name.as_str(), profiles[j].name.as_str()) {
                assert(views[i as int].name == views[j as int].name);
                return false;
            }
            i += 1;
        }
        j += 1;
    }
    true
}

/// The state record. Every value of this type obeys the rules of `valid`.
#[derive(Debug)]
pub struct State {
    record: Record,
}

impl View for State {
    type V = StateView;

    closed spec fn view(&self) -> StateView {
        self.record@
    }
}

impl State {
    #[verifier::type_invariant]
    spec fn obeys_rules(&self) -> bool {
        valid(self.record@)
    }

    /// Takes up a persisted record. A record in which two profiles share a
    /// name is refused as corrupt. An empty history is taken as none, and an
    /// active profile that is not among the profiles is taken as `default`:
    /// those are the files that a setup under such a name worked on.
    pub fn new(record: Record) -> (r: Result<State, Error>)
        ensures
            r is Ok <==> distinct_names(record@.profiles),
            r matches Ok(s) ==> s@ == normalized(record@) && valid(s@),
            r matches Err(e) ==> e@.kind == ErrorKind::Corrupt && e@.message
                == "two profiles share a name"@,
    {
        if !names_are_distinct(&record.profiles) {
            return Err(
                Error { kind: ErrorKind::Corrupt, message: "two profiles share a name".to_owned() },
            );
        }
        let Record {
            url,
            branch,
            path,
            backup_path,
            profiles,
            active_profile,
            history,
            source_type,
        } = record;
        let active_profile = match active_profile {
            Some(active) => match find_profile(&profiles, active.as_str()) {
                Some(_) => Some(active),
                None => Some("default".to_owned()),
            },
            None => None,
        };
        let history = match history {
            Some(h) => if h.len() == 0 {
                None
            } else {
                Some(h)
            },
            None => None,
        };
        Ok(
            State {
                record: Record {
                    url,
                    branch,
                    path,
                    backup_path,
                    profiles,
                    active_profile,
                    history,
                    source_type,
                },
            },
        )
    }

    /// The state that a configuration starts as, with no profile active, no
    /// history and no source type. A configuration in which two profiles
    /// share a name is refused.
    pub fn from_config(config: Config) -> (r: Result<State, Error>)
        ensures
            r is Ok <==> distinct_names(config@.profiles),
            r matches Ok(s) ==> s@ == initial(config@) && valid(s@),
            r matches Err(e) ==> e@.kind == ErrorKind::Config && e@.message
                == "two profiles share a name"@,
    {
        if !names_are_distinct(&config.profiles) {
            return Err(
                Error { kind: ErrorKind::Config, message: "two profiles share a name".to_owned() },
            );
        }
        let Config { url, branch, path, backup_path, profiles } = config;
        Ok(
            State {
                record: Record {
                    url,
                    branch,
                    path,
                    backup_path,
                    profiles,
                    active_profile: None,
                    history: None,
                    source_type: None,
                },
            },
        )
    }

    /// The persisted form of the state.
    pub fn record(&self) -> (r: Record)
        ensures
            r@ == self@,
            valid(r@),
    {
        proof {
            use_type_invariant(self);
        }
        self.record.duplicate()
    }

    /// The state with the requested profile active: under its own name
    /// where the profile exists, and under `default` otherwise, so that the
    /// active profile always names the files that are set up.
    pub fn set_active_profile(self, profile: &str) -> (r: State)
        ensures
            r@ == (StateView {
                active_profile: Some(resolved_name(self@.profiles, profile@)),
                ..self@
            }),
            valid(r@),
    {
        proof {
            use_type_invariant(&self);
        }
        let State { record } = self;
        let active = match find_profile(&record.profiles, profile) {
            Some(_) => profile.to_owned(),
            None => "default".to_owned(),
        };
        State { record: Record { active_profile: Some(active), ..record } }
    }

    /// The state with its source type recorded.
    pub fn set_source_type(self, source_type: SourceType) -> (r: State)
        ensures
            r@ == (StateView { source_type: Some(source_type), ..self@ }),
            valid(r@),
    {
        proof {
            use_type_invariant(&self);
        }
        let State { record } = self;
        State { record: Record { source_type: Some(source_type), ..record } }
    }

    /// The state with one more entry at the end of its history. The entries
    /// that were there stay as they are.
    pub fn append_history(self, entry: History) -> (r: State)
        ensures
            r@ == (StateView { history: Some(extended(self@.history, entry@)), ..self@ }),
            valid(r@),
    {
        proof {
            use_type_invariant(&self);
        }
        let State { record } = self;
        let ghost before_all = record@;
        let Record {
            url,
            branch,
            path,
            backup_path,
            profiles,
            active_profile,
            history,
            source_type,
        } = record;
        let ghost before = before_all.history;
        let mut entries = match history {
            Some(h) => h,
            None => Vec::new(),
        };
        entries.push(entry);
        assert(history_views(entries@) =~= extended(before, entry@));
        State {
            record: Record {
                url,
                branch,
                path,
                backup_path,
                profiles,
                active_profile,
                history: Some(entries),
                source_type,
            },
        }
    }

    /// The files of the profile of that name, if there is one.
    pub fn profile_files(&self, name: &str) -> (r: Option<Vec<String>>)
        ensures
            valid(self@),
            match r {
                Some(files) => lookup(self@.profiles, name@) == Some(texts(files@)),
                None => lookup(self@.profiles, name@) is None,
            },
    {
        proof {
            use_type_invariant(self);
        }
        let ghost views = profile_views(self.record.profiles@);
        match find_profile(&self.record.profiles, name) {
            Some(i) => {
                let files = copy_texts(&self.record.profiles[i].files);
                proof {
                    let c = choose|c: int|
                        0 <= c < views.len() && (#[trigger] views[c]).name == name@;
                    assert(views[i as int].name == name@);
                    assert(c == i) by {
                        if c < i {
                            assert(views[c].name != views[i as int].name);
                        } else if i < c {
                            assert(views[i as int].name != views[c].name);
                        }
                    }
                }
                Some(files)
            },
            None => None,
        }
    }

    /// The files that `setup` works on for a requested profile: those of the
    /// profile, or those of `default` when the profile does not exist. With
    /// neither, the profile cannot be resolved.
    pub fn resolve(&self, name: &str) -> (r: Result<Vec<String>, Error>)
        ensures
            valid(self@),
            match r {
                Ok(files) => resolved(self@.profiles, name@) == Some(texts(files@)),
                Err(e) => resolved(self@.profiles, name@) is None && e@.kind
                    == ErrorKind::ProfileResolution && e@.message == "no 'default' profile found!"@,
            },
    {
        match self.profile_files(name) {
            Some(files) => Ok(files),
            None => match self.profile_files("default") {
                Some(files) => Ok(files),
                None => Err(
                    Error {
                        kind: ErrorKind::ProfileResolution,
                        message: "no 'default' profile found!".to_owned(),
                    },
                ),
            },
        }
    }

    /// The location of the source.
    pub fn url(&self) -> (r: String)
        ensures
            r@ == self@.url,
    {
        self.record.url.clone()
    }

    /// The branch to fetch, where one is named.
    pub fn branch(&self) -> (r: Option<String>)
        ensures
            opt_text(r) == self@.branch,
    {
        copy_opt_text(&self.record.branch)
    }

    /// Where the source tree is fetched to.
    pub fn path(&self) -> (r: String)
        ensures
            r@ == self@.path,
    {
        self.record.path.clone()
    }

    /// The directory of the backup archives.
    pub fn backup_path(&self) -> (r: String)
        ensures
            r@ == self@.backup_path,
    {
        self.record.backup_path.clone()
    }

    /// The profile that was set up last, if any was.
    pub fn active_profile(&self) -> (r: Option<String>)
        ensures
            opt_text(r) == self@.active_profile,
    {
        copy_opt_text(&self.record.active_profile)
    }

    /// The source type recorded when the state was initialized.
    pub fn source_type(&self) -> (r: Option<SourceType>)
        ensures
            r == self@.source_type,
    {
        self.record.source_type
    }
}

/// A record that obeys the rules is taken up as it is: writing a state out
/// and taking the record up again gives the same state.
pub proof fn valid_record_is_taken_up_unchanged(v: StateView)
    requires
        valid(v),
    ensures
        normalized(v) == v,
        valid(normalized(v)),
{
}

/// What `State::new` takes up obeys the rules whatever the record held, as
/// soon as its profile names are unique; and so does every state with a
/// requested profile made active.
pub proof fn taken_up_record_is_valid(v: StateView, requested: Seq<char>)
    requires
        distinct_names(v.profiles),
    ensures
        valid(normalized(v)),
        names_its_profile(
            StateView { active_profile: Some(resolved_name(v.profiles, requested)), ..v },
        ),
{
}

/// The profile that is made active is the one whose files are resolved:
/// where a requested profile resolves at all, the name it is set up under
/// is that of an existing profile, with the files that were resolved.
pub proof fn active_profile_names_the_resolved_files(
    profiles: Seq<ProfileView>,
    requested: Seq<char>,
)
    requires
        resolved(profiles, requested) is Some,
    ensures
        has_profile(profiles, resolved_name(profiles, requested)),
        lookup(profiles, resolved_name(profiles, requested)) == resolved(profiles, requested),
        resolved_name(profiles, resolved_name(profiles, requested)) == resolved_name(
            profiles,
            requested,
        ),
{
}

/// The history only grows: appending keeps every earlier entry in its place
/// and puts the new one last.
pub proof fn history_is_append_only(history: Option<Seq<HistoryView>>, entry: HistoryView)
    ensures
        history is None ==> extended(history, entry) == seq![entry],
        history matches Some(h) ==> {
            &&& extended(history, entry).len() == h.len() + 1
            &&& h.is_prefix_of(extended(history, entry))
        },
        extended(history, entry).last() == entry,
{
    if let Some(h) = history {
        assert(extended(history, entry).subrange(0, h.len() as int) =~= h);
    }
}

/// A profile that does not exist resolves as `default` does.
pub proof fn missing_profile_resolves_as_default(profiles: Seq<ProfileView>, name: Seq<char>)
    requires
        !has_profile(profiles, name),
    ensures
        resolved(profiles, name) == resolved(profiles, "default"@),
{
}

/// A profile resolves to no files exactly when neither it nor `default`
/// exists.
pub proof fn resolution_fails_without_default(profiles: Seq<ProfileView>, name: Seq<char>)
    ensures
        resolved(profiles, name) is None <==> !has_profile(profiles, name) && !has_profile(
            profiles,
            "default"@,
        ),
{
}

} // verus!
