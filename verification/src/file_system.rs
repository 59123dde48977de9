//! The episode file store.
//!
//! Under the application's data directory the store keeps two directories:
//! `scripts`, with one file per episode, named by the episode's identifier,
//! and `data`, with the data file of each episode.
//!
//! The store never touches a file system itself. Each operation is a
//! conversation with a host: the store says what it needs next (a [`Step`]),
//! the host does that and hands back what came of it, and the store decides
//! how to go on, until the operation is [`Step::Done`].

use crate::episode_id::{data_file_name, episode_data_file_name};
use crate::failure::{
    create_dir_error, create_dir_message, read_data_error, read_data_message, read_script_error,
    read_script_message,
};
use crate::listing::{scan, scan_listing, DirEntry};
use crate::path_text::{is_absolute, join, join_path, needs_separator, under};
use vstd::prelude::*;
use vstd::string::*;

verus! {

/// What a directory is wanted for, once it is known to exist.
pub enum Goal {
    /// Nothing more: the directory itself was the aim.
    Ready,
    /// Listing the episodes in it.
    ListEpisodes,
    /// Reading the script of an episode in it.
    ReadScript { episode_id: String },
    /// Reading the data file of an episode in it.
    ReadData { episode_id: String },
}

/// A [`Goal`], with its texts as sequences of characters.
pub enum GoalView {
    Ready,
    ListEpisodes,
    ReadScript { episode_id: Seq<char> },
    ReadData { episode_id: Seq<char> },
}

impl View for Goal {
    type V = GoalView;

    open spec fn view(&self) -> GoalView {
        match *self {
            Goal::Ready => GoalView::Ready,
            Goal::ListEpisodes => GoalView::ListEpisodes,
            Goal::ReadScript { episode_id } => GoalView::ReadScript { episode_id: episode_id@ },
            Goal::ReadData { episode_id } => GoalView::ReadData { episode_id: episode_id@ },
        }
    }
}

/// Which file is being read: it decides how a failure is worded.
pub enum FileKind {
    /// The script of this episode; a failure names the episode.
    Script { episode_id: String },
    /// The data file of an episode; a failure names the file's path.
    EpisodeData,
}

/// A [`FileKind`], with its text as a sequence of characters.
pub enum FileKindView {
    Script { episode_id: Seq<char> },
    EpisodeData,
}

impl View for FileKind {
    type V = FileKindView;

    open spec fn view(&self) -> FileKindView {
        match *self {
            FileKind::Script { episode_id } => FileKindView::Script { episode_id: episode_id@ },
            FileKind::EpisodeData => FileKindView::EpisodeData,
        }
    }
}

/// What an operation hands back when it succeeds.
pub enum Reply {
    /// The directory exists.
    Ready,
    /// The episodes of the script directory, in the host's order.
    Episodes(Vec<String>),
    /// A file's text, as it was read.
    Text(String),
}

/// A [`Reply`], with its texts as sequences of characters.
pub enum ReplyView {
    Ready,
    Episodes(Seq<Seq<char>>),
    Text(Seq<char>),
}

impl View for Reply {
    type V = ReplyView;

    open spec fn view(&self) -> ReplyView {
        match *self {
            Reply::Ready => ReplyView::Ready,
            Reply::Episodes(names) => ReplyView::Episodes(names.deep_view()),
            Reply::Text(text) => ReplyView::Text(text@),
        }
    }
}

/// The store asks whether `dir` exists.
pub struct DirProbe {
    pub dir: String,
    pub goal: Goal,
}

/// The store asks for `dir` to be created, with the directories above it.
pub struct DirCreate {
    pub dir: String,
    pub goal: Goal,
}

/// The store asks for the entries of `dir`.
pub struct DirList {
    pub dir: String,
}

/// The store asks for the text of the file at `path`.
pub struct FileRead {
    pub path: String,
    pub kind: FileKind,
}

/// Where an operation stands: what the host is asked to do next, or how the
/// operation ended.
pub enum Step {
    Probe(DirProbe),
    Create(DirCreate),
    List(DirList),
    Read(FileRead),
    Done(Result<Reply, String>),
}

/// A [`Step`], with its texts as sequences of characters.
pub enum StepView {
    Probe { dir: Seq<char>, goal: GoalView },
    Create { dir: Seq<char>, goal: GoalView },
    List { dir: Seq<char> },
    Read { path: Seq<char>, kind: FileKindView },
    Done(Result<ReplyView, Seq<char>>),
}

impl View for Step {
    type V = StepView;

    open spec fn view(&self) -> StepView {
        match *self {
            Step::Probe(probe) => StepView::Probe { dir: probe.dir@, goal: probe.goal@ },
            Step::Create(create) => StepView::Create { dir: create.dir@, goal: create.goal@ },
            Step::List(list) => StepView::List { dir: list.dir@ },
            Step::Read(read) => StepView::Read { path: read.path@, kind: read.kind@ },
            Step::Done(Ok(reply)) => StepView::Done(Ok(reply@)),
            Step::Done(Err(message)) => StepView::Done(Err(message@)),
        }
    }
}

/// The script directory under the application's data directory.
pub open spec fn script_dir(app_data_dir: Seq<char>) -> Seq<char> {
    join(app_data_dir, "scripts"@)
}

/// The directory of the episodes' data files under the application's data
/// directory.
pub open spec fn episode_data_dir(app_data_dir: Seq<char>) -> Seq<char> {
    join(app_data_dir, "data"@)
}

/// Where the script of an episode is kept.
pub open spec fn script_path(dir: Seq<char>, episode_id: Seq<char>) -> Seq<char> {
    join(dir, episode_id)
}

/// Where the data file of an episode is kept.
pub open spec fn episode_data_path(dir: Seq<char>, episode_id: Seq<char>) -> Seq<char> {
    join(dir, data_file_name(episode_id))
}

/// How the store goes on once `dir` is known to exist.
pub open spec fn begin(goal: GoalView, dir: Seq<char>) -> StepView {
    match goal {
        GoalView::Ready => StepView::Done(Ok(ReplyView::Ready)),
        GoalView::ListEpisodes => StepView::List { dir },
        GoalView::ReadScript { episode_id } => StepView::Read {
            path: script_path(dir, episode_id),
            kind: FileKindView::Script { episode_id },
        },
        GoalView::ReadData { episode_id } => StepView::Read {
            path: episode_data_path(dir, episode_id),
            kind: FileKindView::EpisodeData,
        },
    }
}

/// How the store goes on once it knows whether `dir` exists: a directory
/// that is there is left as it is, one that is missing is to be created.
pub open spec fn after_probe(dir: Seq<char>, goal: GoalView, exists: bool) -> StepView {
    if exists {
        begin(goal, dir)
    } else {
        StepView::Create { dir, goal }
    }
}

/// How the store goes on once the host has tried to create `dir`.
pub open spec fn after_create(
    dir: Seq<char>,
    goal: GoalView,
    created: Result<(), String>,
) -> StepView {
    match created {
        Ok(_) => begin(goal, dir),
        Err(cause) => StepView::Done(Err(create_dir_message(dir, cause@))),
    }
}

/// How listing `dir` ends, given what the host found there: with the
/// episodes, or with a failure that names `dir`.
pub open spec fn after_list(
    dir: Seq<char>,
    listing: Result<Vec<Result<DirEntry, String>>, String>,
) -> StepView {
    match scan(dir, listing) {
        Ok(episodes) => StepView::Done(Ok(ReplyView::Episodes(episodes))),
        Err(message) => StepView::Done(Err(message)),
    }
}

/// How reading ends, given what the host read: the text as it is, or a
/// failure that names the script's episode or the data file's path.
pub open spec fn after_read(
    path: Seq<char>,
    kind: FileKindView,
    read: Result<String, String>,
) -> StepView {
    match read {
        Ok(text) => StepView::Done(Ok(ReplyView::Text(text@))),
        Err(cause) => match kind {
            FileKindView::Script { episode_id } => StepView::Done(
                Err(read_script_message(episode_id, cause@)),
            ),
            FileKindView::EpisodeData => StepView::Done(Err(read_data_message(path, cause@))),
        },
    }
}

/// The two directories lie directly under the data directory, whatever its
/// path is: `scripts` and `data` follow it, after a separator where the path
/// calls for one.
pub proof fn lemma_directories_lie_under_root(app_data_dir: Seq<char>)
    ensures
        script_dir(app_data_dir) == under(app_data_dir, "scripts"@),
        episode_data_dir(app_data_dir) == under(app_data_dir, "data"@),
        needs_separator(app_data_dir) ==> script_dir(app_data_dir) == app_data_dir + "/scripts"@,
        needs_separator(app_data_dir) ==> episode_data_dir(app_data_dir) == app_data_dir
            + "/data"@,
{
    reveal_strlit("scripts");
    reveal_strlit("data");
    reveal_strlit("/scripts");
    reveal_strlit("/data");
    assert(!is_absolute("scripts"@));
    assert(!is_absolute("data"@));
    assert(seq!['/'] + "scripts"@ =~= "/scripts"@);
    assert(seq!['/'] + "data"@ =~= "/data"@);
    assert(app_data_dir + seq!['/'] + "scripts"@ =~= app_data_dir + (seq!['/'] + "scripts"@));
    assert(app_data_dir + seq!['/'] + "data"@ =~= app_data_dir + (seq!['/'] + "data"@));
}

/// The script directory under `app_data_dir`. It is always there to name:
/// this never fails.
pub fn get_script_dir(app_data_dir: &str) -> (dir: Result<String, String>)
    ensures
        dir matches Ok(path) && path@ == script_dir(app_data_dir@),
{
    Ok(join_path(app_data_dir, "scripts"))
}

/// The directory of the episodes' data files under `app_data_dir`. It is
/// always there to name: this never fails.
pub fn get_episode_data_dir(app_data_dir: &str) -> (dir: Result<String, String>)
    ensures
        dir matches Ok(path) && path@ == episode_data_dir(app_data_dir@),
{
    Ok(join_path(app_data_dir, "data"))
}

/// Makes sure that `dir` exists, and goes on to `goal` when it does.
pub fn ensure_dir_then(dir: String, goal: Goal) -> (step: Step)
    ensures
        step@ == (StepView::Probe { dir: dir@, goal: goal@ }),
{
    Step::Probe(DirProbe { dir, goal })
}

/// Makes sure that `dir` exists: the store first asks whether it does.
pub fn ensure_dir_exists(dir: &str) -> (step: Step)
    ensures
        step@ == (StepView::Probe { dir: dir@, goal: GoalView::Ready }),
{
    ensure_dir_then(String::from_str(dir), Goal::Ready)
}

/// Lists the episodes in `dir`: the store asks for the directory's entries.
pub fn scan_episode_list(dir: &str) -> (step: Step)
    ensures
        step@ == begin(GoalView::ListEpisodes, dir@),
{
    Step::List(DirList { dir: String::from_str(dir) })
}

/// Loads the script of `episode_id` from `dir`: the store asks for the text
/// of the file that the identifier names there.
pub fn load_episode_script_file(dir: &str, episode_id: &str) -> (step: Step)
    ensures
        step@ == begin(GoalView::ReadScript { episode_id: episode_id@ }, dir@),
{
    Step::Read(
        FileRead {
            path: join_path(dir, episode_id),
            kind: FileKind::Script { episode_id: String::from_str(episode_id) },
        },
    )
}

/// Loads the data of `episode_id` from `dir`: the store asks for the text of
/// the episode's data file there, whatever extension the identifier has.
pub fn load_episode_data_file(dir: &str, episode_id: &str) -> (step: Step)
    ensures
        step@ == begin(GoalView::ReadData { episode_id: episode_id@ }, dir@),
{
    let file_name = episode_data_file_name(episode_id);
    Step::Read(FileRead { path: join_path(dir, file_name.as_str()), kind: FileKind::EpisodeData })
}

impl Goal {
    /// Goes on to this goal in `dir`, which exists.
    pub fn begin(self, dir: &str) -> (step: Step)
        ensures
            step@ == begin(self@, dir@),
    {
        match self {
            Goal::Ready => Step::Done(Ok(Reply::Ready)),
            Goal::ListEpisodes => scan_episode_list(dir),
            Goal::ReadScript { episode_id } => load_episode_script_file(dir, episode_id.as_str()),
            Goal::ReadData { episode_id } => load_episode_data_file(dir, episode_id.as_str()),
        }
    }
}

impl DirProbe {
    /// Goes on, now that the host has said whether the directory exists.
    pub fn resume(self, exists: bool) -> (next: Step)
        ensures
            next@ == after_probe(self.dir@, self.goal@, exists),
    {
        if exists {
            self.goal.begin(self.dir.as_str())
        } else {
            Step::Create(DirCreate { dir: self.dir, goal: self.goal })
        }
    }
}

impl DirCreate {
    /// Goes on, now that the host has tried to create the directory:
    /// `created` holds the cause where it could not.
    pub fn resume(self, created: Result<(), String>) -> (next: Step)
        ensures
            next@ == after_create(self.dir@, self.goal@, created),
    {
        match created {
            Ok(_) => self.goal.begin(self.dir.as_str()),
            Err(cause) => Step::Done(Err(create_dir_error(self.dir.as_str(), cause.as_str()))),
        }
    }
}

impl DirList {
    /// Ends the listing, now that the host has read the directory: `listing`
    /// holds its entries, each read or failed, or the cause for which the
    /// directory could not be opened.
    pub fn resume(self, listing: Result<Vec<Result<DirEntry, String>>, String>) -> (next: Step)
        ensures
            next@ == after_list(self.dir@, listing),
    {
        match scan_listing(self.dir.as_str(), listing) {
            Ok(names) => Step::Done(Ok(Reply::Episodes(names))),
            Err(message) => Step::Done(Err(message)),
        }
    }
}

impl FileRead {
    /// Ends the reading, now that the host has read the file: `read` holds
    /// its text, or the cause for which it could not be read as text.
    pub fn resume(self, read: Result<String, String>) -> (next: Step)
        ensures
            next@ == after_read(self.path@, self.kind@, read),
    {
        match read {
            Ok(text) => Step::Done(Ok(Reply::Text(text))),
            Err(cause) => match self.kind {
                FileKind::Script { episode_id } => Step::Done(
                    Err(read_script_error(episode_id.as_str(), cause.as_str())),
                ),
                FileKind::EpisodeData => Step::Done(
                    Err(read_data_error(self.path.as_str(), cause.as_str())),
                ),
            },
        }
    }
}

} // verus!
