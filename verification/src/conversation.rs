//! An operation of the store as a whole: where a conversation with the host
//! leads, from its first step to its end.

use crate::failure::{
    create_dir_message, lemma_create_failure_names_dir, lemma_data_failure_names_path,
    lemma_script_failure_names_episode, occurs_in, read_data_message, read_script_message,
};
use crate::file_system::{
    after_create, after_list, after_probe, after_read, begin, episode_data_path, GoalView,
    ReplyView, StepView,
};
use crate::listing::{lemma_failed_scan_names_dir, scan, DirEntry};
use vstd::prelude::*;

verus! {

/// What a host answers in the course of one operation. No operation asks
/// the same thing twice, so one answer of each kind is all it can hear.
pub struct Answers {
    /// Whether the directory exists.
    pub exists: bool,
    /// What came of creating the directory.
    pub created: Result<(), String>,
    /// What came of reading the directory.
    pub listing: Result<Vec<Result<DirEntry, String>>, String>,
    /// What came of reading the file.
    pub read: Result<String, String>,
}

/// The step that follows `step` when the host gives `answers`. An operation
/// that is done stays done.
pub open spec fn next(step: StepView, answers: Answers) -> StepView {
    match step {
        StepView::Probe { dir, goal } => after_probe(dir, goal, answers.exists),
        StepView::Create { dir, goal } => after_create(dir, goal, answers.created),
        StepView::List { dir } => after_list(dir, answers.listing),
        StepView::Read { path, kind } => after_read(path, kind, answers.read),
        StepView::Done(end) => step,
    }
}

/// How many answers an operation that stands at `step` may still need.
pub open spec fn steps_left(step: StepView) -> nat {
    match step {
        StepView::Probe { dir, goal } => 3,
        StepView::Create { dir, goal } => 2,
        StepView::List { dir } => 1,
        StepView::Read { path, kind } => 1,
        StepView::Done(end) => 0,
    }
}

/// How the operation that stands at `step` ends when the host gives
/// `answers`.
pub open spec fn outcome(step: StepView, answers: Answers) -> Result<ReplyView, Seq<char>>
    decreases steps_left(step),
{
    match step {
        StepView::Done(end) => end,
        _ => outcome(next(step, answers), answers),
    }
}

/// What the store goes on to in `dir`, once the directory exists, comes to
/// with these answers.
pub open spec fn outcome_in(goal: GoalView, dir: Seq<char>, answers: Answers) -> Result<
    ReplyView,
    Seq<char>,
> {
    match goal {
        GoalView::Ready => Ok(ReplyView::Ready),
        GoalView::ListEpisodes => match scan(dir, answers.listing) {
            Ok(episodes) => Ok(ReplyView::Episodes(episodes)),
            Err(message) => Err(message),
        },
        GoalView::ReadScript { episode_id } => match answers.read {
            Ok(text) => Ok(ReplyView::Text(text@)),
            Err(cause) => Err(read_script_message(episode_id, cause@)),
        },
        GoalView::ReadData { episode_id } => match answers.read {
            Ok(text) => Ok(ReplyView::Text(text@)),
            Err(cause) => Err(read_data_message(episode_data_path(dir, episode_id), cause@)),
        },
    }
}

/// Every answer brings an operation nearer to its end: none takes more than
/// three.
pub proof fn lemma_each_answer_nears_the_end(step: StepView, answers: Answers)
    ensures
        steps_left(step) <= 3,
        !(step is Done) ==> steps_left(next(step, answers)) < steps_left(step),
        steps_left(step) == 0 <==> step is Done,
{
}

/// Once the directory exists the operation is as good as its goal: listing
/// gives the episodes that the host found, reading gives the text that the
/// host read, unchanged, and a failure names what could not be listed or
/// read.
pub proof fn lemma_outcome_of_goal(goal: GoalView, dir: Seq<char>, answers: Answers)
    ensures
        outcome(begin(goal, dir), answers) == outcome_in(goal, dir, answers),
{
    let step = begin(goal, dir);
    assert(outcome(next(step, answers), answers) == outcome_in(goal, dir, answers)) by {
        reveal_with_fuel(outcome, 2);
    }
    reveal_with_fuel(outcome, 2);
}

/// Making sure of a directory, and then going on: a directory that is there
/// is not created again, and the operation ends as its goal does. One that
/// is missing is created first; where that fails, the operation fails with
/// the directory's path and the cause, and asks for nothing more.
pub proof fn lemma_outcome_of_ensuring(dir: Seq<char>, goal: GoalView, answers: Answers)
    ensures
        outcome(StepView::Probe { dir, goal }, answers) == (if answers.exists {
            outcome_in(goal, dir, answers)
        } else {
            match answers.created {
                Ok(_) => outcome_in(goal, dir, answers),
                Err(cause) => Err(create_dir_message(dir, cause@)),
            }
        }),
        answers.exists ==> next(StepView::Probe { dir, goal }, answers) == begin(goal, dir),
{
    lemma_outcome_of_goal(goal, dir, answers);
    reveal_with_fuel(outcome, 4);
}

/// What a failure names, by the goal that was not reached: the directory
/// that could not be listed, the episode whose script could not be read, or
/// the path of the data file that could not be read.
pub open spec fn named_in_failure(goal: GoalView, dir: Seq<char>) -> Seq<char> {
    match goal {
        GoalView::Ready => dir,
        GoalView::ListEpisodes => dir,
        GoalView::ReadScript { episode_id } => episode_id,
        GoalView::ReadData { episode_id } => episode_data_path(dir, episode_id),
    }
}

/// No operation fails without saying on what: a failure to create the
/// directory names the directory, and a failure to reach the goal names
/// what the goal was about.
pub proof fn lemma_failure_names_what_failed(dir: Seq<char>, goal: GoalView, answers: Answers)
    ensures
        outcome_in(goal, dir, answers) matches Err(message) ==> occurs_in(
            named_in_failure(goal, dir),
            message,
        ),
        outcome(StepView::Probe { dir, goal }, answers) matches Err(message) ==> occurs_in(
            dir,
            message,
        ) || occurs_in(named_in_failure(goal, dir), message),
{
    lemma_outcome_of_ensuring(dir, goal, answers);
    lemma_failed_scan_names_dir(dir, answers.listing);
    if let Err(cause) = answers.created {
        lemma_create_failure_names_dir(dir, cause@);
    }
    if let Err(cause) = answers.read {
        match goal {
            GoalView::ReadScript { episode_id } => {
                lemma_script_failure_names_episode(episode_id, cause@);
            },
            GoalView::ReadData { episode_id } => {
                lemma_data_failure_names_path(episode_data_path(dir, episode_id), cause@);
            },
            _ => {},
        }
    }
}

/// Making sure of a directory succeeds exactly when the directory is there
/// or could be created.
pub proof fn lemma_ensuring_succeeds_when_present_or_created(dir: Seq<char>, answers: Answers)
    ensures
        outcome(StepView::Probe { dir, goal: GoalView::Ready }, answers) is Ok <==> answers.exists
            || answers.created is Ok,
        outcome(StepView::Probe { dir, goal: GoalView::Ready }, answers) matches Ok(reply)
            ==> reply == ReplyView::Ready,
{
    lemma_outcome_of_ensuring(dir, GoalView::Ready, answers);
}

/// Making sure of a directory that is there changes nothing: the store
/// asks for nothing to be created, whatever creating would come to, and the
/// operation succeeds. So it may be repeated as often as one likes.
pub proof fn lemma_ensuring_again_asks_for_nothing(dir: Seq<char>, answers: Answers)
    requires
        answers.exists,
    ensures
        next(StepView::Probe { dir, goal: GoalView::Ready }, answers) == StepView::Done(
            Ok(ReplyView::Ready),
        ),
        outcome(StepView::Probe { dir, goal: GoalView::Ready }, answers) == Ok::<
            ReplyView,
            Seq<char>,
        >(ReplyView::Ready),
{
    lemma_outcome_of_ensuring(dir, GoalView::Ready, answers);
}

} // verus!
