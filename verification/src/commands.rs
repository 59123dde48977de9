//! The three commands that the application offers: the list of episodes,
//! the script of an episode, and the data of an episode.
//!
//! Each begins with the application's data directory, as far as the host
//! could determine it, makes sure that the directory it works in exists, and
//! then lists or reads.

use crate::conversation::{lemma_outcome_of_ensuring, outcome, outcome_in, Answers};
use crate::failure::{create_dir_message, no_app_data_dir_error, no_app_data_dir_message};
use crate::file_system::{
    ensure_dir_then, episode_data_dir, get_episode_data_dir, get_script_dir, script_dir, Goal,
    GoalView, Step, StepView,
};
use vstd::prelude::*;
use vstd::string::*;

verus! {

/// How a command starts that works towards `goal` in `dir`: with the
/// failure to determine the data directory, where `dir` is missing; else by
/// making sure that `dir` exists.
pub open spec fn start(dir: Option<Seq<char>>, goal: GoalView) -> StepView {
    match dir {
        Some(dir) => StepView::Probe { dir, goal },
        None => StepView::Done(Err(no_app_data_dir_message())),
    }
}

/// The script directory, as far as the data directory is known.
pub open spec fn script_dir_of(app_data_dir: Option<&str>) -> Option<Seq<char>> {
    match app_data_dir {
        Some(root) => Some(script_dir(root@)),
        None => None,
    }
}

/// The directory of the data files, as far as the data directory is known.
pub open spec fn episode_data_dir_of(app_data_dir: Option<&str>) -> Option<Seq<char>> {
    match app_data_dir {
        Some(root) => Some(episode_data_dir(root@)),
        None => None,
    }
}

/// Starts a command in the directory that `dir` names.
fn start_in(dir: Result<String, String>, goal: Goal) -> (step: Step)
    ensures
        step@ == match dir {
            Ok(path) => StepView::Probe { dir: path@, goal: goal@ },
            Err(message) => StepView::Done(Err(message@)),
        },
{
    match dir {
        Ok(path) => ensure_dir_then(path, goal),
        Err(message) => Step::Done(Err(message)),
    }
}

/// The episodes in the script directory, in the host's order.
pub fn get_episode_list(app_data_dir: Option<&str>) -> (step: Step)
    ensures
        step@ == start(script_dir_of(app_data_dir), GoalView::ListEpisodes),
{
    match app_data_dir {
        Some(root) => start_in(get_script_dir(root), Goal::ListEpisodes),
        None => Step::Done(Err(no_app_data_dir_error())),
    }
}

/// The script of `episode_id`: the text of the file of that name in the
/// script directory.
pub fn load_episode_script(app_data_dir: Option<&str>, episode_id: &str) -> (step: Step)
    ensures
        step@ == start(
            script_dir_of(app_data_dir),
            GoalView::ReadScript { episode_id: episode_id@ },
        ),
{
    match app_data_dir {
        Some(root) => start_in(
            get_script_dir(root),
            Goal::ReadScript { episode_id: String::from_str(episode_id) },
        ),
        None => Step::Done(Err(no_app_data_dir_error())),
    }
}

/// The data of `episode_id`: the text of the episode's data file in the
/// data directory.
pub fn load_episode_data(app_data_dir: Option<&str>, episode_id: &str) -> (step: Step)
    ensures
        step@ == start(
            episode_data_dir_of(app_data_dir),
            GoalView::ReadData { episode_id: episode_id@ },
        ),
{
    match app_data_dir {
        Some(root) => start_in(
            get_episode_data_dir(root),
            Goal::ReadData { episode_id: String::from_str(episode_id) },
        ),
        None => Step::Done(Err(no_app_data_dir_error())),
    }
}

/// What a command comes to. Without a data directory it fails, and the host
/// is asked for nothing. Where its directory is missing and cannot be
/// created it fails with that directory and the cause. Else it ends as its
/// goal does in that directory.
pub proof fn lemma_outcome_of_command(dir: Option<Seq<char>>, goal: GoalView, answers: Answers)
    ensures
        outcome(start(dir, goal), answers) == (match dir {
            None => Err(no_app_data_dir_message()),
            Some(dir) => match answers.created {
                Err(cause) if !answers.exists => Err(create_dir_message(dir, cause@)),
                _ => outcome_in(goal, dir, answers),
            },
        }),
{
    match dir {
        Some(dir) => {
            lemma_outcome_of_ensuring(dir, goal, answers);
        },
        None => {},
    }
}

} // verus!
