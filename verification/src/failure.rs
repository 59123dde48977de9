//! The one kind of error of the store: a text that names the operation that
//! failed, what it was applied to, and the cause that the host reported.

use vstd::prelude::*;
use vstd::string::*;

verus! {

/// `part` stands somewhere in `text`, unbroken.
pub open spec fn occurs_in(part: Seq<char>, text: Seq<char>) -> bool {
    exists|at: int|
        0 <= at && at + part.len() <= text.len() && #[trigger] text.subrange(
            at,
            at + part.len(),
        ) == part
}

/// A directory could not be created.
pub open spec fn create_dir_message(dir: Seq<char>, cause: Seq<char>) -> Seq<char> {
    "failed to create dir '"@ + dir + "': "@ + cause
}

/// A directory could not be opened for listing.
pub open spec fn read_dir_message(dir: Seq<char>, cause: Seq<char>) -> Seq<char> {
    "failed to read dir '"@ + dir + "': "@ + cause
}

/// One entry of a directory could not be read.
pub open spec fn read_entry_message(dir: Seq<char>, cause: Seq<char>) -> Seq<char> {
    "failed to read entry in '"@ + dir + "': "@ + cause
}

/// The script of an episode could not be read.
pub open spec fn read_script_message(episode_id: Seq<char>, cause: Seq<char>) -> Seq<char> {
    "failed to read script file '"@ + episode_id + "': "@ + cause
}

/// The data file of an episode could not be read.
pub open spec fn read_data_message(path: Seq<char>, cause: Seq<char>) -> Seq<char> {
    "failed to read episode data file '"@ + path + "': "@ + cause
}

/// The host could not tell where the application keeps its data.
pub open spec fn no_app_data_dir_message() -> Seq<char> {
    "Could not determine app data directory"@
}

/// `head`, then `name`, then `': `, then `cause`.
fn quoted(head: &str, name: &str, cause: &str) -> (message: String)
    ensures
        message@ == head@ + name@ + "': "@ + cause@,
{
    let mut message = String::from_str(head);
    message.append(name);
    message.append("': ");
    message.append(cause);
    message
}

/// The text of [`create_dir_message`].
pub fn create_dir_error(dir: &str, cause: &str) -> (message: String)
    ensures
        message@ == create_dir_message(dir@, cause@),
{
    quoted("failed to create dir '", dir, cause)
}

/// The text of [`read_dir_message`].
pub fn read_dir_error(dir: &str, cause: &str) -> (message: String)
    ensures
        message@ == read_dir_message(dir@, cause@),
{
    quoted("failed to read dir '", dir, cause)
}

/// The text of [`read_entry_message`].
pub fn read_entry_error(dir: &str, cause: &str) -> (message: String)
    ensures
        message@ == read_entry_message(dir@, cause@),
{
    quoted("failed to read entry in '", dir, cause)
}

/// The text of [`read_script_message`].
pub fn read_script_error(episode_id: &str, cause: &str) -> (message: String)
    ensures
        message@ == read_script_message(episode_id@, cause@),
{
    quoted("failed to read script file '", episode_id, cause)
}

/// The text of [`read_data_message`].
pub fn read_data_error(path: &str, cause: &str) -> (message: String)
    ensures
        message@ == read_data_message(path@, cause@),
{
    quoted("failed to read episode data file '", path, cause)
}

/// The text of [`no_app_data_dir_message`].
pub fn no_app_data_dir_error() -> (message: String)
    ensures
        message@ == no_app_data_dir_message(),
{
    String::from_str("Could not determine app data directory")
}

/// What stands between two texts occurs in the whole.
proof fn lemma_middle_occurs(head: Seq<char>, part: Seq<char>, tail: Seq<char>)
    ensures
        occurs_in(part, head + part + tail),
{
    let text = head + part + tail;
    let at = head.len() as int;
    assert(text.subrange(at, at + part.len()) =~= part);
}

/// A text that is made of a head, a name, `': ` and a cause holds the name
/// and the cause.
proof fn lemma_quoted_holds_name_and_cause(head: Seq<char>, name: Seq<char>, cause: Seq<char>)
    ensures
        occurs_in(name, head + name + "': "@ + cause),
        occurs_in(cause, head + name + "': "@ + cause),
{
    let message = head + name + "': "@ + cause;
    lemma_middle_occurs(head, name, "': "@ + cause);
    assert(head + name + ("': "@ + cause) =~= message);
    lemma_middle_occurs(head + name + "': "@, cause, Seq::empty());
    assert(head + name + "': "@ + cause + Seq::<char>::empty() =~= message);
}

/// Every failure to create a directory names the directory and carries the
/// cause.
pub proof fn lemma_create_failure_names_dir(dir: Seq<char>, cause: Seq<char>)
    ensures
        occurs_in(dir, create_dir_message(dir, cause)),
        occurs_in(cause, create_dir_message(dir, cause)),
{
    lemma_quoted_holds_name_and_cause("failed to create dir '"@, dir, cause);
}

/// Every failure to list a directory names the directory and carries the
/// cause, whether the directory could not be opened or one of its entries
/// could not be read.
pub proof fn lemma_listing_failure_names_dir(dir: Seq<char>, cause: Seq<char>)
    ensures
        occurs_in(dir, read_dir_message(dir, cause)),
        occurs_in(cause, read_dir_message(dir, cause)),
        occurs_in(dir, read_entry_message(dir, cause)),
        occurs_in(cause, read_entry_message(dir, cause)),
{
    lemma_quoted_holds_name_and_cause("failed to read dir '"@, dir, cause);
    lemma_quoted_holds_name_and_cause("failed to read entry in '"@, dir, cause);
}

/// Every failure to read a script names the episode and carries the cause.
pub proof fn lemma_script_failure_names_episode(episode_id: Seq<char>, cause: Seq<char>)
    ensures
        occurs_in(episode_id, read_script_message(episode_id, cause)),
        occurs_in(cause, read_script_message(episode_id, cause)),
{
    lemma_quoted_holds_name_and_cause("failed to read script file '"@, episode_id, cause);
}

/// Every failure to read a data file names the file's path and carries the
/// cause.
pub proof fn lemma_data_failure_names_path(path: Seq<char>, cause: Seq<char>)
    ensures
        occurs_in(path, read_data_message(path, cause)),
        occurs_in(cause, read_data_message(path, cause)),
{
    lemma_quoted_holds_name_and_cause("failed to read episode data file '"@, path, cause);
}

} // verus!
