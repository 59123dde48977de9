//! What a directory holds, as its host reports it, and which of its entries
//! are episodes.

use crate::failure::{
    lemma_listing_failure_names_dir, occurs_in, read_dir_error, read_dir_message, read_entry_error,
    read_entry_message,
};
use vstd::prelude::*;

verus! {

/// One entry of a directory.
pub struct DirEntry {
    /// The entry's file name, where that name is valid Unicode.
    pub name: Option<String>,
    /// Whether the entry is a regular file.
    pub is_file: bool,
}

/// The episode that one position of a directory stands for: the name of a
/// regular file. A position that could not be read, a directory and a file
/// whose name is not Unicode stand for none.
pub open spec fn episode_name(found: Result<DirEntry, String>) -> Option<Seq<char>> {
    match found {
        Ok(entry) => match entry.name {
            Some(name) if entry.is_file => Some(name@),
            _ => None,
        },
        Err(_) => None,
    }
}

/// The episodes of a directory, in the order of its entries.
pub open spec fn episode_names(found: Seq<Result<DirEntry, String>>) -> Seq<Seq<char>> {
    found.filter_map(|position: Result<DirEntry, String>| episode_name(position))
}

/// The cause of the first position that could not be read, if there is one.
pub open spec fn first_failure(found: Seq<Result<DirEntry, String>>) -> Option<Seq<char>>
    decreases found.len(),
{
    if found.len() == 0 {
        None
    } else {
        match first_failure(found.drop_last()) {
            Some(cause) => Some(cause),
            None => match found.last() {
                Err(cause) => Some(cause@),
                Ok(_) => None,
            },
        }
    }
}

/// What listing `dir` comes to: a failure that names `dir`, where the
/// directory could not be opened or one of its entries could not be read;
/// else its episodes.
pub open spec fn scan(
    dir: Seq<char>,
    listing: Result<Vec<Result<DirEntry, String>>, String>,
) -> Result<Seq<Seq<char>>, Seq<char>> {
    match listing {
        Err(cause) => Err(read_dir_message(dir, cause@)),
        Ok(found) => match first_failure(found@) {
            Some(cause) => Err(read_entry_message(dir, cause)),
            None => Ok(episode_names(found@)),
        },
    }
}

/// A failure among the first positions is the failure of the whole.
proof fn lemma_first_failure_stays(found: Seq<Result<DirEntry, String>>, upto: int)
    requires
        0 <= upto <= found.len(),
        first_failure(found.take(upto)) is Some,
    ensures
        first_failure(found) == first_failure(found.take(upto)),
    decreases found.len() - upto,
{
    if upto < found.len() {
        assert(found.take(upto + 1).drop_last() =~= found.take(upto));
        lemma_first_failure_stays(found, upto + 1);
    } else {
        assert(found.take(upto) =~= found);
    }
}

/// The position `at` could not be read, for `cause`, and every position
/// before it was read.
pub open spec fn fails_first_at(
    found: Seq<Result<DirEntry, String>>,
    at: int,
    cause: Seq<char>,
) -> bool {
    &&& 0 <= at < found.len()
    &&& found[at] is Err
    &&& found[at]->Err_0@ == cause
    &&& forall|before: int| 0 <= before < at ==> (#[trigger] found[before]) is Ok
}

/// The first failure is that of the first position that could not be read;
/// there is none where every position was read.
pub proof fn lemma_first_failure_is_first(found: Seq<Result<DirEntry, String>>)
    ensures
        first_failure(found) is None <==> forall|at: int|
            0 <= at < found.len() ==> (#[trigger] found[at]) is Ok,
        first_failure(found) matches Some(cause) ==> exists|at: int|
            fails_first_at(found, at, cause),
    decreases found.len(),
{
    if found.len() > 0 {
        let rest = found.drop_last();
        lemma_first_failure_is_first(rest);
        assert forall|at: int| 0 <= at < rest.len() implies (#[trigger] found[at]) == rest[at] by {}
        if let Some(cause) = first_failure(found) {
            let at = if first_failure(rest) is Some {
                choose|at: int| fails_first_at(rest, at, cause)
            } else {
                found.len() - 1
            };
            assert(fails_first_at(found, at, cause)) by {
                assert(forall|before: int| 0 <= before < at ==> found[before] == rest[before]);
            }
        } else {
            assert forall|at: int| 0 <= at < found.len() implies (#[trigger] found[at]) is Ok by {
                if at < rest.len() {
                    assert(rest[at] is Ok);
                }
            }
        }
    }
}

/// A directory that holds nothing but regular files with Unicode names lists
/// every one of them, each once and in the order of its entries.
pub proof fn lemma_directory_of_files_lists_each(found: Seq<Result<DirEntry, String>>)
    requires
        forall|at: int| 0 <= at < found.len() ==> episode_name(#[trigger] found[at]) is Some,
    ensures
        first_failure(found) is None,
        episode_names(found).len() == found.len(),
        forall|at: int|
            0 <= at < found.len() ==> Some(#[trigger] episode_names(found)[at]) == episode_name(
                found[at],
            ),
    decreases found.len(),
{
    if found.len() > 0 {
        let rest = found.drop_last();
        assert(forall|at: int| 0 <= at < rest.len() ==> rest[at] == found[at]);
        lemma_directory_of_files_lists_each(rest);
        assert(episode_name(found[found.len() - 1]) is Some);
    }
}

/// A listing that fails names its directory, whether the directory could
/// not be opened or one of its entries could not be read; and it fails in
/// exactly those two cases.
pub proof fn lemma_failed_scan_names_dir(
    dir: Seq<char>,
    listing: Result<Vec<Result<DirEntry, String>>, String>,
)
    ensures
        scan(dir, listing) matches Err(message) ==> occurs_in(dir, message),
        scan(dir, listing) is Err <==> (listing matches Ok(found) ==> first_failure(found@) is Some),
{
    match listing {
        Err(cause) => {
            lemma_listing_failure_names_dir(dir, cause@);
        },
        Ok(found) => {
            if let Some(cause) = first_failure(found@) {
                lemma_listing_failure_names_dir(dir, cause);
            }
        },
    }
}

/// The episodes among `found`, the entries of `dir`, or the first failure
/// among them.
pub fn episode_files(dir: &str, found: &Vec<Result<DirEntry, String>>) -> (names: Result<
    Vec<String>,
    String,
>)
    ensures
        match first_failure(found@) {
            Some(cause) => names matches Err(message) && message@ == read_entry_message(
                dir@,
                cause,
            ),
            None => names matches Ok(list) && list.deep_view() == episode_names(found@),
        },
{
    let mut list: Vec<String> = Vec::new();
    let mut at: usize = 0;
    while at < found.len()
        invariant
            at <= found.len(),
            first_failure(found@.take(at as int)) is None,
            list.deep_view() == episode_names(found@.take(at as int)),
        decreases found.len() - at,
    {
        proof {
            assert(found@.take(at + 1).drop_last() =~= found@.take(at as int));
            found@.lemma_filter_map_take_succ(
                |position: Result<DirEntry, String>| episode_name(position),
                at as int,
            );
        }
        match &found[at] {
            Err(cause) => {
                proof {
                    lemma_first_failure_stays(found@, at + 1);
                }
                return Err(read_entry_error(dir, cause.as_str()));
            },
            Ok(entry) => {
                if entry.is_file {
                    if let Some(name) = &entry.name {
                        let ghost before = list.deep_view();
                        list.push(name.clone());
                        assert(list.deep_view() =~= before + seq![name@]);
                    }
                }
            },
        }
        at = at + 1;
    }
    assert(found@.take(at as int) =~= found@);
    Ok(list)
}

/// What listing `dir` comes to, from what its host reported.
pub fn scan_listing(dir: &str, listing: Result<Vec<Result<DirEntry, String>>, String>) -> (names:
    Result<Vec<String>, String>)
    ensures
        match scan(dir@, listing) {
            Ok(episodes) => names matches Ok(list) && list.deep_view() == episodes,
            Err(message) => names matches Err(text) && text@ == message,
        },
{
    match listing {
        Err(cause) => Err(read_dir_error(dir, cause.as_str())),
        Ok(found) => episode_files(dir, &found),
    }
}

} // verus!
