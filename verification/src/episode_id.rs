//! Episode identifiers and the data file that belongs to each.

use vstd::prelude::*;
use vstd::string::*;

verus! {

/// The identifier without its last extension: what stands before the last
/// `.`, or the whole identifier where it has none.
pub open spec fn stem(episode_id: Seq<char>) -> Seq<char> {
    match episode_id.index_of_last('.') {
        Some(dot) => episode_id.take(dot),
        None => episode_id,
    }
}

/// The name of the data file of an episode: its stem, then `.json`.
pub open spec fn data_file_name(episode_id: Seq<char>) -> Seq<char> {
    stem(episode_id) + ".json"@
}

/// Where the last `.` of `text` stands, counted in characters.
pub fn last_dot(text: &str) -> (dot: Option<usize>)
    ensures
        dot matches Some(i) ==> i < text@.len() && text@.index_of_last('.') == Some(i as int),
        dot is None ==> text@.index_of_last('.') is None,
{
    let len: usize = text.unicode_len();
    let mut dot: Option<usize> = None;
    let mut seen: usize = 0;
    for c in it: text.chars()
        invariant
            len == text@.len(),
            it.seq() == text@,
            seen == it.index(),
            dot matches Some(i) ==> i < seen && text@[i as int] == '.',
            dot matches Some(i) ==> forall|j: int| i < j < seen ==> text@[j] != '.',
            dot is None ==> forall|j: int| 0 <= j < seen ==> text@[j] != '.',
    {
        if c == '.' {
            dot = Some(seen);
        }
        seen = seen + 1;
    }
    proof {
        text@.index_of_last_ensures('.');
    }
    dot
}

/// The name of the data file that belongs to `episode_id`.
pub fn episode_data_file_name(episode_id: &str) -> (name: String)
    ensures
        name@ == data_file_name(episode_id@),
{
    let mut name = match last_dot(episode_id) {
        Some(dot) => String::from_str(episode_id.substring_char(0, dot)),
        None => String::from_str(episode_id),
    };
    name.append(".json");
    name
}

/// An identifier without a `.` is its own stem: its data file is the
/// identifier followed by `.json`.
pub proof fn lemma_data_file_name_without_extension(episode_id: Seq<char>)
    requires
        !episode_id.contains('.'),
    ensures
        stem(episode_id) == episode_id,
        data_file_name(episode_id) == episode_id + ".json"@,
{
    episode_id.index_of_last_ensures('.');
}

/// Only the last extension is replaced: for an identifier `base.extension`,
/// where `extension` holds no `.`, the data file is `base.json`, whatever
/// `base` holds.
pub proof fn lemma_data_file_name_replaces_extension(base: Seq<char>, extension: Seq<char>)
    requires
        !extension.contains('.'),
    ensures
        stem(base + seq!['.'] + extension) == base,
        data_file_name(base + seq!['.'] + extension) == base + ".json"@,
{
    let episode_id = base + seq!['.'] + extension;
    let at = base.len() as int;
    episode_id.index_of_last_ensures('.');
    assert(episode_id[at] == '.');
    assert(episode_id.contains('.'));
    let dot = episode_id.index_of_last('.')->0;
    if dot < at {
        assert(episode_id[at] != '.');
    }
    if dot > at {
        assert(extension[dot - at - 1] == episode_id[dot]);
        assert(extension.contains('.'));
    }
    assert(episode_id.take(at) =~= base);
}

/// The data file of an episode is its own data file: naming is idempotent.
pub proof fn lemma_data_file_name_is_fixed(episode_id: Seq<char>)
    ensures
        data_file_name(data_file_name(episode_id)) == data_file_name(episode_id),
{
    reveal_strlit(".json");
    let json = seq!['j', 's', 'o', 'n'];
    assert(".json"@ =~= seq!['.'] + json);
    assert(!json.contains('.'));
    assert(data_file_name(episode_id) =~= stem(episode_id) + seq!['.'] + json);
    lemma_data_file_name_replaces_extension(stem(episode_id), json);
}

} // verus!
