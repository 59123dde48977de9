//! Paths as text: names separated by `/`, extended the way a Unix path is.
//!
//! This is the one rule of the store on every platform. It knows no other
//! separator, no drive and no prefix: a name is absolute exactly when it
//! begins with `/`. A host on a platform with paths of another kind hands in
//! its data directory as it is and gets back paths in which `/` stands
//! between that directory and what the store added.

use vstd::prelude::*;
use vstd::string::*;

verus! {

/// The character that separates the names of a path.
pub open spec fn separator() -> char {
    '/'
}

/// A path is absolute when it begins at the root.
pub open spec fn is_absolute(path: Seq<char>) -> bool {
    path.len() > 0 && path[0] == separator()
}

/// Whether a separator has to be written between `base` and a name that
/// follows it: not after an empty base, nor after one that ends in a
/// separator.
pub open spec fn needs_separator(base: Seq<char>) -> bool {
    base.len() > 0 && base.last() != separator()
}

/// `name` directly under `base`.
pub open spec fn under(base: Seq<char>, name: Seq<char>) -> Seq<char> {
    if needs_separator(base) {
        base + seq![separator()] + name
    } else {
        base + name
    }
}

/// `base` extended by `name`: a relative `name` lies under `base`, an
/// absolute one stands for itself.
pub open spec fn join(base: Seq<char>, name: Seq<char>) -> Seq<char> {
    if is_absolute(name) {
        name
    } else {
        under(base, name)
    }
}

/// Extends `base` by `name`.
pub fn join_path(base: &str, name: &str) -> (joined: String)
    ensures
        joined@ == join(base@, name@),
{
    let name_len: usize = name.unicode_len();
    if name_len > 0 && name.get_char(0) == '/' {
        return String::from_str(name);
    }
    let base_len: usize = base.unicode_len();
    let mut joined = String::from_str(base);
    if base_len > 0 && base.get_char(base_len - 1) != '/' {
        proof {
            reveal_strlit("/");
        }
        joined.append("/");
        assert(joined@ == base@ + seq![separator()]);
    }
    joined.append(name);
    joined
}

/// A path that is extended by a relative name keeps all of itself and ends
/// in that name, with one separator between the two where the path called
/// for it.
pub proof fn lemma_join_keeps_base_and_name(base: Seq<char>, name: Seq<char>)
    requires
        !is_absolute(name),
    ensures
        join(base, name).take(base.len() as int) == base,
        join(base, name).skip(join(base, name).len() - name.len()) == name,
        join(base, name).len() == base.len() + name.len() + (if needs_separator(base) {
            1int
        } else {
            0int
        }),
{
    let joined = join(base, name);
    assert(joined.take(base.len() as int) =~= base);
    assert(joined.skip(joined.len() - name.len()) =~= name);
}

/// Extending by an absolute name forgets the base.
pub proof fn lemma_join_absolute_name(base: Seq<char>, name: Seq<char>)
    requires
        is_absolute(name),
    ensures
        join(base, name) == name,
{
}

} // verus!
