use vstd::prelude::*;
use vstd::string::{StrSliceExecFns, StringExecFns};

verus! {

/// Compare two string slices character by character.
///
/// Relies on `str`'s equality: two slices are equal exactly when they hold
/// the same sequence of characters.
#[verifier::external_body]
pub(crate) fn str_eq(a: &str, b: &str) -> (equal: bool)
    ensures
        equal == (a@ == b@),
{
    a == b
}

/// The concatenation of a base path and a relative fragment, with exactly one
/// separator between them.
pub open spec fn join_view(base: Seq<char>, rel: Seq<char>) -> Seq<char> {
    if base.len() > 0 && base.last() == '/' {
        base + rel
    } else {
        base + seq!['/'] + rel
    }
}

/// Concatenate a base path and a relative fragment.
pub fn join_path(base: &str, rel: &str) -> (joined: String)
    ensures
        joined@ == join_view(base@, rel@),
{
    let len = base.unicode_len();
    let mut joined = base.to_owned();
    if len == 0 || base.get_char(len - 1) != '/' {
        joined.append("/");
        proof {
            reveal_strlit("/");
            assert("/"@ =~= seq!['/']);
        }
    }
    joined.append(rel);
    proof {
        assert(joined@ =~= join_view(base@, rel@));
    }
    joined
}

/// The length of a path's directory portion: everything up to (and not
/// including) the last separator, or the empty prefix when there is none.
pub open spec fn spec_dirname_len(path: Seq<char>) -> int
    decreases path.len(),
{
    if path.len() == 0 {
        0
    } else if path.last() == '/' {
        path.len() - 1
    } else {
        spec_dirname_len(path.drop_last())
    }
}

/// The directory containing a path: the prefix before the last separator,
/// except that the root directory is its own parent's spelling (`"/"`).
pub open spec fn dirname_view(path: Seq<char>) -> Seq<char> {
    if spec_dirname_len(path) == 0 && path.len() > 0 && path.first() == '/' {
        seq!['/']
    } else {
        path.take(spec_dirname_len(path))
    }
}

proof fn lemma_dirname_len_bound(path: Seq<char>)
    ensures
        0 <= spec_dirname_len(path) <= path.len(),
        path.len() > 0 ==> spec_dirname_len(path) < path.len(),
    decreases path.len(),
{
    if path.len() > 0 && path.last() != '/' {
        lemma_dirname_len_bound(path.drop_last());
    }
}

/// No separator occurs strictly after the dirname length.
proof fn lemma_dirname_len_no_slash_after(path: Seq<char>, i: int)
    requires
        spec_dirname_len(path) < i < path.len(),
    ensures
        path[i] != '/',
    decreases path.len(),
{
    lemma_dirname_len_bound(path);
    if path.len() > 0 && path.last() != '/' {
        if i < path.len() - 1 {
            lemma_dirname_len_no_slash_after(path.drop_last(), i);
            assert(path[i] == path.drop_last()[i]);
        } else {
            assert(path[i] == path.last());
        }
    }
}

/// A separator just before the dirname length (when it is positive).
proof fn lemma_dirname_len_slash_at(path: Seq<char>)
    requires
        spec_dirname_len(path) > 0,
    ensures
        path[spec_dirname_len(path)] == '/',
    decreases path.len(),
{
    if path.len() > 0 && path.last() != '/' {
        lemma_dirname_len_bound(path.drop_last());
        lemma_dirname_len_slash_at(path.drop_last());
    }
}

/// Compute the directory containing a path.
pub fn dirname(path: &str) -> (parent: String)
    ensures
        parent@ == dirname_view(path@),
{
    let len = path.unicode_len();
    proof {
        lemma_dirname_len_bound(path@);
    }
    let mut cut: usize = len;
    loop
        invariant
            cut <= len,
            len == path@.len(),
            forall|j: int| cut <= j < len ==> path@[j] != '/',
        ensures
            cut <= len,
            len == path@.len(),
            forall|j: int| cut <= j < len ==> path@[j] != '/',
            cut == 0 || path@[cut - 1] == '/',
        decreases cut,
    {
        if cut == 0 {
            break;
        }
        if path.get_char(cut - 1) == '/' {
            break;
        }
        cut = cut - 1;
    }
    let dir_len: usize = if cut == 0 {
        0
    } else {
        cut - 1
    };
    proof {
        if cut == 0 {
            if spec_dirname_len(path@) > 0 {
                lemma_dirname_len_slash_at(path@);
                assert(false);
            }
        } else {
            assert(path@[cut - 1] == '/');
            if spec_dirname_len(path@) < cut - 1 {
                lemma_dirname_len_no_slash_after(path@, cut - 1);
            }
            if spec_dirname_len(path@) > cut - 1 {
                lemma_dirname_len_slash_at(path@);
            }
        }
        assert(dir_len == spec_dirname_len(path@));
    }
    if dir_len == 0 && len > 0 && path.get_char(0) == '/' {
        let root = "/".to_owned();
        proof {
            reveal_strlit("/");
            assert(root@ =~= seq!['/']);
        }
        root
    } else {
        let parent = path.substring_char(0, dir_len);
        proof {
            assert(parent@ =~= dirname_view(path@));
        }
        parent.to_owned()
    }
}

} // verus!
