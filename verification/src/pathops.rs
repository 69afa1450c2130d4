//! Path arithmetic on plain strings: absoluteness, the parent directory of a
//! path, joining a directory with a link target, and the quoted form of a
//! path used in diagnostic lines.
//!
//! Paths are modelled as character strings with `/` as the separator.  A
//! path is absolute when it starts with the separator; the parent of a path
//! is everything before its last separator.

use vstd::prelude::*;

verus! {

/// A path is absolute when it starts with the separator.
pub open spec fn abs_spec(p: Seq<char>) -> bool {
    p.len() > 0 && p[0] == '/'
}

/// The index of the last separator in `p`, or -1 if `p` has none.
pub open spec fn last_slash(p: Seq<char>) -> int
    decreases p.len(),
{
    if p.len() == 0 {
        -1
    } else if p[p.len() - 1] == '/' {
        p.len() - 1
    } else {
        last_slash(p.drop_last())
    }
}

/// The parent directory of `p`: everything before the last separator, the
/// root itself when the last separator is the leading one, and the empty
/// path when `p` has no separator at all.
pub open spec fn parent_spec(p: Seq<char>) -> Seq<char> {
    if last_slash(p) < 0 {
        Seq::empty()
    } else if last_slash(p) == 0 {
        seq!['/']
    } else {
        p.subrange(0, last_slash(p))
    }
}

/// Joining a directory with a target path: an absolute target replaces the
/// directory outright; otherwise the two are concatenated with a separator
/// between them unless the directory is empty or already ends in one.
pub open spec fn join_spec(dir: Seq<char>, target: Seq<char>) -> Seq<char> {
    if abs_spec(target) {
        target
    } else if dir.len() == 0 {
        target
    } else if dir[dir.len() - 1] == '/' {
        dir + target
    } else {
        dir + seq!['/'] + target
    }
}

proof fn lemma_last_slash_at(p: Seq<char>, k: int)
    requires
        0 <= k < p.len(),
        p[k] == '/',
        forall|j: int| k < j < p.len() ==> p[j] != '/',
    ensures
        last_slash(p) == k,
    decreases p.len(),
{
    if k == p.len() - 1 {
    } else {
        assert(p[p.len() - 1] != '/');
        assert(p.drop_last() == p.subrange(0, p.len() - 1));
        lemma_last_slash_at(p.drop_last(), k);
    }
}

proof fn lemma_no_slash(p: Seq<char>)
    requires
        forall|j: int| 0 <= j < p.len() ==> p[j] != '/',
    ensures
        last_slash(p) == -1,
    decreases p.len(),
{
    if p.len() > 0 {
        lemma_no_slash(p.drop_last());
    }
}

/// Whether the path is absolute, that is, starts with the separator.
pub fn is_absolute(p: &String) -> (r: bool)
    ensures
        r == abs_spec(p@),
{
    let s = p.as_str();
    if s.unicode_len() == 0 {
        false
    } else {
        s.get_char(0) == '/'
    }
}

/// The parent directory of `p`, as `parent_spec` describes it.
pub fn parent_of(p: &String) -> (r: String)
    ensures
        r@ == parent_spec(p@),
{
    let s = p.as_str();
    let len = s.unicode_len();
    let mut i: usize = len;
    while i > 0
        invariant
            i <= len,
            len == p@.len(),
            s@ == p@,
            forall|j: int| i <= j < len ==> p@[j] != '/',
        decreases i,
    {
        if s.get_char(i - 1) == '/' {
            proof {
                lemma_last_slash_at(p@, i - 1);
            }
            if i == 1 {
                let r = String::from_str("/");
                proof {
                    reveal_strlit("/");
                    assert(r@ =~= parent_spec(p@));
                }
                return r;
            }
            let sub = s.substring_char(0, i - 1);
            let r = sub.to_owned();
            proof {
                assert(r@ =~= parent_spec(p@));
            }
            return r;
        }
        i -= 1;
    }
    proof {
        lemma_no_slash(p@);
    }
    let r = String::new();
    proof {
        assert(r@ =~= parent_spec(p@));
    }
    r
}

/// Join a directory with a link target, as `join_spec` describes it.
pub fn join(dir: &String, target: &String) -> (r: String)
    ensures
        r@ == join_spec(dir@, target@),
{
    if is_absolute(target) {
        return target.clone();
    }
    let d = dir.as_str();
    let dlen = d.unicode_len();
    if dlen == 0 {
        return target.clone();
    }
    let mut r = dir.clone();
    if d.get_char(dlen - 1) != '/' {
        r.append("/");
        proof {
            reveal_strlit("/");
            assert(r@ =~= dir@ + seq!['/']);
        }
    }
    r.append(target.as_str());
    proof {
        assert(r@ =~= join_spec(dir@, target@));
    }
    r
}

} // verus!
