//! The diagnostic line reported for a broken symlink: the offending path in
//! its quoted debug form, followed by ` is not a valid symlink`.

use vstd::prelude::*;

verus! {

/// The escape of one character inside a quoted path: quote, backslash and
/// the common control characters get a backslash escape, every other
/// character stands for itself.
pub open spec fn escape_char(c: char) -> Seq<char> {
    if c == '"' {
        seq!['\\', '"']
    } else if c == '\\' {
        seq!['\\', '\\']
    } else if c == '\n' {
        seq!['\\', 'n']
    } else if c == '\r' {
        seq!['\\', 'r']
    } else if c == '\t' {
        seq!['\\', 't']
    } else if c == '\0' {
        seq!['\\', '0']
    } else {
        seq![c]
    }
}

/// The whole string escaped character by character.
pub open spec fn escaped(s: Seq<char>) -> Seq<char>
    decreases s.len(),
{
    if s.len() == 0 {
        Seq::<char>::empty()
    } else {
        escaped(s.drop_last()) + escape_char(s.last())
    }
}

/// The quoted debug form of a path: the escaped text between double quotes.
pub open spec fn quoted_spec(p: Seq<char>) -> Seq<char> {
    seq!['"'] + escaped(p) + seq!['"']
}

/// The diagnostic line owed for a broken symlink at path `p`.
pub open spec fn diagnostic_spec(p: Seq<char>) -> Seq<char> {
    quoted_spec(p) + " is not a valid symlink"@
}

/// The path in its quoted debug form, as `quoted_spec` describes it.
pub fn debug_quoted(p: &String) -> (r: String)
    ensures
        r@ == quoted_spec(p@),
{
    let s = p.as_str();
    let len = s.unicode_len();
    let mut r = String::from_str("\"");
    proof {
        reveal_strlit("\"");
        assert(p@.subrange(0, 0) =~= Seq::<char>::empty());
        assert(r@ =~= seq!['"'] + escaped(p@.subrange(0, 0)));
    }
    let mut i: usize = 0;
    while i < len
        invariant
            i <= len,
            len == p@.len(),
            s@ == p@,
            r@ == seq!['"'] + escaped(p@.subrange(0, i as int)),
        decreases len - i,
    {
        let c = s.get_char(i);
        if c == '"' {
            r.append("\\\"");
            proof {
                reveal_strlit("\\\"");
                assert("\\\""@ =~= escape_char(c));
            }
        } else if c == '\\' {
            r.append("\\\\");
            proof {
                reveal_strlit("\\\\");
                assert("\\\\"@ =~= escape_char(c));
            }
        } else if c == '\n' {
            r.append("\\n");
            proof {
                reveal_strlit("\\n");
                assert("\\n"@ =~= escape_char(c));
            }
        } else if c == '\r' {
            r.append("\\r");
            proof {
                reveal_strlit("\\r");
                assert("\\r"@ =~= escape_char(c));
            }
        } else if c == '\t' {
            r.append("\\t");
            proof {
                reveal_strlit("\\t");
                assert("\\t"@ =~= escape_char(c));
            }
        } else if c == '\0' {
            r.append("\\0");
            proof {
                reveal_strlit("\\0");
                assert("\\0"@ =~= escape_char(c));
            }
        } else {
            let one = s.substring_char(i, i + 1);
            r.append(one);
            proof {
                assert(p@.subrange(i as int, i + 1) =~= seq![p@[i as int]]);
                assert(one@ =~= escape_char(c));
            }
        }
        proof {
            assert(p@.subrange(0, i + 1).drop_last() =~= p@.subrange(0, i as int));
            assert(p@.subrange(0, i + 1).last() == p@[i as int]);
            assert(r@ =~= seq!['"'] + escaped(p@.subrange(0, i + 1)));
        }
        i += 1;
    }
    r.append("\"");
    proof {
        reveal_strlit("\"");
        assert(p@.subrange(0, p@.len() as int) =~= p@);
        assert(r@ =~= quoted_spec(p@));
    }
    r
}

/// The diagnostic line for path `p`, as `diagnostic_spec` describes it.
pub fn diagnostic_line(p: &String) -> (r: String)
    ensures
        r@ == diagnostic_spec(p@),
{
    let q = debug_quoted(p);
    q.concat(" is not a valid symlink")
}

} // verus!
