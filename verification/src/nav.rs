//! Path arithmetic for navigation, and the errors a directory change can
//! surface.  Paths are absolute, Unix style: they start with `/`, and the
//! root is the single character `/`.

use vstd::prelude::*;
use vstd::string::*;

verus! {

/// A well-formed absolute path: nonempty, starting with `/`.
pub open spec fn path_wf(p: Seq<char>) -> bool {
    p.len() >= 1 && p[0] == '/'
}

/// The filesystem root, `/`.
pub open spec fn is_root(p: Seq<char>) -> bool {
    p.len() == 1
}

/// Index of the last `/` in `p`, or -1 if there is none.
pub open spec fn last_slash(p: Seq<char>) -> int
    decreases p.len(),
{
    if p.len() == 0 {
        -1
    } else if p[p.len() - 1] == '/' {
        p.len() - 1
    } else {
        last_slash(p.drop_last())
    }
}

/// The parent of an absolute path: everything before the last `/`, or the
/// root when the last `/` is the leading one.
pub open spec fn parent_of(p: Seq<char>) -> Seq<char> {
    if last_slash(p) <= 0 {
        seq!['/']
    } else {
        p.subrange(0, last_slash(p))
    }
}

/// A child path: `p` with `/` and the child's name appended (no doubled
/// slash when `p` is the root).
pub open spec fn joined(p: Seq<char>, n: Seq<char>) -> Seq<char> {
    if p.len() == 1 {
        p + n
    } else {
        p + seq!['/'] + n
    }
}

/// Why a directory change failed.  The embedding program maps what the
/// filesystem reported onto these; any failure other than the three named
/// ones travels as `IoError` with its description.
#[derive(Clone, Debug)]
pub enum NavError {
    NotFound,
    PermissionDenied,
    NotADirectory,
    IoError(String),
}

impl NavError {
    /// The user-visible description of this error.
    pub open spec fn message_spec(self) -> Seq<char> {
        match self {
            NavError::NotFound => "no such file or directory"@,
            NavError::PermissionDenied => "permission denied"@,
            NavError::NotADirectory => "not a directory"@,
            NavError::IoError(s) => s@,
        }
    }

    pub fn message(&self) -> (m: String)
        ensures
            m@ == self.message_spec(),
    {
        match self {
            NavError::NotFound => String::from_str("no such file or directory"),
            NavError::PermissionDenied => String::from_str("permission denied"),
            NavError::NotADirectory => String::from_str("not a directory"),
            NavError::IoError(s) => s.clone(),
        }
    }
}

/// A path that starts with `/` has a last slash.
proof fn lemma_last_slash_nonneg(p: Seq<char>)
    requires
        p.len() >= 1,
        p[0] == '/',
    ensures
        last_slash(p) >= 0,
    decreases p.len(),
{
    if p[p.len() - 1] == '/' {
    } else {
        lemma_last_slash_nonneg(p.drop_last());
    }
}

/// Compute the parent of an absolute path.
pub fn parent_path(p: &String) -> (r: String)
    requires
        path_wf(p@),
    ensures
        r@ == parent_of(p@),
        path_wf(r@),
{
    let s = p.as_str();
    let l = s.unicode_len();
    let mut k: usize = l;
    proof {
        assert(p@.subrange(0, l as int) =~= p@);
    }
    loop
        invariant
            1 <= k <= l,
            l == p@.len(),
            s@ == p@,
            path_wf(p@),
            last_slash(p@) == last_slash(p@.subrange(0, k as int)),
        ensures
            1 <= k <= l,
            p@[k as int - 1] == '/',
            last_slash(p@) == k - 1,
        decreases k,
    {
        let c = s.get_char(k - 1);
        proof {
            let pre = p@.subrange(0, k as int);
            assert(pre[k - 1] == p@[k as int - 1]);
            if c == '/' {
                assert(last_slash(pre) == k - 1);
            } else {
                assert(pre.drop_last() =~= p@.subrange(0, k as int - 1));
            }
        }
        if c == '/' {
            break;
        }
        proof {
            lemma_last_slash_nonneg(p@);
            if k == 1 {
                assert(p@.subrange(0, 0) =~= Seq::<char>::empty());
                assert(last_slash(p@) == -1);
            }
        }
        k = k - 1;
    }
    if k - 1 == 0 {
        let r = String::from_str("/");
        proof {
            reveal_strlit("/");
            assert(r@ =~= seq!['/']);
        }
        r
    } else {
        let r = String::from_str(s.substring_char(0, k - 1));
        proof {
            assert(r@[0] == p@[0]);
        }
        r
    }
}

/// Append a child name to an absolute path.
pub fn join_path(p: &String, name: &str) -> (r: String)
    requires
        path_wf(p@),
    ensures
        r@ == joined(p@, name@),
        path_wf(r@),
{
    let mut r = p.clone();
    if p.as_str().unicode_len() > 1 {
        r.append("/");
    }
    r.append(name);
    proof {
        reveal_strlit("/");
        assert("/"@ =~= seq!['/']);
        assert(r@ =~= joined(p@, name@));
        assert(r@[0] == p@[0]);
    }
    r
}

} // verus!
