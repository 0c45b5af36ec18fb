//! Slash-separated paths: joining, parents, and the directories that hold
//! configuration files.
use vstd::prelude::*;
use vstd::string::*;

verus! {

/// `dir` joined with `name`: an absolute `name` replaces `dir`; an empty `dir`
/// gives `name`; otherwise one separator stands between them.
pub open spec fn join_spec(dir: Seq<char>, name: Seq<char>) -> Seq<char> {
    if name.len() > 0 && name[0] == '/' {
        name
    } else if dir.len() == 0 {
        name
    } else if dir.last() == '/' {
        dir + name
    } else {
        dir + seq!['/'] + name
    }
}

/// `s` without the separators at its end.
pub open spec fn trim_end_slashes(s: Seq<char>) -> Seq<char>
    decreases s.len(),
{
    if s.len() > 0 && s.last() == '/' {
        trim_end_slashes(s.drop_last())
    } else {
        s
    }
}

/// The index of the last separator in `s`, or -1 when it has none.
pub open spec fn last_slash(s: Seq<char>) -> int
    decreases s.len(),
{
    if s.len() == 0 {
        -1
    } else if s.last() == '/' {
        s.len() - 1
    } else {
        last_slash(s.drop_last())
    }
}

/// The parent of a path: `None` for the empty path and the root; the empty path
/// for a single relative component; the root for a single absolute component;
/// otherwise everything before the last component.
pub open spec fn parent_spec(p: Seq<char>) -> Option<Seq<char>> {
    let q = trim_end_slashes(p);
    if q.len() == 0 {
        None
    } else if last_slash(q) < 0 {
        Some(Seq::empty())
    } else {
        let r = trim_end_slashes(q.subrange(0, last_slash(q)));
        if r.len() == 0 {
            Some(seq!['/'])
        } else {
            Some(r)
        }
    }
}

proof fn lemma_trim_end_slashes(s: Seq<char>)
    ensures
        trim_end_slashes(s).len() <= s.len(),
        trim_end_slashes(s) == s.subrange(0, trim_end_slashes(s).len() as int),
        trim_end_slashes(s).len() == 0 || trim_end_slashes(s).last() != '/',
    decreases s.len(),
{
    if s.len() > 0 && s.last() == '/' {
        lemma_trim_end_slashes(s.drop_last());
        assert(s.drop_last().subrange(0, trim_end_slashes(s).len() as int) =~= s.subrange(
            0,
            trim_end_slashes(s).len() as int,
        ));
    } else {
        assert(s =~= s.subrange(0, s.len() as int));
    }
}

proof fn lemma_last_slash(s: Seq<char>)
    ensures
        -1 <= last_slash(s) < s.len(),
        last_slash(s) >= 0 ==> s[last_slash(s)] == '/',
    decreases s.len(),
{
    if s.len() > 0 && s.last() != '/' {
        lemma_last_slash(s.drop_last());
    }
}

/// The number of characters of `s` that remain once the separators at its end
/// are removed.
fn trimmed_len(s: &str) -> (r: usize)
    ensures
        r == trim_end_slashes(s@).len(),
{
    let mut k: usize = s.unicode_len();
    proof {
        lemma_trim_end_slashes(s@);
    }
    assert(s@.subrange(0, k as int) =~= s@);
    while k > 0 && s.get_char(k - 1) == '/'
        invariant
            k <= s@.len(),
            trim_end_slashes(s@) == trim_end_slashes(s@.subrange(0, k as int)),
        decreases k,
    {
        assert(s@.subrange(0, k as int).drop_last() =~= s@.subrange(0, k - 1));
        k = k - 1;
    }
    assert(s@.subrange(0, k as int).len() == k);
    k
}

/// Index of the last separator among the first `n` characters of `s`.
fn last_slash_before(s: &str, n: usize) -> (r: Option<usize>)
    requires
        n <= s@.len(),
    ensures
        match r {
            None => last_slash(s@.subrange(0, n as int)) == -1,
            Some(i) => last_slash(s@.subrange(0, n as int)) == i,
        },
{
    let mut k: usize = n;
    while k > 0 && s.get_char(k - 1) != '/'
        invariant
            k <= n <= s@.len(),
            last_slash(s@.subrange(0, n as int)) == last_slash(s@.subrange(0, k as int)),
        decreases k,
    {
        assert(s@.subrange(0, k as int).drop_last() =~= s@.subrange(0, k - 1));
        k = k - 1;
    }
    if k == 0 {
        None
    } else {
        Some(k - 1)
    }
}

/// Joins a directory and a name with a single separator.
pub fn join_path(dir: &str, name: &str) -> (r: String)
    ensures
        r@ == join_spec(dir@, name@),
{
    let n = name.unicode_len();
    if n > 0 && name.get_char(0) == '/' {
        return String::from_str(name);
    }
    let d = dir.unicode_len();
    if d == 0 {
        return String::from_str(name);
    }
    let mut r = String::from_str(dir);
    if dir.get_char(d - 1) != '/' {
        r.append("/");
        proof {
            reveal_strlit("/");
        }
    }
    r.append(name);
    r
}

/// The parent directory of a path, if it has one.
pub fn parent_dir(p: &str) -> (r: Option<String>)
    ensures
        r matches Some(s) ==> parent_spec(p@) == Some(s@),
        r is None ==> parent_spec(p@) is None,
{
    let q_len = trimmed_len(p);
    proof {
        lemma_trim_end_slashes(p@);
    }
    let q = p.substring_char(0, q_len);
    assert(q@ == trim_end_slashes(p@));
    if q_len == 0 {
        return None;
    }
    match last_slash_before(q, q_len) {
        None => {
            assert(q@.subrange(0, q_len as int) =~= q@);
            Some(String::new())
        },
        Some(i) => {
            assert(q@.subrange(0, q_len as int) =~= q@);
            proof {
                lemma_last_slash(q@);
            }
            let head = q.substring_char(0, i);
            let r_len = trimmed_len(head);
            if r_len == 0 {
                let mut root = String::new();
                root.append("/");
                proof {
                    reveal_strlit("/");
                }
                assert(root@ =~= seq!['/']);
                Some(root)
            } else {
                proof {
                    lemma_trim_end_slashes(head@);
                }
                let r = head.substring_char(0, r_len);
                Some(String::from_str(r))
            }
        },
    }
}

} // verus!
