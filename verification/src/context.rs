//! What a prompt shows of the session it runs in: the user, the host, the
//! working directory and whether the user is privileged. The caller reads
//! these from the system and hands them over as plain values; the rules for
//! what stands in the prompt are here.

use vstd::prelude::*;
use vstd::string::StringExecFns;

verus! {

/// The session as the caller found it. A value that could not be read is
/// `None`.
#[derive(Debug, Clone, PartialEq, Eq)]
pub struct PromptContext {
    /// The name of the current user.
    pub username: Option<String>,
    /// The name of the host, with or without its domain.
    pub hostname: Option<String>,
    /// The working directory.
    pub current_dir: Option<String>,
    /// The home directory of the user.
    pub home_dir: Option<String>,
    /// Whether the user is the superuser.
    pub privileged: bool,
}

/// The characters of a text that may be missing.
pub open spec fn viewed(text: Option<&str>) -> Option<Seq<char>> {
    match text {
        Some(s) => Some(s@),
        None => None,
    }
}

/// The part of a host name before its first dot.
pub open spec fn short_name(host: Seq<char>) -> Seq<char>
    decreases host.len(),
{
    if host.len() == 0 || host[0] == '.' {
        Seq::empty()
    } else {
        seq![host[0]] + short_name(host.drop_first())
    }
}

/// The text without the slashes at its end.
pub open spec fn without_trailing_slashes(path: Seq<char>) -> Seq<char>
    decreases path.len(),
{
    if path.len() > 0 && path.last() == '/' {
        without_trailing_slashes(path.drop_last())
    } else {
        path
    }
}

/// Whether `dir` is `root` itself or lies below it: `root` is a prefix of
/// `dir` that ends where `dir` ends or where a slash follows.
pub open spec fn lies_under(dir: Seq<char>, root: Seq<char>) -> bool {
    &&& root.len() > 0
    &&& root.len() <= dir.len()
    &&& dir.take(root.len() as int) == root
    &&& (dir.len() == root.len() || dir[root.len() as int] == '/')
}

/// The directory with the home directory at its start written as `~`. The
/// home directory counts without the slashes at its end; a directory that
/// does not lie under it, or a missing or empty home, leaves the directory as
/// it is.
pub open spec fn abbreviated(dir: Seq<char>, home: Option<Seq<char>>) -> Seq<char> {
    match home {
        Some(h) => {
            let root = without_trailing_slashes(h);
            if lies_under(dir, root) {
                seq!['~'] + dir.skip(root.len() as int)
            } else {
                dir
            }
        },
        None => dir,
    }
}

/// The last component of a path: what follows its last slash.
pub open spec fn last_component(path: Seq<char>) -> Seq<char>
    decreases path.len(),
{
    if path.len() == 0 || path.last() == '/' {
        Seq::empty()
    } else {
        last_component(path.drop_last()).push(path.last())
    }
}

/// A path without a slash from `k` on, which starts there or has a slash
/// just before, has what follows `k` as its last component.
pub proof fn lemma_last_component_is_suffix(path: Seq<char>, k: int)
    requires
        0 <= k <= path.len(),
        forall|i: int| k <= i < path.len() ==> path[i] != '/',
        k == 0 || path[k - 1] == '/',
    ensures
        last_component(path) == path.skip(k),
    decreases path.len(),
{
    if path.len() == k {
        assert(path.skip(k) =~= Seq::<char>::empty());
    } else {
        let front = path.drop_last();
        assert(path[path.len() - 1] != '/');
        assert forall|i: int| k <= i < front.len() implies front[i] != '/' by {
            assert(front[i] == path[i]);
        }
        lemma_last_component_is_suffix(front, k);
        assert(front.skip(k).push(path.last()) =~= path.skip(k));
    }
}

/// A host name without a dot in its first `n` characters, which ends there or
/// has a dot there, is short for its first `n` characters.
pub proof fn lemma_short_name_is_prefix(host: Seq<char>, n: int)
    requires
        0 <= n <= host.len(),
        forall|i: int| 0 <= i < n ==> host[i] != '.',
        n == host.len() || host[n] == '.',
    ensures
        short_name(host) == host.take(n),
    decreases n,
{
    if n == 0 {
        assert(host.take(0) =~= Seq::<char>::empty());
    } else {
        let rest = host.drop_first();
        assert forall|i: int| 0 <= i < n - 1 implies rest[i] != '.' by {
            assert(rest[i] == host[i + 1]);
        }
        lemma_short_name_is_prefix(rest, n - 1);
        assert(host[0] != '.');
        assert(seq![host[0]] + rest.take(n - 1) =~= host.take(n));
    }
}

/// The characters of a string, in a vector.
pub(crate) fn chars_of(s: &str) -> (v: Vec<char>)
    ensures
        v@ == s@,
{
    let mut v: Vec<char> = Vec::new();
    for c in it: s.chars()
        invariant
            it.seq() == s@,
            v@ == s@.take(it.index()),
    {
        v.push(c);
        proof {
            assert(s@.take(it.index() + 1) =~= s@.take(it.index()).push(c));
        }
    }
    proof {
        assert(s@.take(s@.len() as int) == s@);
    }
    v
}

/// Appends the characters of `v` from `from` to `to` to `out`.
pub(crate) fn push_range(out: &mut String, v: &Vec<char>, from: usize, to: usize)
    requires
        from <= to <= v.len(),
    ensures
        final(out)@ == old(out)@ + v@.subrange(from as int, to as int),
{
    let ghost before = out@;
    let mut i: usize = from;
    while i < to
        invariant
            from <= i <= to <= v.len(),
            out@ == before + v@.subrange(from as int, i as int),
        decreases to - i,
    {
        out.push(v[i]);
        proof {
            assert(v@.subrange(from as int, i + 1) =~= v@.subrange(from as int, i as int).push(
                v@[i as int],
            ));
            assert(out@ =~= before + v@.subrange(from as int, i + 1));
        }
        i += 1;
    }
}

/// The part of a host name before its first dot.
pub fn short_hostname(host: &str) -> (r: String)
    ensures
        r@ == short_name(host@),
{
    let v = chars_of(host);
    let mut n: usize = 0;
    while n < v.len() && v[n] != '.'
        invariant
            n <= v.len(),
            forall|i: int| 0 <= i < n ==> v@[i] != '.',
        decreases v.len() - n,
    {
        n += 1;
    }
    let mut out = String::new();
    push_range(&mut out, &v, 0, n);
    proof {
        lemma_short_name_is_prefix(host@, n as int);
        assert(out@ =~= v@.subrange(0, n as int));
        assert(v@.subrange(0, n as int) =~= host@.take(n as int));
    }
    out
}

/// The last component of a path: what follows its last slash.
pub fn file_name(path: &str) -> (r: String)
    ensures
        r@ == last_component(path@),
{
    let v = chars_of(path);
    let mut k: usize = v.len();
    while k > 0 && v[k - 1] != '/'
        invariant
            k <= v.len(),
            forall|i: int| k <= i < v.len() ==> v@[i] != '/',
        decreases k,
    {
        k -= 1;
    }
    let mut out = String::new();
    push_range(&mut out, &v, k, v.len());
    proof {
        lemma_last_component_is_suffix(path@, k as int);
        assert(out@ =~= v@.subrange(k as int, v.len() as int));
        assert(v@.subrange(k as int, v.len() as int) =~= path@.skip(k as int));
    }
    out
}

/// The directory with the home directory at its start written as `~`.
pub fn abbreviate_home(dir: &str, home: Option<&str>) -> (r: String)
    ensures
        r@ == abbreviated(dir@, viewed(home)),
{
    match home {
        None => String::from_str(dir),
        Some(h) => {
            let d = chars_of(dir);
            let hv = chars_of(h);
            let mut n: usize = hv.len();
            proof {
                assert(hv@.take(hv@.len() as int) == hv@);
            }
            while n > 0 && hv[n - 1] == '/'
                invariant
                    n <= hv.len(),
                    without_trailing_slashes(hv@) == without_trailing_slashes(hv@.take(n as int)),
                decreases n,
            {
                proof {
                    assert(hv@.take(n as int).drop_last() == hv@.take(n - 1));
                }
                n -= 1;
            }
            let ghost root = hv@.take(n as int);
            assert(without_trailing_slashes(h@) == root);
            if n == 0 || n > d.len() {
                return String::from_str(dir);
            }
            let mut i: usize = 0;
            while i < n
                invariant
                    i <= n <= d.len(),
                    n <= hv.len(),
                    d@ == dir@,
                    home == Some(h),
                    root == hv@.take(n as int),
                    without_trailing_slashes(h@) == root,
                    d@.take(i as int) == hv@.take(i as int),
                decreases n - i,
            {
                if d[i] != hv[i] {
                    proof {
                        assert(d@.take(n as int)[i as int] == d@[i as int]);
                        assert(root[i as int] == hv@[i as int]);
                    }
                    return String::from_str(dir);
                }
                proof {
                    assert(d@.take(i + 1) =~= d@.take(i as int).push(d@[i as int]));
                    assert(hv@.take(i + 1) =~= hv@.take(i as int).push(hv@[i as int]));
                }
                i += 1;
            }
            if d.len() > n && d[n] != '/' {
                return String::from_str(dir);
            }
            let mut out = String::from_str("~");
            push_range(&mut out, &d, n, d.len());
            proof {
                reveal_strlit("~");
                assert("~"@ =~= seq!['~']);
                assert(d@.subrange(n as int, d.len() as int) =~= d@.skip(n as int));
            }
            out
        },
    }
}

impl PromptContext {
    /// The user's name as the prompt shows it: `unknown` where it is missing.
    pub open spec fn user_text(self) -> Seq<char> {
        match self.username {
            Some(name) => name@,
            None => "unknown"@,
        }
    }

    /// The host as the prompt shows it: the name up to its first dot, and
    /// `localhost` where it is missing.
    pub open spec fn host_text(self) -> Seq<char> {
        match self.hostname {
            Some(name) => short_name(name@),
            None => "localhost"@,
        }
    }

    /// The working directory as the prompt shows it in full: `/` where it
    /// is missing.
    pub open spec fn dir_text(self) -> Seq<char> {
        match self.current_dir {
            Some(dir) => dir@,
            None => "/"@,
        }
    }

    /// The home directory, if it is known.
    pub open spec fn home_text(self) -> Option<Seq<char>> {
        match self.home_dir {
            Some(home) => Some(home@),
            None => None,
        }
    }

    /// The working directory as the prompt shows it in short: with the home
    /// directory written as `~`.
    pub open spec fn short_dir_text(self) -> Seq<char> {
        abbreviated(self.dir_text(), self.home_text())
    }

    /// The user's name as the prompt shows it.
    pub fn user(&self) -> (r: String)
        ensures
            r@ == self.user_text(),
    {
        match &self.username {
            Some(name) => name.clone(),
            None => String::from_str("unknown"),
        }
    }

    /// The host as the prompt shows it.
    pub fn host(&self) -> (r: String)
        ensures
            r@ == self.host_text(),
    {
        match &self.hostname {
            Some(name) => short_hostname(name.as_str()),
            None => String::from_str("localhost"),
        }
    }

    /// The working directory as the prompt shows it in full.
    pub fn dir(&self) -> (r: String)
        ensures
            r@ == self.dir_text(),
    {
        match &self.current_dir {
            Some(dir) => dir.clone(),
            None => String::from_str("/"),
        }
    }

    /// The working directory as the prompt shows it in short.
    pub fn short_dir(&self) -> (r: String)
        ensures
            r@ == self.short_dir_text(),
    {
        let dir = self.dir();
        match &self.home_dir {
            Some(home) => abbreviate_home(dir.as_str(), Some(home.as_str())),
            None => abbreviate_home(dir.as_str(), None),
        }
    }
}

} // verus!
