//! The resolved main branch and remote, and the priority by which they are
//! chosen among their sources.
use vstd::prelude::*;

verus! {

/// The main branch and the remote that one run synchronises against.
pub struct ResolvedConfig {
    pub main: String,
    pub remote: String,
}

/// The first name present among `first` and `second`, else `fallback`.
pub open spec fn first_present(
    first: Option<String>,
    second: Option<String>,
    fallback: Seq<char>,
) -> Seq<char> {
    match first {
        Some(a) => a@,
        None => match second {
            Some(b) => b@,
            None => fallback,
        },
    }
}

/// The first name present among three sources, else `fallback`.
pub open spec fn first_present3(
    first: Option<String>,
    second: Option<String>,
    third: Option<String>,
    fallback: Seq<char>,
) -> Seq<char> {
    match first {
        Some(a) => a@,
        None => first_present(second, third, fallback),
    }
}

/// Index at which the path segment ending at `end` starts: just after the
/// last `/` before `end`, or 0 when there is none.
pub open spec fn segment_start(s: Seq<char>, end: int) -> int
    decreases end,
{
    if end <= 0 {
        0
    } else if s[end - 1] == '/' {
        end
    } else {
        segment_start(s, end - 1)
    }
}

/// The text after the last `/` of `s` (all of `s` when it holds none).
pub open spec fn last_segment(s: Seq<char>) -> Seq<char> {
    s.subrange(segment_start(s, s.len() as int), s.len() as int)
}

proof fn lemma_segment_start_bounds(s: Seq<char>, end: int)
    requires
        0 <= end <= s.len(),
    ensures
        0 <= segment_start(s, end) <= end,
    decreases end,
{
    if end > 0 && s[end - 1] != '/' {
        lemma_segment_start_bounds(s, end - 1);
    }
}

/// The branch named by a remote's symbolic `HEAD` target, such as `main`
/// for `refs/remotes/origin/main`: the last segment of the target.
pub fn branch_from_remote_head(target: &str) -> (r: String)
    ensures
        r@ == last_segment(target@),
{
    let n = target.unicode_len();
    let mut i: usize = n;
    while i > 0 && target.get_char(i - 1) != '/'
        invariant
            n == target@.len(),
            0 <= i <= n,
            segment_start(target@, n as int) == segment_start(target@, i as int),
        decreases i,
    {
        i = i - 1;
    }
    proof {
        lemma_segment_start_bounds(target@, n as int);
    }
    String::from_str(target.substring_char(i, n))
}

impl ResolvedConfig {
    /// The remote to use: the one the configuration file names, else the
    /// repository's default remote, else `origin`.
    pub fn resolve_remote(file_remote: Option<String>, repo_remote: Option<String>) -> (r: String)
        ensures
            r@ == first_present(file_remote, repo_remote, "origin"@),
    {
        match file_remote {
            Some(remote) => remote,
            None => match repo_remote {
                Some(remote) => remote,
                None => String::from_str("origin"),
            },
        }
    }

    /// The main branch to use: the command-line override, else the one the
    /// configuration file names, else the branch the remote's `HEAD` points
    /// at, else `main`.
    pub fn resolve_main(
        override_main: Option<String>,
        file_main: Option<String>,
        remote_head: Option<String>,
    ) -> (r: String)
        ensures
            r@ == first_present3(override_main, file_main, remote_head, "main"@),
    {
        match override_main {
            Some(main) => main,
            None => match file_main {
                Some(main) => main,
                None => match remote_head {
                    Some(main) => main,
                    None => String::from_str("main"),
                },
            },
        }
    }

    /// Both names, each by its order of priority.
    pub fn resolve(
        override_main: Option<String>,
        file_main: Option<String>,
        file_remote: Option<String>,
        repo_remote: Option<String>,
        remote_head: Option<String>,
    ) -> (r: ResolvedConfig)
        ensures
            r.remote@ == first_present(file_remote, repo_remote, "origin"@),
            r.main@ == first_present3(override_main, file_main, remote_head, "main"@),
    {
        let remote = ResolvedConfig::resolve_remote(file_remote, repo_remote);
        let main = ResolvedConfig::resolve_main(override_main, file_main, remote_head);
        ResolvedConfig { main, remote }
    }
}

} // verus!
