//! Sessions: the directory a sandbox runs in, either the current directory or
//! a worktree of the current repository on a named branch.

use vstd::prelude::*;

use crate::config::Config;
use crate::error::SandboxError;
use crate::text::{chars_of, join_path, last_slash, path_join, push_str, slice_chars, string_of};

verus! {

/// A character with the Unicode `White_Space` property, the whitespace that
/// `str::trim` removes.
pub open spec fn is_white_space(c: char) -> bool {
    let u = c as u32;
    (0x9 <= u && u <= 0xd) || u == 0x20 || u == 0x85 || u == 0xa0 || u == 0x1680 || (0x2000 <= u
        && u <= 0x200a) || u == 0x2028 || u == 0x2029 || u == 0x202f || u == 0x205f || u == 0x3000
}

/// The text without leading whitespace.
pub open spec fn trim_start_of(s: Seq<char>) -> Seq<char>
    decreases s.len(),
{
    if s.len() > 0 && is_white_space(s[0]) {
        trim_start_of(s.drop_first())
    } else {
        s
    }
}

/// The text without trailing whitespace.
pub open spec fn trim_end_of(s: Seq<char>) -> Seq<char>
    decreases s.len(),
{
    if s.len() > 0 && is_white_space(s.last()) {
        trim_end_of(s.drop_last())
    } else {
        s
    }
}

/// The text without leading and trailing whitespace, as `str::trim` gives it.
pub open spec fn trim_of(s: Seq<char>) -> Seq<char> {
    trim_end_of(trim_start_of(s))
}

fn white_space(c: char) -> (r: bool)
    ensures
        r == is_white_space(c),
{
    let u = c as u32;
    (0x9 <= u && u <= 0xd) || u == 0x20 || u == 0x85 || u == 0xa0 || u == 0x1680 || (0x2000 <= u
        && u <= 0x200a) || u == 0x2028 || u == 0x2029 || u == 0x202f || u == 0x205f || u == 0x3000
}

/// The text without leading and trailing whitespace.
pub fn trim(s: &str) -> (r: String)
    ensures
        r@ == trim_of(s@),
{
    let cs = chars_of(s);
    let mut start: usize = 0;
    assert(cs@.subrange(0, cs@.len() as int) == cs@);
    while start < cs.len() && white_space(cs[start])
        invariant
            start <= cs@.len(),
            cs@ == s@,
            trim_start_of(s@) == trim_start_of(cs@.subrange(start as int, cs@.len() as int)),
        decreases cs.len() - start,
    {
        assert(cs@.subrange(start as int, cs@.len() as int).drop_first() == cs@.subrange(
            start + 1,
            cs@.len() as int,
        ));
        start = start + 1;
    }
    let mut end: usize = cs.len();
    let ghost head = cs@.subrange(start as int, cs@.len() as int);
    assert(trim_start_of(head) == head);
    assert(head.subrange(0, head.len() as int) == head);
    while end > start && white_space(cs[end - 1])
        invariant
            start <= end <= cs@.len(),
            head == cs@.subrange(start as int, cs@.len() as int),
            trim_end_of(head) == trim_end_of(cs@.subrange(start as int, end as int)),
        decreases end,
    {
        assert(cs@.subrange(start as int, end as int).drop_last() == cs@.subrange(
            start as int,
            end - 1,
        ));
        end = end - 1;
    }
    string_of(&slice_chars(&cs, start, end))
}

/// The path without trailing separators and without a final `.` component,
/// which a path's components leave out.
pub open spec fn strip_tail(s: Seq<char>) -> Seq<char>
    decreases s.len(),
{
    if s.len() > 0 && s.last() == '/' {
        strip_tail(s.drop_last())
    } else if s.len() >= 2 && s.last() == '.' && s[s.len() - 2] == '/' {
        strip_tail(s.drop_last())
    } else {
        s
    }
}

/// The last component of a path, where it names something, as
/// `Path::file_name` gives it: trailing separators and a final `.` component
/// are passed over; the root, an empty path, `.` and `..` name nothing.
pub open spec fn file_name_of(p: Seq<char>) -> Option<Seq<char>> {
    let t = strip_tail(p);
    let seg = t.subrange(last_slash(t) + 1, t.len() as int);
    if seg.len() == 0 || seg == "."@ || seg == ".."@ {
        None
    } else {
        Some(seg)
    }
}

proof fn lemma_last_slash_bounds(s: Seq<char>)
    ensures
        -1 <= last_slash(s) < s.len(),
        last_slash(s) >= 0 ==> s[last_slash(s)] == '/',
        forall|j: int| last_slash(s) < j < s.len() ==> s[j] != '/',
    decreases s.len(),
{
    if s.len() > 0 && s.last() != '/' {
        let t = s.drop_last();
        lemma_last_slash_bounds(t);
        assert forall|j: int| last_slash(s) < j < s.len() implies s[j] != '/' by {
            if j < s.len() - 1 {
                assert(s[j] == t[j]);
            }
        }
    }
}

/// The last component of `p`, where it names something.
pub fn file_name(p: &str) -> (r: Option<String>)
    ensures
        match file_name_of(p@) {
            None => r is None,
            Some(n) => r matches Some(s) && s@ == n,
        },
{
    let cs = chars_of(p);
    let mut end: usize = cs.len();
    assert(cs@.subrange(0, cs@.len() as int) == cs@);
    while end > 0 && (cs[end - 1] == '/' || (end >= 2 && cs[end - 1] == '.' && cs[end - 2]
        == '/'))
        invariant
            end <= cs@.len(),
            cs@ == p@,
            strip_tail(p@) == strip_tail(cs@.subrange(0, end as int)),
        decreases end,
    {
        assert(cs@.subrange(0, end as int).drop_last() == cs@.subrange(0, end - 1));
        end = end - 1;
    }
    let t = slice_chars(&cs, 0, end);
    assert(strip_tail(t@) == t@);
    let mut start: usize = end;
    while start > 0 && t[start - 1] != '/'
        invariant
            start <= t@.len(),
            forall|j: int| start <= j < t@.len() ==> t@[j] != '/',
        decreases start,
    {
        start = start - 1;
    }
    proof {
        lemma_last_slash_bounds(t@);
        if start > 0 {
            assert(t@[start - 1] == '/');
            assert(last_slash(t@) >= start - 1);
        } else {
            assert(last_slash(t@) < 0);
        }
        assert(last_slash(t@) == start - 1);
    }
    let seg = slice_chars(&t, start, end);
    proof {
        reveal_strlit(".");
        reveal_strlit("..");
    }
    if seg.len() == 0 || (seg.len() == 1 && seg[0] == '.') || (seg.len() == 2 && seg[0] == '.'
        && seg[1] == '.') {
        assert(seg.len() == 1 ==> seg@ =~= "."@);
        assert(seg.len() == 2 ==> seg@ =~= ".."@);
        return None;
    }
    assert(seg@.len() == 1 ==> seg@[0] != "."@[0]);
    assert(seg@.len() == 2 ==> seg@[0] != ".."@[0] || seg@[1] != ".."@[1]);
    Some(string_of(&seg))
}

/// A sandbox session.
#[derive(Debug, Clone)]
pub struct Session {
    name: String,
    project_dir: String,
    git_branch: Option<String>,
}

/// What a [`Session`] holds.
pub struct SessionView {
    pub name: Seq<char>,
    pub project_dir: Seq<char>,
    pub git_branch: Option<Seq<char>>,
}

/// The characters of an optional string.
pub open spec fn opt_view(s: Option<String>) -> Option<Seq<char>> {
    match s {
        Some(x) => Some(x@),
        None => None,
    }
}

impl View for Session {
    type V = SessionView;

    closed spec fn view(&self) -> SessionView {
        SessionView {
            name: self.name@,
            project_dir: self.project_dir@,
            git_branch: opt_view(self.git_branch),
        }
    }
}

/// The name of an in-place session: the directory's own name, or `default`.
pub open spec fn in_place_name(project_dir: Seq<char>) -> Seq<char> {
    match file_name_of(project_dir) {
        Some(n) => n,
        None => "default"@,
    }
}

/// The branch that `git branch --show-current` printed, where it printed one.
pub open spec fn branch_of_output(stdout: Seq<char>) -> Option<Seq<char>> {
    if trim_of(stdout).len() == 0 {
        None
    } else {
        Some(trim_of(stdout))
    }
}

/// The current branch from what `git branch --show-current` printed.
pub fn branch_from_git_output(stdout: &str) -> (r: Option<String>)
    ensures
        opt_view(r) == branch_of_output(stdout@),
{
    let t = trim(stdout);
    if t.as_str().unicode_len() == 0 {
        None
    } else {
        Some(t)
    }
}

/// The repository's top level from what `git rev-parse --show-toplevel` printed.
pub fn toplevel_from_git_output(stdout: &str) -> (r: String)
    ensures
        r@ == trim_of(stdout@),
{
    trim(stdout)
}

impl Session {
    /// A session in `project_dir` itself, on `git_branch` where it is a checkout.
    pub fn new_in_place(project_dir: &str, git_branch: Option<String>) -> (r: Result<
        Session,
        SandboxError,
    >)
        ensures
            r matches Ok(s) && s@ == (SessionView {
                name: in_place_name(project_dir@),
                project_dir: project_dir@,
                git_branch: opt_view(git_branch),
            }),
    {
        let name = match file_name(project_dir) {
            Some(n) => n,
            None => string_of(&chars_of("default")),
        };
        Ok(Session { name, project_dir: string_of(&chars_of(project_dir)), git_branch })
    }

    /// A session with the given parts.
    pub fn from_parts(name: String, project_dir: String, git_branch: Option<String>) -> (r: Session)
        ensures
            r@ == (SessionView {
                name: name@,
                project_dir: project_dir@,
                git_branch: opt_view(git_branch),
            }),
    {
        Session { name, project_dir, git_branch }
    }

    /// A copy of the session.
    pub fn copy(&self) -> (r: Session)
        ensures
            r@ == self@,
    {
        Session {
            name: string_of(&chars_of(self.name.as_str())),
            project_dir: string_of(&chars_of(self.project_dir.as_str())),
            git_branch: match &self.git_branch {
                Some(b) => Some(string_of(&chars_of(b.as_str()))),
                None => None,
            },
        }
    }

    /// The session's name.
    pub fn name(&self) -> (r: &str)
        ensures
            r@ == self@.name,
    {
        self.name.as_str()
    }

    /// The directory the session runs in.
    pub fn project_dir(&self) -> (r: &str)
        ensures
            r@ == self@.project_dir,
    {
        self.project_dir.as_str()
    }

    /// The session's branch, where known.
    pub fn git_branch(&self) -> (r: Option<&str>)
        ensures
            match r {
                Some(b) => self@.git_branch == Some(b@),
                None => self@.git_branch is None,
            },
    {
        match &self.git_branch {
            Some(b) => Some(b.as_str()),
            None => None,
        }
    }
}

/// The name of a worktree session: the repository's name, a dash, the branch.
pub open spec fn worktree_session_name(git_root: Seq<char>, branch: Seq<char>) -> Seq<char> {
    let project = match file_name_of(git_root) {
        Some(n) => n,
        None => "project"@,
    };
    project + "-"@ + branch
}

/// Creates sessions under the sessions directory.
#[derive(Debug)]
pub struct SessionManager {
    config: Config,
}

impl SessionManager {
    /// A manager for the directories of `config`.
    pub fn new(config: &Config) -> (r: Result<SessionManager, SandboxError>)
        ensures
            r matches Ok(m) && m.sessions_root() == config.sessions_dir@,
    {
        Ok(
            SessionManager {
                config: Config {
                    sessions_dir: string_of(&chars_of(config.sessions_dir.as_str())),
                    cache_dir: string_of(&chars_of(config.cache_dir.as_str())),
                },
            },
        )
    }

    /// The directory that holds the worktree sessions.
    pub closed spec fn sessions_root(&self) -> Seq<char> {
        self.config.sessions_dir@
    }

    /// The directory that holds the worktree sessions.
    pub fn sessions_dir(&self) -> (r: &str)
        ensures
            r@ == self.sessions_root(),
    {
        self.config.sessions_dir.as_str()
    }

    /// The session for branch `name`. Inside a repository (`git_root` is its
    /// top level) it is the worktree `<repository>-<name>` under the sessions
    /// directory, on branch `name`; elsewhere the current directory itself, on
    /// `current_branch`.
    pub fn create_or_get_session(
        &self,
        name: &str,
        current_dir: &str,
        git_root: Option<String>,
        current_branch: Option<String>,
    ) -> (r: Result<Session, SandboxError>)
        ensures
            r is Ok,
            r matches Ok(s) ==> match git_root {
                Some(root) => s@ == (SessionView {
                    name: worktree_session_name(root@, name@),
                    project_dir: path_join(self.sessions_root(), worktree_session_name(root@, name@)),
                    git_branch: Some(name@),
                }),
                None => s@ == (SessionView {
                    name: in_place_name(current_dir@),
                    project_dir: current_dir@,
                    git_branch: opt_view(current_branch),
                }),
            },
    {
        match git_root {
            Some(root) => Ok(self.create_git_session(name, root.as_str())),
            None => Session::new_in_place(current_dir, current_branch),
        }
    }

    /// The worktree session for branch `name` of the repository at `git_root`.
    pub fn create_git_session(&self, name: &str, git_root: &str) -> (r: Session)
        ensures
            r@ == (SessionView {
                name: worktree_session_name(git_root@, name@),
                project_dir: path_join(self.sessions_root(), worktree_session_name(git_root@, name@)),
                git_branch: Some(name@),
            }),
    {
        let mut full = match file_name(git_root) {
            Some(n) => chars_of(n.as_str()),
            None => chars_of("project"),
        };
        push_str(&mut full, "-");
        push_str(&mut full, name);
        let session_name = string_of(&full);
        let dir = join_path(self.config.sessions_dir.as_str(), session_name.as_str());
        Session { name: session_name, project_dir: dir, git_branch: Some(string_of(&chars_of(name))) }
    }

    /// The session of a directory found under the sessions directory.
    pub fn listed_session(&self, path: &str, git_branch: Option<String>) -> (r: Session)
        ensures
            r@ == (SessionView {
                name: match file_name_of(path@) {
                    Some(n) => n,
                    None => "unknown"@,
                },
                project_dir: path@,
                git_branch: opt_view(git_branch),
            }),
    {
        let name = match file_name(path) {
            Some(n) => n,
            None => string_of(&chars_of("unknown")),
        };
        Session { name, project_dir: string_of(&chars_of(path)), git_branch }
    }
}

/// The arguments of `git` that add the worktree for `branch` at
/// `session_dir`, creating the branch when `new_branch` holds.
pub open spec fn worktree_args(session_dir: Seq<char>, branch: Seq<char>, new_branch: bool) -> Seq<
    Seq<char>,
> {
    if new_branch {
        seq!["worktree"@, "add"@, session_dir, "-b"@, branch]
    } else {
        seq!["worktree"@, "add"@, session_dir, branch]
    }
}

/// The `git` arguments that add a worktree; the first attempt creates the
/// branch, the retry takes the existing one.
pub fn worktree_add_args(session_dir: &str, branch: &str, new_branch: bool) -> (r: Vec<String>)
    ensures
        r@.map_values(|s: String| s@) == worktree_args(session_dir@, branch@, new_branch),
{
    let mut out: Vec<String> = Vec::new();
    out.push(string_of(&chars_of("worktree")));
    out.push(string_of(&chars_of("add")));
    out.push(string_of(&chars_of(session_dir)));
    if new_branch {
        out.push(string_of(&chars_of("-b")));
    }
    out.push(string_of(&chars_of(branch)));
    assert(out@.map_values(|s: String| s@) =~= worktree_args(session_dir@, branch@, new_branch));
    out
}

/// What follows one attempt to add a worktree.
#[derive(Debug)]
pub enum WorktreeStep {
    /// The worktree is there.
    Done,
    /// Creating the branch failed: add the worktree on the existing branch.
    TryExisting,
    /// Both attempts failed.
    Failed(SandboxError),
}

/// The step after an attempt that created the branch (`new_branch`) or took
/// the existing one, and that succeeded or not.
pub fn after_worktree_attempt(new_branch: bool, succeeded: bool, branch: &str) -> (r: WorktreeStep)
    ensures
        succeeded ==> r is Done,
        !succeeded && new_branch ==> r is TryExisting,
        !succeeded && !new_branch ==> (r matches WorktreeStep::Failed(SandboxError::GitError(msg))
            && msg@ == "Failed to create worktree for branch: "@ + branch@),
{
    if succeeded {
        WorktreeStep::Done
    } else if new_branch {
        WorktreeStep::TryExisting
    } else {
        let mut msg = chars_of("Failed to create worktree for branch: ");
        push_str(&mut msg, branch);
        WorktreeStep::Failed(SandboxError::GitError(string_of(&msg)))
    }
}

} // verus!
