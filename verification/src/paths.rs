use vstd::prelude::*;
use vstd::string::{StrSliceExecFns, StringExecFns};
use crate::items::{Copyable, MergeItem};

verus! {

#[derive(Clone, Copy, Debug, PartialEq, Eq, Structural)]
pub enum InputKind {
    EnvVar,
    EnvVarGlob,
    ProjectFile,
    ProjectGlob,
    TokenFunc,
    TokenVar,
    WorkspaceFile,
    WorkspaceGlob,
}

/// A source that a task reads: a file or glob, relative to the project or to
/// the workspace, an environment variable, or a token.
#[derive(Clone, Debug)]
pub enum InputPath {
    EnvVar(String),
    EnvVarGlob(String),
    ProjectFile(String),
    ProjectGlob(String),
    TokenFunc(String),
    TokenVar(String),
    WorkspaceFile(String),
    WorkspaceGlob(String),
}

impl View for InputPath {
    type V = (InputKind, Seq<char>);

    open spec fn view(&self) -> (InputKind, Seq<char>) {
        match self {
            InputPath::EnvVar(s) => (InputKind::EnvVar, s@),
            InputPath::EnvVarGlob(s) => (InputKind::EnvVarGlob, s@),
            InputPath::ProjectFile(s) => (InputKind::ProjectFile, s@),
            InputPath::ProjectGlob(s) => (InputKind::ProjectGlob, s@),
            InputPath::TokenFunc(s) => (InputKind::TokenFunc, s@),
            InputPath::TokenVar(s) => (InputKind::TokenVar, s@),
            InputPath::WorkspaceFile(s) => (InputKind::WorkspaceFile, s@),
            InputPath::WorkspaceGlob(s) => (InputKind::WorkspaceGlob, s@),
        }
    }
}

impl InputPath {
    /// The kind of the input and its text.
    pub fn parts(&self) -> (r: (InputKind, &String))
        ensures
            (r.0, r.1@) == self@,
    {
        match self {
            InputPath::EnvVar(s) => (InputKind::EnvVar, s),
            InputPath::EnvVarGlob(s) => (InputKind::EnvVarGlob, s),
            InputPath::ProjectFile(s) => (InputKind::ProjectFile, s),
            InputPath::ProjectGlob(s) => (InputKind::ProjectGlob, s),
            InputPath::TokenFunc(s) => (InputKind::TokenFunc, s),
            InputPath::TokenVar(s) => (InputKind::TokenVar, s),
            InputPath::WorkspaceFile(s) => (InputKind::WorkspaceFile, s),
            InputPath::WorkspaceGlob(s) => (InputKind::WorkspaceGlob, s),
        }
    }
}

impl Copyable for InputPath {
    fn duplicate(&self) -> (r: Self) {
        match self {
            InputPath::EnvVar(s) => InputPath::EnvVar(s.clone()),
            InputPath::EnvVarGlob(s) => InputPath::EnvVarGlob(s.clone()),
            InputPath::ProjectFile(s) => InputPath::ProjectFile(s.clone()),
            InputPath::ProjectGlob(s) => InputPath::ProjectGlob(s.clone()),
            InputPath::TokenFunc(s) => InputPath::TokenFunc(s.clone()),
            InputPath::TokenVar(s) => InputPath::TokenVar(s.clone()),
            InputPath::WorkspaceFile(s) => InputPath::WorkspaceFile(s.clone()),
            InputPath::WorkspaceGlob(s) => InputPath::WorkspaceGlob(s.clone()),
        }
    }
}

impl MergeItem for InputPath {
    fn same_as(&self, other: &Self) -> (r: bool) {
        let (ka, sa) = self.parts();
        let (kb, sb) = other.parts();
        ka == kb && *sa == *sb
    }
}

#[derive(Clone, Copy, Debug, PartialEq, Eq, Structural)]
pub enum OutputKind {
    ProjectFile,
    ProjectGlob,
    TokenFunc,
    TokenVar,
    WorkspaceFile,
    WorkspaceGlob,
}

/// A file or glob that a task writes, relative to the project or to the
/// workspace, or a token.
#[derive(Clone, Debug)]
pub enum OutputPath {
    ProjectFile(String),
    ProjectGlob(String),
    TokenFunc(String),
    TokenVar(String),
    WorkspaceFile(String),
    WorkspaceGlob(String),
}

impl View for OutputPath {
    type V = (OutputKind, Seq<char>);

    open spec fn view(&self) -> (OutputKind, Seq<char>) {
        match self {
            OutputPath::ProjectFile(s) => (OutputKind::ProjectFile, s@),
            OutputPath::ProjectGlob(s) => (OutputKind::ProjectGlob, s@),
            OutputPath::TokenFunc(s) => (OutputKind::TokenFunc, s@),
            OutputPath::TokenVar(s) => (OutputKind::TokenVar, s@),
            OutputPath::WorkspaceFile(s) => (OutputKind::WorkspaceFile, s@),
            OutputPath::WorkspaceGlob(s) => (OutputKind::WorkspaceGlob, s@),
        }
    }
}

impl OutputPath {
    /// The kind of the output and its text.
    pub fn parts(&self) -> (r: (OutputKind, &String))
        ensures
            (r.0, r.1@) == self@,
    {
        match self {
            OutputPath::ProjectFile(s) => (OutputKind::ProjectFile, s),
            OutputPath::ProjectGlob(s) => (OutputKind::ProjectGlob, s),
            OutputPath::TokenFunc(s) => (OutputKind::TokenFunc, s),
            OutputPath::TokenVar(s) => (OutputKind::TokenVar, s),
            OutputPath::WorkspaceFile(s) => (OutputKind::WorkspaceFile, s),
            OutputPath::WorkspaceGlob(s) => (OutputKind::WorkspaceGlob, s),
        }
    }
}

impl Copyable for OutputPath {
    fn duplicate(&self) -> (r: Self) {
        match self {
            OutputPath::ProjectFile(s) => OutputPath::ProjectFile(s.clone()),
            OutputPath::ProjectGlob(s) => OutputPath::ProjectGlob(s.clone()),
            OutputPath::TokenFunc(s) => OutputPath::TokenFunc(s.clone()),
            OutputPath::TokenVar(s) => OutputPath::TokenVar(s.clone()),
            OutputPath::WorkspaceFile(s) => OutputPath::WorkspaceFile(s.clone()),
            OutputPath::WorkspaceGlob(s) => OutputPath::WorkspaceGlob(s.clone()),
        }
    }
}

impl MergeItem for OutputPath {
    fn same_as(&self, other: &Self) -> (r: bool) {
        let (ka, sa) = self.parts();
        let (kb, sb) = other.parts();
        ka == kb && *sa == *sb
    }
}

/// The `envFile` option of a task: `true` for the project's `.env`, or a
/// path, which a leading `/` makes relative to the workspace.
#[derive(Clone, Debug)]
pub enum TaskOptionEnvFile {
    Enabled(bool),
    File(String),
}

pub enum EnvFileView {
    Enabled(bool),
    File(Seq<char>),
}

impl View for TaskOptionEnvFile {
    type V = EnvFileView;

    open spec fn view(&self) -> EnvFileView {
        match self {
            TaskOptionEnvFile::Enabled(b) => EnvFileView::Enabled(*b),
            TaskOptionEnvFile::File(s) => EnvFileView::File(s@),
        }
    }
}

/// The input that an `envFile` option stands for.
pub open spec fn env_file_input(e: EnvFileView) -> Option<(InputKind, Seq<char>)> {
    match e {
        EnvFileView::Enabled(true) => Some((InputKind::ProjectFile, seq!['.', 'e', 'n', 'v'])),
        EnvFileView::Enabled(false) => None,
        EnvFileView::File(p) => if p.len() > 0 && p[0] == '/' {
            Some((InputKind::WorkspaceFile, p.drop_first()))
        } else {
            Some((InputKind::ProjectFile, p))
        },
    }
}

impl Copyable for TaskOptionEnvFile {
    fn duplicate(&self) -> (r: Self) {
        match self {
            TaskOptionEnvFile::Enabled(b) => TaskOptionEnvFile::Enabled(*b),
            TaskOptionEnvFile::File(s) => TaskOptionEnvFile::File(s.clone()),
        }
    }
}

impl TaskOptionEnvFile {
    pub fn to_input_path(&self) -> (r: Option<InputPath>)
        ensures
            r matches Some(p) ==> env_file_input(self@) == Some(p@),
            r is None ==> env_file_input(self@) is None,
    {
        match self {
            TaskOptionEnvFile::Enabled(true) => {
                proof { reveal_strlit(".env"); }
                let p = String::from_str(".env");
                assert(p@ =~= seq!['.', 'e', 'n', 'v']);
                Some(InputPath::ProjectFile(p))
            },
            TaskOptionEnvFile::Enabled(false) => None,
            TaskOptionEnvFile::File(path) => {
                let s = path.as_str();
                let n = s.unicode_len();
                if n > 0 && s.get_char(0) == '/' {
                    let rest = s.substring_char(1, n);
                    assert(rest@ =~= path@.drop_first());
                    Some(InputPath::WorkspaceFile(String::from_str(rest)))
                } else {
                    Some(InputPath::ProjectFile(path.clone()))
                }
            },
        }
    }
}

/// Whether a path is a glob: negated with a leading `!`, or holding a
/// wildcard, a class or an alternation.
pub open spec fn is_glob(p: Seq<char>) -> bool {
    (p.len() > 0 && p[0] == '!') || p.contains('*') || p.contains('?') || p.contains('[') || p.contains('{')
}

/// Letters of an environment variable's name: upper case, digits and `_`.
pub open spec fn is_env_char(c: char) -> bool {
    (65 <= c as u32 <= 90) || (48 <= c as u32 <= 57) || c == '_'
}

pub open spec fn all_env_chars(s: Seq<char>, allow_star: bool) -> bool {
    forall|i: int| 0 <= i < s.len() ==> is_env_char(#[trigger] s[i]) || (allow_star && s[i] == '*')
}

/// The input that a text names: `@func(..)` a token function, `$NAME` an
/// environment variable (`$NA*` a pattern of them), another `$..` a token
/// variable, `/..` a file or glob of the workspace, anything else a file or
/// glob of the project.
pub open spec fn parse_input(s: Seq<char>) -> (InputKind, Seq<char>) {
    if s.len() > 0 && s[0] == '@' {
        (InputKind::TokenFunc, s)
    } else if s.len() > 0 && s[0] == '$' {
        let rest = s.drop_first();
        if rest.len() > 0 && all_env_chars(rest, false) {
            (InputKind::EnvVar, rest)
        } else if rest.len() > 0 && all_env_chars(rest, true) {
            (InputKind::EnvVarGlob, rest)
        } else {
            (InputKind::TokenVar, s)
        }
    } else if s.len() > 0 && s[0] == '/' {
        let rest = s.drop_first();
        if is_glob(rest) { (InputKind::WorkspaceGlob, rest) } else { (InputKind::WorkspaceFile, rest) }
    } else if is_glob(s) {
        (InputKind::ProjectGlob, s)
    } else {
        (InputKind::ProjectFile, s)
    }
}

/// The output that a text names: `@func(..)` a token function, `$..` a
/// token variable, `/..` a file or glob of the workspace, anything else a
/// file or glob of the project.
pub open spec fn parse_output(s: Seq<char>) -> (OutputKind, Seq<char>) {
    if s.len() > 0 && s[0] == '@' {
        (OutputKind::TokenFunc, s)
    } else if s.len() > 0 && s[0] == '$' {
        (OutputKind::TokenVar, s)
    } else if s.len() > 0 && s[0] == '/' {
        let rest = s.drop_first();
        if is_glob(rest) { (OutputKind::WorkspaceGlob, rest) } else { (OutputKind::WorkspaceFile, rest) }
    } else if is_glob(s) {
        (OutputKind::ProjectGlob, s)
    } else {
        (OutputKind::ProjectFile, s)
    }
}

fn has_char(s: &str, c: char) -> (r: bool)
    ensures
        r == s@.contains(c),
{
    crate::target::find_char(s, c).is_some()
}

fn path_is_glob(p: &str) -> (r: bool)
    ensures
        r == is_glob(p@),
{
    let negated = if p.unicode_len() > 0 { p.get_char(0) == '!' } else { false };
    negated || has_char(p, '*') || has_char(p, '?') || has_char(p, '[') || has_char(p, '{')
}

fn env_chars_only(s: &str, allow_star: bool) -> (r: bool)
    ensures
        r == all_env_chars(s@, allow_star),
{
    let n = s.unicode_len();
    let mut i: usize = 0;
    while i < n
        invariant
            n == s@.len(),
            i <= n,
            forall|j: int| 0 <= j < i ==> is_env_char(#[trigger] s@[j]) || (allow_star && s@[j] == '*'),
        decreases n - i,
    {
        let c = s.get_char(i);
        let code = c as u32;
        let ok = (65 <= code && code <= 90) || (48 <= code && code <= 57) || c == '_' || (allow_star && c == '*');
        if !ok {
            return false;
        }
        i += 1;
    }
    true
}

/// The text after the first character of a non-empty text.
fn tail(s: &str) -> (r: String)
    requires
        s@.len() > 0,
    ensures
        r@ == s@.drop_first(),
{
    let n = s.unicode_len();
    let rest = s.substring_char(1, n);
    assert(rest@ =~= s@.drop_first());
    String::from_str(rest)
}

impl InputPath {
    /// The input that `text` names (see `parse_input`).
    pub fn parse(text: &str) -> (r: InputPath)
        ensures
            r@ == parse_input(text@),
    {
        let n = text.unicode_len();
        let first = if n > 0 { Some(text.get_char(0)) } else { None };
        match first {
            Some('@') => InputPath::TokenFunc(String::from_str(text)),
            Some('$') => {
                let rest = tail(text);
                if n > 1 && env_chars_only(rest.as_str(), false) {
                    InputPath::EnvVar(rest)
                } else if n > 1 && env_chars_only(rest.as_str(), true) {
                    InputPath::EnvVarGlob(rest)
                } else {
                    InputPath::TokenVar(String::from_str(text))
                }
            },
            Some('/') => {
                let rest = tail(text);
                if path_is_glob(rest.as_str()) {
                    InputPath::WorkspaceGlob(rest)
                } else {
                    InputPath::WorkspaceFile(rest)
                }
            },
            _ => {
                if path_is_glob(text) {
                    InputPath::ProjectGlob(String::from_str(text))
                } else {
                    InputPath::ProjectFile(String::from_str(text))
                }
            },
        }
    }
}

impl OutputPath {
    /// The output that `text` names (see `parse_output`).
    pub fn parse(text: &str) -> (r: OutputPath)
        ensures
            r@ == parse_output(text@),
    {
        let n = text.unicode_len();
        let first = if n > 0 { Some(text.get_char(0)) } else { None };
        match first {
            Some('@') => OutputPath::TokenFunc(String::from_str(text)),
            Some('$') => OutputPath::TokenVar(String::from_str(text)),
            Some('/') => {
                let rest = tail(text);
                if path_is_glob(rest.as_str()) {
                    OutputPath::WorkspaceGlob(rest)
                } else {
                    OutputPath::WorkspaceFile(rest)
                }
            },
            _ => {
                if path_is_glob(text) {
                    OutputPath::ProjectGlob(String::from_str(text))
                } else {
                    OutputPath::ProjectFile(String::from_str(text))
                }
            },
        }
    }
}

} // verus!
