use vstd::prelude::*;
use vstd::string::{StrSliceExecFns, StringExecFns};
use crate::items::{Copyable, MergeItem};

verus! {

/// The part of a target before its `:`.
#[derive(Clone, Debug)]
pub enum TargetScope {
    All,
    Deps,
    OwnSelf,
    Project(String),
    Tag(String),
}

#[derive(Clone, Copy, Debug, PartialEq, Eq, Structural)]
pub enum ScopeKind {
    All,
    Deps,
    OwnSelf,
    Project,
    Tag,
}

impl View for TargetScope {
    /// The kind of scope and the identifier it names (empty for the scopes
    /// that name none).
    type V = (ScopeKind, Seq<char>);

    open spec fn view(&self) -> (ScopeKind, Seq<char>) {
        match self {
            TargetScope::All => (ScopeKind::All, Seq::empty()),
            TargetScope::Deps => (ScopeKind::Deps, Seq::empty()),
            TargetScope::OwnSelf => (ScopeKind::OwnSelf, Seq::empty()),
            TargetScope::Project(id) => (ScopeKind::Project, id@),
            TargetScope::Tag(id) => (ScopeKind::Tag, id@),
        }
    }
}

/// The text of a scope in a target.
pub open spec fn scope_label(scope: (ScopeKind, Seq<char>)) -> Seq<char> {
    match scope.0 {
        ScopeKind::All => Seq::empty(),
        ScopeKind::Deps => seq!['^'],
        ScopeKind::OwnSelf => seq!['~'],
        ScopeKind::Project => scope.1,
        ScopeKind::Tag => seq!['#'] + scope.1,
    }
}

/// The text of a target: the scope, `:` and the task.
pub open spec fn target_label(scope: (ScopeKind, Seq<char>), task_id: Seq<char>) -> Seq<char> {
    scope_label(scope) + seq![':'] + task_id
}

/// A reference to a task: `scope:task`.
#[derive(Clone, Debug)]
pub struct Target {
    pub id: String,
    pub scope: TargetScope,
    pub task_id: String,
}

pub struct TargetView {
    pub id: Seq<char>,
    pub scope: (ScopeKind, Seq<char>),
    pub task_id: Seq<char>,
}

impl View for Target {
    type V = TargetView;

    open spec fn view(&self) -> TargetView {
        TargetView { id: self.id@, scope: self.scope@, task_id: self.task_id@ }
    }
}

fn concat(a: &str, b: &str) -> (r: String)
    ensures
        r@ == a@ + b@,
{
    let mut s = String::new();
    s.append(a);
    s.append(b);
    assert(s@ =~= a@ + b@);
    s
}

impl TargetScope {
    pub fn duplicate(&self) -> (r: TargetScope)
        ensures
            r@ == self@,
    {
        match self {
            TargetScope::All => TargetScope::All,
            TargetScope::Deps => TargetScope::Deps,
            TargetScope::OwnSelf => TargetScope::OwnSelf,
            TargetScope::Project(id) => TargetScope::Project(id.clone()),
            TargetScope::Tag(id) => TargetScope::Tag(id.clone()),
        }
    }

    /// The text of the scope in a target.
    pub fn label(&self) -> (r: String)
        ensures
            r@ == scope_label(self@),
    {
        match self {
            TargetScope::All => String::new(),
            TargetScope::Deps => {
                proof { reveal_strlit("^"); }
                let r = String::from_str("^");
                assert(r@ =~= seq!['^']);
                r
            },
            TargetScope::OwnSelf => {
                proof { reveal_strlit("~"); }
                let r = String::from_str("~");
                assert(r@ =~= seq!['~']);
                r
            },
            TargetScope::Project(id) => id.clone(),
            TargetScope::Tag(id) => {
                proof { reveal_strlit("#"); }
                concat("#", id.as_str())
            },
        }
    }
}

impl Target {
    /// The text of the target with `scope` and `task_id`.
    pub fn format(scope: &TargetScope, task_id: &String) -> (r: String)
        ensures
            r@ == target_label(scope@, task_id@),
    {
        let label = scope.label();
        proof { reveal_strlit(":"); }
        let head = concat(label.as_str(), ":");
        concat(head.as_str(), task_id.as_str())
    }

    /// The target of task `task_id` in project `project_id`.
    pub fn new(project_id: &String, task_id: &String) -> (r: Target)
        ensures
            r@.scope == (ScopeKind::Project, project_id@),
            r@.task_id == task_id@,
            r@.id == target_label((ScopeKind::Project, project_id@), task_id@),
    {
        let scope = TargetScope::Project(project_id.clone());
        let id = Target::format(&scope, task_id);
        Target { id, scope, task_id: task_id.clone() }
    }
}

impl Copyable for Target {
    fn duplicate(&self) -> (r: Self) {
        Target { id: self.id.clone(), scope: self.scope.duplicate(), task_id: self.task_id.clone() }
    }
}

impl MergeItem for Target {
    fn same_as(&self, other: &Self) -> (r: bool) {
        let same_scope = match (&self.scope, &other.scope) {
            (TargetScope::All, TargetScope::All) => true,
            (TargetScope::Deps, TargetScope::Deps) => true,
            (TargetScope::OwnSelf, TargetScope::OwnSelf) => true,
            (TargetScope::Project(a), TargetScope::Project(b)) => *a == *b,
            (TargetScope::Tag(a), TargetScope::Tag(b)) => *a == *b,
            _ => false,
        };
        same_scope && self.id == other.id && self.task_id == other.task_id
    }
}

/// Why a text is not a target.
#[derive(Clone, Debug)]
pub enum TargetError {
    /// `:` alone, which would name every task of every project.
    TooWild,
    InvalidFormat(String),
}

/// The scope that the text before `:` names: nothing for all projects, `^`
/// for the dependencies, `~` for the project itself, `#tag` for a tag, or a
/// project.
pub open spec fn parse_scope(t: Seq<char>) -> Option<(ScopeKind, Seq<char>)> {
    if t.len() == 0 {
        Some((ScopeKind::All, Seq::empty()))
    } else if t == seq!['^'] {
        Some((ScopeKind::Deps, Seq::empty()))
    } else if t == seq!['~'] {
        Some((ScopeKind::OwnSelf, Seq::empty()))
    } else if t[0] == '#' {
        if t.len() == 1 { None } else { Some((ScopeKind::Tag, t.drop_first())) }
    } else {
        Some((ScopeKind::Project, t))
    }
}

/// The position of the first `:` of a text that has one.
pub open spec fn first_colon(s: Seq<char>) -> int {
    choose|i: int| 0 <= i < s.len() && s[i] == ':' && forall|j: int| 0 <= j < i ==> s[j] != ':'
}

/// The target that a text names: `scope:task`, or a bare task of the
/// project itself. The task is not empty and holds no `:`.
pub open spec fn parse_target(s: Seq<char>) -> Option<TargetView> {
    if !s.contains(':') {
        if s.len() == 0 {
            None
        } else {
            let scope = (ScopeKind::OwnSelf, Seq::<char>::empty());
            Some(TargetView { id: target_label(scope, s), scope, task_id: s })
        }
    } else {
        let i = first_colon(s);
        let task = s.skip(i + 1);
        if task.len() == 0 || task.contains(':') {
            None
        } else {
            match parse_scope(s.take(i)) {
                None => None,
                Some(scope) => Some(TargetView { id: target_label(scope, task), scope, task_id: task }),
            }
        }
    }
}

/// The position of the first occurrence of `c` in `s`, if any.
pub fn find_char(s: &str, c: char) -> (r: Option<usize>)
    ensures
        r matches Some(i) ==> i < s@.len() && s@[i as int] == c && forall|j: int| 0 <= j < i ==> s@[j] != c,
        r is None ==> !s@.contains(c),
{
    let n = s.unicode_len();
    let mut i: usize = 0;
    while i < n
        invariant
            n == s@.len(),
            i <= n,
            forall|j: int| 0 <= j < i ==> s@[j] != c,
        decreases n - i,
    {
        if s.get_char(i) == c {
            return Some(i);
        }
        i += 1;
    }
    None
}

impl TargetScope {
    fn parse(t: &str) -> (r: Option<TargetScope>)
        ensures
            match parse_scope(t@) {
                Some(v) => r matches Some(sc) && sc@ == v,
                None => r is None,
            },
    {
        let n = t.unicode_len();
        if n == 0 {
            return Some(TargetScope::All);
        }
        let first = t.get_char(0);
        if n == 1 && first == '^' {
            assert(t@ =~= seq!['^']);
            return Some(TargetScope::Deps);
        }
        if n == 1 && first == '~' {
            assert(t@ =~= seq!['~']);
            return Some(TargetScope::OwnSelf);
        }
        if first == '#' {
            if n == 1 {
                return None;
            }
            let tag = t.substring_char(1, n);
            assert(tag@ =~= t@.drop_first());
            return Some(TargetScope::Tag(String::from_str(tag)));
        }
        Some(TargetScope::Project(String::from_str(t)))
    }
}

impl Target {
    /// The target that `text` names (see `parse_target`).
    pub fn parse(text: &str) -> (r: Result<Target, TargetError>)
        ensures
            match parse_target(text@) {
                Some(v) => r matches Ok(t) && t@ == v,
                None => r is Err,
            },
    {
        let n = text.unicode_len();
        match find_char(text, ':') {
            None => {
                if n == 0 {
                    return Err(TargetError::InvalidFormat(String::from_str(text)));
                }
                let scope = TargetScope::OwnSelf;
                let task_id = String::from_str(text);
                let id = Target::format(&scope, &task_id);
                Ok(Target { id, scope, task_id })
            },
            Some(i) => {
                proof {
                    let s = text@;
                    assert(s.contains(':'));
                    assert(i as int == first_colon(s)) by {
                        let k = first_colon(s);
                        assert(0 <= i < s.len() && s[i as int] == ':' && forall|j: int| 0 <= j < i ==> s[j] != ':');
                        if k < i {
                            assert(s[k] == ':');
                        } else if k > i {
                            assert(s[i as int] != ':');
                        }
                    }
                }
                if n == 1 {
                    return Err(TargetError::TooWild);
                }
                let head = text.substring_char(0, i);
                let rest = text.substring_char(i + 1, n);
                assert(head@ =~= text@.take(i as int));
                assert(rest@ =~= text@.skip(i as int + 1));
                if rest.unicode_len() == 0 {
                    return Err(TargetError::InvalidFormat(String::from_str(text)));
                }
                if find_char(rest, ':').is_some() {
                    return Err(TargetError::InvalidFormat(String::from_str(text)));
                }
                match TargetScope::parse(head) {
                    None => Err(TargetError::InvalidFormat(String::from_str(text))),
                    Some(scope) => {
                        let task_id = String::from_str(rest);
                        let id = Target::format(&scope, &task_id);
                        Ok(Target { id, scope, task_id })
                    },
                }
            },
        }
    }
}

} // verus!
