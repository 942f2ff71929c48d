use vstd::prelude::*;
use vstd::string::StrSliceExecFns;
use vstd::string::StringExecFns;
use crate::id_map::IdMap;
use crate::items::{Copyable, copy_vec, views};
use crate::merge::TaskMergeStrategy;
use crate::paths::{EnvFileView, InputPath, OutputPath, TaskOptionEnvFile};
use crate::target::{ScopeKind, Target, TargetScope, TargetView};

verus! {

/// The toolchain that a task runs with.
#[derive(Clone, Copy, Debug, PartialEq, Eq, Structural)]
pub enum PlatformType {
    Bun,
    Deno,
    Node,
    Rust,
    System,
    Unknown,
}

impl PlatformType {
    pub fn is_unknown(&self) -> (r: bool)
        ensures
            r == (*self == PlatformType::Unknown),
    {
        match self {
            PlatformType::Unknown => true,
            _ => false,
        }
    }

    pub fn is_system(&self) -> (r: bool)
        ensures
            r == (*self == PlatformType::System),
    {
        match self {
            PlatformType::System => true,
            _ => false,
        }
    }
}

#[derive(Clone, Copy, Debug, PartialEq, Eq, Structural)]
pub enum TaskOutputStyle {
    Buffer,
    BufferOnlyFailure,
    Hash,
    NoOutput,
    Stream,
}

/// What a task is for: producing outputs, running locally, or checking.
#[derive(Clone, Copy, Debug, PartialEq, Eq, Structural)]
pub enum TaskType {
    Build,
    Run,
    Test,
}

#[derive(Clone, Copy, Debug, PartialEq, Eq, Structural)]
pub enum TaskOptionAffectedFiles {
    Args,
    Env,
    Enabled(bool),
}

/// A command or its arguments: absent, one string to split, or a list.
#[derive(Clone, Debug)]
pub enum TaskCommandArgs {
    Unset,
    String(String),
    List(Vec<String>),
}

pub enum CommandArgsView {
    Unset,
    String(Seq<char>),
    List(Seq<Seq<char>>),
}

impl View for TaskCommandArgs {
    type V = CommandArgsView;

    open spec fn view(&self) -> CommandArgsView {
        match self {
            TaskCommandArgs::Unset => CommandArgsView::Unset,
            TaskCommandArgs::String(s) => CommandArgsView::String(s@),
            TaskCommandArgs::List(l) => CommandArgsView::List(views(l@)),
        }
    }
}

impl Copyable for TaskCommandArgs {
    fn duplicate(&self) -> (r: Self) {
        match self {
            TaskCommandArgs::Unset => TaskCommandArgs::Unset,
            TaskCommandArgs::String(s) => TaskCommandArgs::String(s.clone()),
            TaskCommandArgs::List(l) => TaskCommandArgs::List(copy_vec(l)),
        }
    }
}

/// Options of a task as configured; an absent option leaves the inherited value.
#[derive(Clone, Debug)]
pub struct TaskOptionsConfig {
    pub affected_files: Option<TaskOptionAffectedFiles>,
    pub allow_failure: Option<bool>,
    pub cache: Option<bool>,
    pub env_file: Option<TaskOptionEnvFile>,
    pub interactive: Option<bool>,
    pub merge_args: Option<TaskMergeStrategy>,
    pub merge_deps: Option<TaskMergeStrategy>,
    pub merge_env: Option<TaskMergeStrategy>,
    pub merge_inputs: Option<TaskMergeStrategy>,
    pub merge_outputs: Option<TaskMergeStrategy>,
    pub output_style: Option<TaskOutputStyle>,
    pub persistent: Option<bool>,
    pub retry_count: Option<u8>,
    pub run_deps_in_parallel: Option<bool>,
    pub run_in_ci: Option<bool>,
    pub run_from_workspace_root: Option<bool>,
    pub shell: Option<bool>,
}

pub struct TaskOptionsConfigView {
    pub affected_files: Option<TaskOptionAffectedFiles>,
    pub allow_failure: Option<bool>,
    pub cache: Option<bool>,
    pub env_file: Option<EnvFileView>,
    pub interactive: Option<bool>,
    pub merge_args: Option<TaskMergeStrategy>,
    pub merge_deps: Option<TaskMergeStrategy>,
    pub merge_env: Option<TaskMergeStrategy>,
    pub merge_inputs: Option<TaskMergeStrategy>,
    pub merge_outputs: Option<TaskMergeStrategy>,
    pub output_style: Option<TaskOutputStyle>,
    pub persistent: Option<bool>,
    pub retry_count: Option<u8>,
    pub run_deps_in_parallel: Option<bool>,
    pub run_in_ci: Option<bool>,
    pub run_from_workspace_root: Option<bool>,
    pub shell: Option<bool>,
}

impl View for TaskOptionsConfig {
    type V = TaskOptionsConfigView;

    open spec fn view(&self) -> TaskOptionsConfigView {
        TaskOptionsConfigView {
            affected_files: self.affected_files,
            allow_failure: self.allow_failure,
            cache: self.cache,
            env_file: match self.env_file {
                Some(e) => Some(e@),
                None => None,
            },
            interactive: self.interactive,
            merge_args: self.merge_args,
            merge_deps: self.merge_deps,
            merge_env: self.merge_env,
            merge_inputs: self.merge_inputs,
            merge_outputs: self.merge_outputs,
            output_style: self.output_style,
            persistent: self.persistent,
            retry_count: self.retry_count,
            run_deps_in_parallel: self.run_deps_in_parallel,
            run_in_ci: self.run_in_ci,
            run_from_workspace_root: self.run_from_workspace_root,
            shell: self.shell,
        }
    }
}

impl Copyable for TaskOptionsConfig {
    fn duplicate(&self) -> (r: Self) {
        let env_file = match &self.env_file {
            Some(e) => Some(e.duplicate()),
            None => None,
        };
        TaskOptionsConfig {
            affected_files: self.affected_files,
            allow_failure: self.allow_failure,
            cache: self.cache,
            env_file,
            interactive: self.interactive,
            merge_args: self.merge_args,
            merge_deps: self.merge_deps,
            merge_env: self.merge_env,
            merge_inputs: self.merge_inputs,
            merge_outputs: self.merge_outputs,
            output_style: self.output_style,
            persistent: self.persistent,
            retry_count: self.retry_count,
            run_deps_in_parallel: self.run_deps_in_parallel,
            run_in_ci: self.run_in_ci,
            run_from_workspace_root: self.run_from_workspace_root,
            shell: self.shell,
        }
    }
}

impl TaskOptionsConfig {
    /// A configuration that sets no option.
    pub fn new() -> (r: Self)
        ensures
            r@ == unset_options(),
    {
        TaskOptionsConfig {
            affected_files: None,
            allow_failure: None,
            cache: None,
            env_file: None,
            interactive: None,
            merge_args: None,
            merge_deps: None,
            merge_env: None,
            merge_inputs: None,
            merge_outputs: None,
            output_style: None,
            persistent: None,
            retry_count: None,
            run_deps_in_parallel: None,
            run_in_ci: None,
            run_from_workspace_root: None,
            shell: None,
        }
    }
}

pub open spec fn unset_options() -> TaskOptionsConfigView {
    TaskOptionsConfigView {
        affected_files: None,
        allow_failure: None,
        cache: None,
        env_file: None,
        interactive: None,
        merge_args: None,
        merge_deps: None,
        merge_env: None,
        merge_inputs: None,
        merge_outputs: None,
        output_style: None,
        persistent: None,
        retry_count: None,
        run_deps_in_parallel: None,
        run_in_ci: None,
        run_from_workspace_root: None,
        shell: None,
    }
}

pub open spec fn opt_views<T: View>(o: Option<Vec<T>>) -> Option<Seq<T::V>> {
    match o {
        Some(v) => Some(views(v@)),
        None => None,
    }
}

/// The configuration of one task, in a project or in the inherited tasks.
#[derive(Clone, Debug)]
pub struct TaskConfig {
    pub extends: Option<String>,
    pub command: TaskCommandArgs,
    pub args: TaskCommandArgs,
    pub deps: Vec<Target>,
    pub env: IdMap<String>,
    pub global_inputs: Vec<InputPath>,
    /// Absent: every file of the project; empty: no input.
    pub inputs: Option<Vec<InputPath>>,
    pub local: Option<bool>,
    pub outputs: Option<Vec<OutputPath>>,
    pub options: TaskOptionsConfig,
    pub platform: PlatformType,
    pub type_of: Option<TaskType>,
}

pub struct TaskConfigView {
    pub extends: Option<Seq<char>>,
    pub command: CommandArgsView,
    pub args: CommandArgsView,
    pub deps: Seq<TargetView>,
    pub env: Map<Seq<char>, Seq<char>>,
    pub global_inputs: Seq<(crate::paths::InputKind, Seq<char>)>,
    pub inputs: Option<Seq<(crate::paths::InputKind, Seq<char>)>>,
    pub local: Option<bool>,
    pub outputs: Option<Seq<(crate::paths::OutputKind, Seq<char>)>>,
    pub options: TaskOptionsConfigView,
    pub platform: PlatformType,
    pub type_of: Option<TaskType>,
}

impl View for TaskConfig {
    type V = TaskConfigView;

    open spec fn view(&self) -> TaskConfigView {
        TaskConfigView {
            extends: match self.extends {
                Some(e) => Some(e@),
                None => None,
            },
            command: self.command@,
            args: self.args@,
            deps: views(self.deps@),
            env: self.env@,
            global_inputs: views(self.global_inputs@),
            inputs: opt_views(self.inputs),
            local: self.local,
            outputs: opt_views(self.outputs),
            options: self.options@,
            platform: self.platform,
            type_of: self.type_of,
        }
    }
}

fn copy_opt_vec<T: Copyable>(o: &Option<Vec<T>>) -> (r: Option<Vec<T>>)
    ensures
        opt_views(r) == opt_views(*o),
{
    match o {
        Some(v) => Some(copy_vec(v)),
        None => None,
    }
}

impl Copyable for TaskConfig {
    fn duplicate(&self) -> (r: Self) {
        TaskConfig {
            extends: match &self.extends {
                Some(e) => Some(e.clone()),
                None => None,
            },
            command: self.command.duplicate(),
            args: self.args.duplicate(),
            deps: copy_vec(&self.deps),
            env: self.env.duplicate(),
            global_inputs: copy_vec(&self.global_inputs),
            inputs: copy_opt_vec(&self.inputs),
            local: self.local,
            outputs: copy_opt_vec(&self.outputs),
            options: self.options.duplicate(),
            platform: self.platform,
            type_of: self.type_of,
        }
    }
}

impl TaskConfig {
    /// A task configuration that sets nothing.
    pub fn new() -> (r: Self)
        ensures
            r@.extends is None,
            r@.command == CommandArgsView::Unset,
            r@.args == CommandArgsView::Unset,
            r@.deps.len() == 0,
            r@.env == Map::<Seq<char>, Seq<char>>::empty(),
            r@.global_inputs.len() == 0,
            r@.inputs is None,
            r@.local is None,
            r@.outputs is None,
            r@.options == unset_options(),
            r@.platform == PlatformType::Unknown,
            r@.type_of is None,
    {
        let r = TaskConfig {
            extends: None,
            command: TaskCommandArgs::Unset,
            args: TaskCommandArgs::Unset,
            deps: Vec::new(),
            env: IdMap::new(),
            global_inputs: Vec::new(),
            inputs: None,
            local: None,
            outputs: None,
            options: TaskOptionsConfig::new(),
            platform: PlatformType::Unknown,
            type_of: None,
        };
        assert(r@.deps =~= Seq::<TargetView>::empty());
        assert(r@.global_inputs =~= Seq::<(crate::paths::InputKind, Seq<char>)>::empty());
        r
    }
}

/// The tasks and implicit dependencies and inputs that every project inherits.
#[derive(Clone, Debug)]
pub struct InheritedTasksConfig {
    /// In the order of their identifiers (see `ids_in_order`).
    pub tasks: IdMap<TaskConfig>,
    pub implicit_deps: Vec<Target>,
    pub implicit_inputs: Vec<InputPath>,
}

/// Identifier `a` comes before identifier `b`: at the first character where
/// they differ, `a` has the lower code point, or `a` is a proper prefix of `b`.
pub open spec fn id_before(a: Seq<char>, b: Seq<char>) -> bool
    decreases a.len(),
{
    if b.len() == 0 {
        false
    } else if a.len() == 0 {
        true
    } else if a[0] != b[0] {
        (a[0] as u32) < (b[0] as u32)
    } else {
        id_before(a.drop_first(), b.drop_first())
    }
}

impl InheritedTasksConfig {
    /// The inherited tasks come in the order of their identifiers, each once.
    pub open spec fn ids_in_order(&self) -> bool {
        forall|i: int, j: int| 0 <= i < j < self.tasks.entries@.len()
            ==> id_before(#[trigger] self.tasks.entries@[i].0@, #[trigger] self.tasks.entries@[j].0@)
    }
}

/// The environment and tasks that a project configures.
#[derive(Clone, Debug)]
pub struct ProjectConfig {
    pub env: IdMap<String>,
    pub tasks: IdMap<TaskConfig>,
}

/// Which inherited tasks a project takes, and under which names.
#[derive(Clone, Debug)]
pub struct ProjectWorkspaceInheritedTasksConfig {
    pub exclude: Vec<String>,
    /// Absent: all tasks; empty: none.
    pub included: Option<Vec<String>>,
    pub rename: IdMap<String>,
}

pub struct FiltersView {
    pub exclude: Seq<Seq<char>>,
    pub included: Option<Seq<Seq<char>>>,
    pub rename: Map<Seq<char>, Seq<char>>,
}

impl View for ProjectWorkspaceInheritedTasksConfig {
    type V = FiltersView;

    open spec fn view(&self) -> FiltersView {
        FiltersView { exclude: views(self.exclude@), included: opt_views(self.included), rename: self.rename@ }
    }
}

impl Copyable for ProjectWorkspaceInheritedTasksConfig {
    fn duplicate(&self) -> (r: Self) {
        ProjectWorkspaceInheritedTasksConfig {
            exclude: copy_vec(&self.exclude),
            included: copy_opt_vec(&self.included),
            rename: self.rename.duplicate(),
        }
    }
}

/// An error in a configuration value, at an index of a list where it has one.
#[derive(Clone, Debug)]
pub struct ValidateError {
    pub message: String,
    pub index: Option<usize>,
}

/// The text of the error for a missing command.
pub open spec fn missing_command_message() -> Seq<char> {
    "a command is required; use \"noop\" otherwise"@
}

/// The text of the error for a dependency on all projects.
pub open spec fn all_scope_dep_message() -> Seq<char> {
    "target scope not supported as a task dependency"@
}

/// Whether a command leaves out the command itself: an empty list, a list
/// whose first item is empty, or a string whose first space-separated part is
/// empty.
pub open spec fn command_missing(command: CommandArgsView) -> bool {
    match command {
        CommandArgsView::Unset => false,
        CommandArgsView::String(s) => s.len() == 0 || s[0] == ' ',
        CommandArgsView::List(l) => l.len() == 0 || l[0].len() == 0,
    }
}

/// A command, where one is given, must name the program to run.
pub fn validate_command<D, C>(command: &TaskCommandArgs, _task: &D, _ctx: &C) -> (r: Result<(), ValidateError>)
    ensures
        r is Ok <==> !command_missing(command@),
        r matches Err(e) ==> e.message@ == missing_command_message() && e.index is None,
{
    let invalid = match command {
        TaskCommandArgs::Unset => false,
        TaskCommandArgs::String(args) => {
            let s = args.as_str();
            s.is_empty() || s.get_char(0) == ' '
        },
        TaskCommandArgs::List(args) => args.len() == 0 || args[0].as_str().is_empty(),
    };
    if invalid {
        return Err(ValidateError { message: String::from_str("a command is required; use \"noop\" otherwise"), index: None });
    }
    Ok(())
}

/// A task may depend on tasks of its own project, of its dependencies or of
/// named projects or tags, but not on every project: the first dependency with
/// that scope is reported.
pub fn validate_deps<D, C>(deps: &[Target], _task: &D, _context: &C) -> (r: Result<(), ValidateError>)
    ensures
        r is Ok <==> forall|i: int| 0 <= i < deps@.len() ==> deps@[i]@.scope.0 != ScopeKind::All,
        r matches Err(e) ==> e.message@ == all_scope_dep_message() && (e.index matches Some(i)
            && i < deps@.len() && deps@[i as int]@.scope.0 == ScopeKind::All
            && forall|j: int| 0 <= j < i ==> deps@[j]@.scope.0 != ScopeKind::All),
{
    let mut i: usize = 0;
    while i < deps.len()
        invariant
            i <= deps@.len(),
            forall|j: int| 0 <= j < i ==> deps@[j]@.scope.0 != ScopeKind::All,
        decreases deps@.len() - i,
    {
        if let TargetScope::All = deps[i].scope {
            return Err(ValidateError { message: String::from_str("target scope not supported as a task dependency"), index: Some(i) });
        }
        i += 1;
    }
    Ok(())
}

} // verus!
