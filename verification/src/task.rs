use vstd::prelude::*;
use crate::config::{PlatformType, TaskOptionAffectedFiles, TaskOutputStyle, TaskType};
use crate::id_map::IdMap;
use crate::items::views;
use crate::merge::TaskMergeStrategy;
use crate::paths::{InputKind, InputPath, OutputKind, OutputPath};
use crate::target::{Target, TargetView};

verus! {

/// The options of a built task.
#[derive(Clone, Debug)]
pub struct TaskOptions {
    pub affected_files: Option<TaskOptionAffectedFiles>,
    pub allow_failure: bool,
    pub cache: bool,
    pub env_file: Option<InputPath>,
    pub interactive: bool,
    pub merge_args: TaskMergeStrategy,
    pub merge_deps: TaskMergeStrategy,
    pub merge_env: TaskMergeStrategy,
    pub merge_inputs: TaskMergeStrategy,
    pub merge_outputs: TaskMergeStrategy,
    pub output_style: Option<TaskOutputStyle>,
    pub persistent: bool,
    pub retry_count: u8,
    pub run_deps_in_parallel: bool,
    pub run_in_ci: bool,
    pub run_from_workspace_root: bool,
    pub shell: Option<bool>,
}

pub struct TaskOptionsView {
    pub affected_files: Option<TaskOptionAffectedFiles>,
    pub allow_failure: bool,
    pub cache: bool,
    pub env_file: Option<(InputKind, Seq<char>)>,
    pub interactive: bool,
    pub merge_args: TaskMergeStrategy,
    pub merge_deps: TaskMergeStrategy,
    pub merge_env: TaskMergeStrategy,
    pub merge_inputs: TaskMergeStrategy,
    pub merge_outputs: TaskMergeStrategy,
    pub output_style: Option<TaskOutputStyle>,
    pub persistent: bool,
    pub retry_count: u8,
    pub run_deps_in_parallel: bool,
    pub run_in_ci: bool,
    pub run_from_workspace_root: bool,
    pub shell: Option<bool>,
}

impl View for TaskOptions {
    type V = TaskOptionsView;

    open spec fn view(&self) -> TaskOptionsView {
        TaskOptionsView {
            affected_files: self.affected_files,
            allow_failure: self.allow_failure,
            cache: self.cache,
            env_file: match self.env_file {
                Some(p) => Some(p@),
                None => None,
            },
            interactive: self.interactive,
            merge_args: self.merge_args,
            merge_deps: self.merge_deps,
            merge_env: self.merge_env,
            merge_inputs: self.merge_inputs,
            merge_outputs: self.merge_outputs,
            output_style: self.output_style,
            persistent: self.persistent,
            retry_count: self.retry_count,
            run_deps_in_parallel: self.run_deps_in_parallel,
            run_in_ci: self.run_in_ci,
            run_from_workspace_root: self.run_from_workspace_root,
            shell: self.shell,
        }
    }
}

/// The options of a task that nothing configured.
pub open spec fn default_task_options() -> TaskOptionsView {
    TaskOptionsView {
        affected_files: None,
        allow_failure: false,
        cache: true,
        env_file: None,
        interactive: false,
        merge_args: TaskMergeStrategy::Append,
        merge_deps: TaskMergeStrategy::Append,
        merge_env: TaskMergeStrategy::Append,
        merge_inputs: TaskMergeStrategy::Append,
        merge_outputs: TaskMergeStrategy::Append,
        output_style: None,
        persistent: false,
        retry_count: 0,
        run_deps_in_parallel: true,
        run_in_ci: true,
        run_from_workspace_root: false,
        shell: None,
    }
}

impl TaskOptions {
    pub fn new() -> (r: Self)
        ensures
            r@ == default_task_options(),
    {
        TaskOptions {
            affected_files: None,
            allow_failure: false,
            cache: true,
            env_file: None,
            interactive: false,
            merge_args: TaskMergeStrategy::Append,
            merge_deps: TaskMergeStrategy::Append,
            merge_env: TaskMergeStrategy::Append,
            merge_inputs: TaskMergeStrategy::Append,
            merge_outputs: TaskMergeStrategy::Append,
            output_style: None,
            persistent: false,
            retry_count: 0,
            run_deps_in_parallel: true,
            run_in_ci: true,
            run_from_workspace_root: false,
            shell: None,
        }
    }
}

#[derive(Clone, Copy, Debug, PartialEq, Eq, Structural)]
pub struct TaskFlags {
    /// The task configured its inputs away.
    pub empty_inputs: bool,
    /// The task runs locally, for a developer, rather than in CI.
    pub local: bool,
}

/// A task as built for a project.
#[derive(Clone, Debug)]
pub struct Task {
    pub args: Vec<String>,
    pub command: String,
    pub deps: Vec<Target>,
    pub env: IdMap<String>,
    pub flags: TaskFlags,
    pub id: String,
    pub inputs: Vec<InputPath>,
    pub options: TaskOptions,
    pub outputs: Vec<OutputPath>,
    pub platform: PlatformType,
    pub target: Target,
    pub type_of: TaskType,
}

pub struct TaskView {
    pub args: Seq<Seq<char>>,
    pub command: Seq<char>,
    pub deps: Seq<TargetView>,
    pub env: Map<Seq<char>, Seq<char>>,
    pub flags: TaskFlags,
    pub id: Seq<char>,
    pub inputs: Seq<(InputKind, Seq<char>)>,
    pub options: TaskOptionsView,
    pub outputs: Seq<(OutputKind, Seq<char>)>,
    pub platform: PlatformType,
    pub target: TargetView,
    pub type_of: TaskType,
}

impl View for Task {
    type V = TaskView;

    open spec fn view(&self) -> TaskView {
        TaskView {
            args: views(self.args@),
            command: self.command@,
            deps: views(self.deps@),
            env: self.env@,
            flags: self.flags,
            id: self.id@,
            inputs: views(self.inputs@),
            options: self.options@,
            outputs: views(self.outputs@),
            platform: self.platform,
            target: self.target@,
            type_of: self.type_of,
        }
    }
}

} // verus!
