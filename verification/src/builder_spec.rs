use vstd::prelude::*;
use crate::args::config_command_and_args;
use crate::config::{FiltersView, PlatformType, TaskConfig, TaskConfigView, TaskType};
use crate::error::BuildError;
use crate::inherit::{Link, inherit_chain};
use crate::merge::{TaskMergeStrategy, merged_list, merged_map};
use crate::paths::{InputKind, OutputKind, env_file_input};
use crate::target::{ScopeKind, TargetView, target_label};
use crate::task::{TaskFlags, TaskOptionsView, TaskView, default_task_options};
use crate::config::TaskOptionsConfigView;

verus! {

pub type InputV = (InputKind, Seq<char>);
pub type OutputV = (OutputKind, Seq<char>);

/// The name under which an inherited task `id` is taken, or `None` where the
/// filters leave it out: not in a given list of included tasks (an empty list
/// includes none), or excluded.
pub open spec fn inherited_key(filters: Option<FiltersView>, id: Seq<char>) -> Option<Seq<char>> {
    match filters {
        None => Some(id),
        Some(f) => if (f.included matches Some(inc) && !inc.contains(id)) || f.exclude.contains(id) {
            None
        } else if f.rename.contains_key(id) {
            Some(f.rename[id])
        } else {
            Some(id)
        },
    }
}

/// The inherited tasks after taking, in order, the entries that the filters let through.
pub open spec fn inherit_tasks(
    tasks: Map<Seq<char>, TaskConfigView>,
    entries: Seq<(String, TaskConfig)>,
    filters: Option<FiltersView>,
) -> Map<Seq<char>, TaskConfigView>
    decreases entries.len(),
{
    if entries.len() == 0 {
        tasks
    } else {
        let prev = inherit_tasks(tasks, entries.drop_last(), filters);
        match inherited_key(filters, entries.last().0@) {
            Some(k) => prev.insert(k, entries.last().1@),
            None => prev,
        }
    }
}

/// The task identifiers after taking the entries that the filters let through.
pub open spec fn inherit_ids(
    ids: Set<Seq<char>>,
    entries: Seq<(String, TaskConfig)>,
    filters: Option<FiltersView>,
) -> Set<Seq<char>>
    decreases entries.len(),
{
    if entries.len() == 0 {
        ids
    } else {
        let prev = inherit_ids(ids, entries.drop_last(), filters);
        match inherited_key(filters, entries.last().0@) {
            Some(k) => prev.insert(k),
            None => prev,
        }
    }
}

/// A dependency renamed as the filters say.
pub open spec fn renamed_dep(f: FiltersView, d: TargetView) -> TargetView {
    if f.rename.contains_key(d.task_id) {
        TargetView { id: target_label(d.scope, f.rename[d.task_id]), scope: d.scope, task_id: f.rename[d.task_id] }
    } else {
        d
    }
}

/// The dependencies of an inherited task after the filters: those on
/// excluded tasks dropped, the others renamed.
pub open spec fn filter_deps(filters: Option<FiltersView>, deps: Seq<TargetView>) -> Seq<TargetView>
    decreases deps.len(),
{
    match filters {
        None => deps,
        Some(f) => if deps.len() == 0 {
            Seq::empty()
        } else {
            let prev = filter_deps(filters, deps.drop_last());
            let d = deps.last();
            if f.exclude.contains(d.task_id) {
                prev
            } else {
                prev.push(renamed_dep(f, d))
            }
        },
    }
}

/// The tasks that run locally unless configured otherwise.
pub open spec fn default_local(id: Seq<char>) -> bool {
    id == "dev"@ || id == "serve"@ || id == "start"@
}

/// Whether the task runs locally: the last configuration that says so decides.
pub open spec fn local_flag(chain: Seq<Link>, init: bool) -> bool
    decreases chain.len(),
{
    if chain.len() == 0 {
        init
    } else {
        match chain.last().0.local {
            Some(l) => l,
            None => local_flag(chain.drop_last(), init),
        }
    }
}

/// The program and arguments of each configuration of the chain, or the
/// first line that failed to split.
pub open spec fn chain_split(chain: Seq<Link>) -> Result<Seq<(Option<Seq<char>>, Seq<Seq<char>>)>, Seq<char>>
    decreases chain.len(),
{
    if chain.len() == 0 {
        Ok(Seq::empty())
    } else {
        match chain_split(chain.drop_last()) {
            Err(line) => Err(line),
            Ok(prev) => match config_command_and_args(chain.last().0) {
                Err(line) => Err(line),
                Ok(x) => Ok(prev.push(x)),
            },
        }
    }
}

/// The program that the last configuration naming one gives.
pub open spec fn last_command(splits: Seq<(Option<Seq<char>>, Seq<Seq<char>>)>, init: Seq<char>) -> Seq<char>
    decreases splits.len(),
{
    if splits.len() == 0 {
        init
    } else {
        match splits.last().0 {
            Some(c) => c,
            None => last_command(splits.drop_last(), init),
        }
    }
}

/// The arguments of the configurations merged in order, without dedupe.
pub open spec fn fold_args(acc: Seq<Seq<char>>, splits: Seq<(Option<Seq<char>>, Seq<Seq<char>>)>, strategy: TaskMergeStrategy) -> Seq<Seq<char>>
    decreases splits.len(),
{
    if splits.len() == 0 {
        acc
    } else {
        merged_list(fold_args(acc, splits.drop_last(), strategy), splits.last().1, strategy, false)
    }
}

/// The options of a task before any configuration: a local task streams its
/// output, persists, and is neither cached nor run in CI.
pub open spec fn initial_options(is_local: bool) -> TaskOptionsView {
    TaskOptionsView {
        cache: !is_local,
        interactive: false,
        output_style: if is_local { Some(crate::config::TaskOutputStyle::Stream) } else { None },
        persistent: is_local,
        run_in_ci: !is_local,
        ..default_task_options()
    }
}

/// The options after one configuration: each option it sets replaces the value so far.
pub open spec fn apply_options(o: TaskOptionsView, c: TaskOptionsConfigView) -> TaskOptionsView {
    TaskOptionsView {
        affected_files: match c.affected_files {
            Some(a) => Some(a),
            None => o.affected_files,
        },
        allow_failure: match c.allow_failure {
            Some(v) => v,
            None => o.allow_failure,
        },
        cache: match c.cache {
            Some(v) => v,
            None => o.cache,
        },
        env_file: match c.env_file {
            Some(e) => env_file_input(e),
            None => o.env_file,
        },
        interactive: match c.interactive {
            Some(v) => v,
            None => o.interactive,
        },
        merge_args: match c.merge_args {
            Some(v) => v,
            None => o.merge_args,
        },
        merge_deps: match c.merge_deps {
            Some(v) => v,
            None => o.merge_deps,
        },
        merge_env: match c.merge_env {
            Some(v) => v,
            None => o.merge_env,
        },
        merge_inputs: match c.merge_inputs {
            Some(v) => v,
            None => o.merge_inputs,
        },
        merge_outputs: match c.merge_outputs {
            Some(v) => v,
            None => o.merge_outputs,
        },
        output_style: match c.output_style {
            Some(v) => Some(v),
            None => o.output_style,
        },
        persistent: match c.persistent {
            Some(v) => v,
            None => o.persistent,
        },
        retry_count: match c.retry_count {
            Some(v) => v,
            None => o.retry_count,
        },
        run_deps_in_parallel: match c.run_deps_in_parallel {
            Some(v) => v,
            None => o.run_deps_in_parallel,
        },
        run_in_ci: match c.run_in_ci {
            Some(v) => v,
            None => o.run_in_ci,
        },
        run_from_workspace_root: match c.run_from_workspace_root {
            Some(v) => v,
            None => o.run_from_workspace_root,
        },
        shell: match c.shell {
            Some(v) => Some(v),
            None => o.shell,
        },
    }
}

pub open spec fn fold_options(o: TaskOptionsView, chain: Seq<Link>) -> TaskOptionsView
    decreases chain.len(),
{
    if chain.len() == 0 {
        o
    } else {
        apply_options(fold_options(o, chain.drop_last()), chain.last().0.options)
    }
}

/// An interactive task streams its output and is neither cached, persistent
/// nor run in CI.
pub open spec fn finish_options(o: TaskOptionsView) -> TaskOptionsView {
    if o.interactive {
        TaskOptionsView {
            cache: false,
            output_style: Some(crate::config::TaskOutputStyle::Stream),
            persistent: false,
            run_in_ci: false,
            ..o
        }
    } else {
        o
    }
}

/// The options of a task built from `chain`.
pub open spec fn task_options(chain: Seq<Link>, is_local: bool) -> TaskOptionsView {
    finish_options(fold_options(initial_options(is_local), chain))
}

/// The values of a task that the configurations of its chain build up.
pub struct MergeState {
    pub deps: Seq<TargetView>,
    pub env: Map<Seq<char>, Seq<char>>,
    pub global_inputs: Seq<InputV>,
    pub inputs: Seq<InputV>,
    pub outputs: Seq<OutputV>,
    /// Inputs configured since the last replacement by an empty list.
    pub configured: nat,
    pub has_configured: bool,
    pub platform: PlatformType,
}

/// What one configuration adds to the task.
pub open spec fn merge_step(s: MergeState, link: Link, o: TaskOptionsView, filters: Option<FiltersView>) -> MergeState {
    let c = link.0;
    MergeState {
        deps: merged_list(s.deps, if link.1 { filter_deps(filters, c.deps) } else { c.deps }, o.merge_deps, true),
        env: merged_map(s.env, c.env, o.merge_env),
        global_inputs: s.global_inputs + c.global_inputs,
        inputs: match c.inputs {
            Some(i) => merged_list(s.inputs, i, o.merge_inputs, true),
            None => s.inputs,
        },
        outputs: match c.outputs {
            Some(i) => merged_list(s.outputs, i, o.merge_outputs, true),
            None => s.outputs,
        },
        configured: match c.inputs {
            Some(i) => if i.len() == 0 && o.merge_inputs == TaskMergeStrategy::Replace {
                0
            } else {
                s.configured + i.len()
            },
            None => s.configured,
        },
        has_configured: s.has_configured || c.inputs is Some,
        platform: if c.platform != PlatformType::Unknown { c.platform } else { s.platform },
    }
}

pub open spec fn merge_links(s: MergeState, chain: Seq<Link>, o: TaskOptionsView, filters: Option<FiltersView>) -> MergeState
    decreases chain.len(),
{
    if chain.len() == 0 {
        s
    } else {
        merge_step(merge_links(s, chain.drop_last(), o, filters), chain.last(), o, filters)
    }
}

/// The inputs that every task has besides its configured ones: the implicit
/// inputs, the workspace configuration, and the env file.
pub open spec fn base_global_inputs(implicit_inputs: Seq<InputV>, o: TaskOptionsView) -> Seq<InputV> {
    let s = implicit_inputs.push((InputKind::WorkspaceGlob, ".moon/*.yml"@));
    match o.env_file {
        Some(e) => s.push(e),
        None => s,
    }
}

/// What the builder knows when it builds a task.
pub struct BuilderView {
    pub project_id: Seq<char>,
    pub project_env: Map<Seq<char>, Seq<char>>,
    pub project_platform: PlatformType,
    pub implicit_deps: Seq<TargetView>,
    pub implicit_inputs: Seq<InputV>,
    pub task_ids: Set<Seq<char>>,
    pub global_tasks: Map<Seq<char>, TaskConfigView>,
    pub local_tasks: Map<Seq<char>, TaskConfigView>,
    pub filters: Option<FiltersView>,
    pub legacy: bool,
}

/// The target of task `id` of the project.
pub open spec fn task_target(project_id: Seq<char>, id: Seq<char>) -> TargetView {
    TargetView { id: target_label((ScopeKind::Project, project_id), id), scope: (ScopeKind::Project, project_id), task_id: id }
}

/// The task `id` as built before its platform is detected, or the first error.
pub open spec fn prepared_task(b: BuilderView, id: Seq<char>) -> Result<TaskView, BuildError> {
    match inherit_chain(b.legacy, id, b.local_tasks, b.global_tasks) {
        Err(x) => Err(BuildError::UnknownExtendsSource(x.0, x.1)),
        Ok(chain) => match chain_split(chain) {
            Err(line) => Err(BuildError::ArgsSplit(line)),
            Ok(splits) => Ok(task_from_chain(b, id, chain, splits)),
        },
    }
}

/// The task built from the configurations of its chain and their programs
/// and arguments.
pub open spec fn task_from_chain(b: BuilderView, id: Seq<char>, chain: Seq<Link>, splits: Seq<(Option<Seq<char>>, Seq<Seq<char>>)>) -> TaskView {
    let is_local = local_flag(chain, default_local(id));
    let options = task_options(chain, is_local);
    let start = MergeState {
        deps: Seq::empty(),
        env: b.project_env,
        global_inputs: base_global_inputs(b.implicit_inputs, options),
        inputs: Seq::empty(),
        outputs: Seq::empty(),
        configured: 0,
        has_configured: false,
        platform: PlatformType::Unknown,
    };
    let st = merge_links(start, chain, options, b.filters);
    let no_inputs = st.configured == 0 && !st.has_configured;
    let inputs = if no_inputs { st.inputs.push((InputKind::ProjectGlob, "**/*"@)) } else { st.inputs };
    let command = last_command(splits, Seq::empty());
    TaskView {
        args: fold_args(Seq::empty(), splits, options.merge_args),
        command: if command.len() == 0 { "noop"@ } else { command },
        deps: if b.implicit_deps.len() == 0 { st.deps } else { merged_list(st.deps, b.implicit_deps, TaskMergeStrategy::Append, true) },
        env: st.env,
        flags: TaskFlags { empty_inputs: st.configured == 0 && st.has_configured, local: is_local },
        id,
        inputs: if st.global_inputs.len() == 0 { inputs } else { merged_list(inputs, st.global_inputs, TaskMergeStrategy::Append, true) },
        options,
        outputs: st.outputs,
        platform: st.platform,
        target: task_target(b.project_id, id),
        type_of: if st.outputs.len() > 0 {
            TaskType::Build
        } else if is_local {
            TaskType::Run
        } else {
            TaskType::Test
        },
    }
}

/// The platform of a task: its configured one, else the detected one, else
/// the project's, else the system.
pub open spec fn resolved_platform(current: PlatformType, detected: PlatformType, project_platform: PlatformType) -> PlatformType {
    if current != PlatformType::Unknown {
        current
    } else if detected != PlatformType::Unknown {
        detected
    } else if project_platform != PlatformType::Unknown {
        project_platform
    } else {
        PlatformType::System
    }
}

/// The task once its platform is known: a task without a shell setting runs
/// in a shell on Windows hosts and on the system platform.
pub open spec fn finished_task(t: TaskView, detected: PlatformType, project_platform: PlatformType, windows_host: bool) -> TaskView {
    let platform = resolved_platform(t.platform, detected, project_platform);
    TaskView {
        platform,
        options: if t.options.shell is None && (windows_host || platform == PlatformType::System) {
            TaskOptionsView { shell: Some(true), ..t.options }
        } else {
            t.options
        },
        ..t
    }
}

} // verus!
