use vstd::prelude::*;
use vstd::string::StringExecFns;
use crate::args;
use crate::builder::{DetectPlatformEvent, TasksBuilder};
use crate::builder_spec::{
    InputV, MergeState, apply_options, base_global_inputs, chain_split, default_local, filter_deps, fold_args,
    finished_task, fold_options, initial_options, last_command, local_flag, merge_links, merge_step, prepared_task,
    renamed_dep, task_options, };
use crate::config::{PlatformType, TaskConfig, TaskOptionsConfig, TaskOutputStyle, TaskType};
use crate::error::{BuildError, TasksBuilderError};
use crate::id_map::IdMap;
use crate::inherit::{ConfigChain, Link, chain_ends, chain_result, config_inherit_chain, inherit_chain};
use crate::items::{Copyable, MergeItem, contains_item, copy_vec, extend_copies, views};
use crate::merge::{TaskMergeStrategy, merge_map, merge_vec, merged_list, merged_map};
use crate::paths::{InputPath, OutputPath};
use crate::target::Target;
use crate::task::{Task, TaskFlags, TaskOptions};

verus! {

/// The options after `config`: each option it sets replaces the value so far.
fn apply_options_config(options: &TaskOptions, config: &TaskOptionsConfig) -> (r: TaskOptions)
    ensures
        r@ == apply_options(options@, config@),
{
    let env_file = match &config.env_file {
        Some(env_file) => env_file.to_input_path(),
        None => match &options.env_file {
            Some(p) => Some(p.duplicate()),
            None => None,
        },
    };
    TaskOptions {
        affected_files: match config.affected_files {
            Some(v) => Some(v),
            None => options.affected_files,
        },
        allow_failure: match config.allow_failure {
            Some(v) => v,
            None => options.allow_failure,
        },
        cache: match config.cache {
            Some(v) => v,
            None => options.cache,
        },
        env_file,
        interactive: match config.interactive {
            Some(v) => v,
            None => options.interactive,
        },
        merge_args: match config.merge_args {
            Some(v) => v,
            None => options.merge_args,
        },
        merge_deps: match config.merge_deps {
            Some(v) => v,
            None => options.merge_deps,
        },
        merge_env: match config.merge_env {
            Some(v) => v,
            None => options.merge_env,
        },
        merge_inputs: match config.merge_inputs {
            Some(v) => v,
            None => options.merge_inputs,
        },
        merge_outputs: match config.merge_outputs {
            Some(v) => v,
            None => options.merge_outputs,
        },
        output_style: match config.output_style {
            Some(v) => Some(v),
            None => options.output_style,
        },
        persistent: match config.persistent {
            Some(v) => v,
            None => options.persistent,
        },
        retry_count: match config.retry_count {
            Some(v) => v,
            None => options.retry_count,
        },
        run_deps_in_parallel: match config.run_deps_in_parallel {
            Some(v) => v,
            None => options.run_deps_in_parallel,
        },
        run_in_ci: match config.run_in_ci {
            Some(v) => v,
            None => options.run_in_ci,
        },
        run_from_workspace_root: match config.run_from_workspace_root {
            Some(v) => v,
            None => options.run_from_workspace_root,
        },
        shell: match config.shell {
            Some(v) => Some(v),
            None => options.shell,
        },
    }
}

impl TasksBuilder {
    /// The configurations that task `id` is built from, in the order in which they apply.
    pub fn get_config_inherit_chain(&self, id: &String, _inspect: bool) -> (r: Result<Vec<ConfigChain>, TasksBuilderError>)
        requires
            chain_ends(self@.legacy, id@, self@.local_tasks, self@.global_tasks),
        ensures
            chain_result(r) == inherit_chain(self@.legacy, id@, self@.local_tasks, self@.global_tasks),
            r matches Err(e) ==> e@ is UnknownExtendsSource,
    {
        match config_inherit_chain(self.context.legacy_task_inheritance, id, &self.local_tasks, &self.global_tasks) {
            Some(chain) => chain,
            None => {
                // The chain of `id` ends, so the walk found no cycle.
                assert(false);
                Ok(Vec::new())
            },
        }
    }

    /// The options of task `id`: the defaults for a local or a shared task,
    /// then each configuration's options in order, then the constraints of an
    /// interactive task.
    pub fn build_task_options(&self, id: &String, is_local: bool) -> (r: Result<TaskOptions, TasksBuilderError>)
        requires
            chain_ends(self@.legacy, id@, self@.local_tasks, self@.global_tasks),
        ensures
            match inherit_chain(self@.legacy, id@, self@.local_tasks, self@.global_tasks) {
                Ok(chain) => r matches Ok(o) && o@ == task_options(chain, is_local),
                Err(x) => r matches Err(e) && e@ == BuildError::UnknownExtendsSource(x.0, x.1),
            },
    {
        let mut options = TaskOptions::new();
        options.cache = !is_local;
        options.interactive = false;
        options.output_style = if is_local { Some(TaskOutputStyle::Stream) } else { None };
        options.persistent = is_local;
        options.run_in_ci = !is_local;
        assert(options@ == initial_options(is_local));
        let chain = match self.get_config_inherit_chain(id, false) {
            Ok(chain) => chain,
            Err(e) => {
                proof {
                    if let BuildError::UnknownExtendsSource(s, t) = e@ {
                        assert(chain_result(Err::<Vec<ConfigChain>, TasksBuilderError>(e)) == Err::<Seq<Link>, (Seq<char>, Seq<char>)>((s, t)));
                    }
                }
                return Err(e);
            },
        };
        let ghost links = views(chain@);
        let mut i: usize = 0;
        while i < chain.len()
            invariant
                i <= chain@.len(),
                links == views(chain@),
                options@ == fold_options(initial_options(is_local), links.take(i as int)),
            decreases chain@.len() - i,
        {
            assert(links.take(i as int + 1).drop_last() =~= links.take(i as int));
            assert(links[i as int] == chain@[i as int]@);
            options = apply_options_config(&options, &chain[i].config.options);
            i += 1;
        }
        assert(links.take(chain@.len() as int) =~= links);
        if options.interactive {
            options.cache = false;
            options.output_style = Some(TaskOutputStyle::Stream);
            options.persistent = false;
            options.run_in_ci = false;
        }
        Ok(options)
    }

    /// The implicit dependencies that every task inherits.
    pub fn build_global_deps(&self, target: &Target) -> (r: Result<Vec<Target>, TasksBuilderError>)
        ensures
            r matches Ok(deps) && views(deps@) == self@.implicit_deps,
    {
        Ok(copy_vec(&self.implicit_deps))
    }

    /// The inputs that every task has besides its configured ones.
    pub fn build_global_inputs(&self, target: &Target, options: &TaskOptions) -> (r: Result<Vec<InputPath>, TasksBuilderError>)
        ensures
            r matches Ok(inputs) && views(inputs@) == base_global_inputs(self@.implicit_inputs, options@),
    {
        let mut global_inputs = copy_vec(&self.implicit_inputs);
        let ghost before = views(global_inputs@);
        global_inputs.push(InputPath::WorkspaceGlob(String::from_str(".moon/*.yml")));
        assert(views(global_inputs@) =~= before.push((crate::paths::InputKind::WorkspaceGlob, ".moon/*.yml"@)));
        if let Some(env_file) = &options.env_file {
            let ghost mid = views(global_inputs@);
            global_inputs.push(env_file.duplicate());
            assert(views(global_inputs@) =~= mid.push(env_file@));
        }
        Ok(global_inputs)
    }

    /// The environment of the project, which every task starts from.
    pub fn build_env(&self, target: &Target) -> (r: Result<IdMap<String>, TasksBuilderError>)
        ensures
            r matches Ok(env) && env@ == self@.project_env,
    {
        Ok(self.project_env.duplicate())
    }

    /// The dependencies of an inherited task after the project's filters:
    /// those on excluded tasks dropped, the others renamed.
    pub fn apply_filters_to_deps(&self, deps: Vec<Target>) -> (r: Vec<Target>)
        ensures
            views(r@) == filter_deps(self@.filters, views(deps@)),
    {
        match &self.filters {
            None => deps,
            Some(filters) => {
                let ghost f = filters@;
                let ghost ds = views(deps@);
                let mut out: Vec<Target> = Vec::new();
                assert(views(out@) =~= filter_deps(Some(f), ds.take(0)));
                let mut i: usize = 0;
                while i < deps.len()
                    invariant
                        i <= deps@.len(),
                        ds == views(deps@),
                        f == filters@,
                        self@.filters == Some(f),
                        views(out@) == filter_deps(Some(f), ds.take(i as int)),
                    decreases deps@.len() - i,
                {
                    assert(ds.take(i as int + 1).drop_last() =~= ds.take(i as int));
                    assert(ds.take(i as int + 1).last() == deps@[i as int]@);
                    let dep = &deps[i];
                    if !contains_item(&filters.exclude, &dep.task_id) {
                        let mut d = dep.duplicate();
                        if let Some(new_task_id) = filters.rename.get(&dep.task_id) {
                            d.id = Target::format(&d.scope, new_task_id);
                            d.task_id = new_task_id.clone();
                        }
                        assert(d@ == renamed_dep(f, dep@));
                        let ghost before = views(out@);
                        out.push(d);
                        assert(views(out@) =~= before.push(d@));
                    }
                    i += 1;
                }
                assert(ds.take(deps@.len() as int) =~= ds);
                out
            },
        }
    }

    /// Merges two maps as `strategy` says (see `merge_map`).
    pub fn merge_map<V: View>(&self, base: IdMap<V>, next: IdMap<V>, strategy: TaskMergeStrategy) -> (r: IdMap<V>)
        ensures
            r@ == merged_map(base@, next@, strategy),
    {
        merge_map(base, next, strategy)
    }

    /// Merges two lists as `strategy` says (see `merge_vec`).
    pub fn merge_vec<T: MergeItem>(&self, base: Vec<T>, next: Vec<T>, strategy: TaskMergeStrategy, dedupe: bool) -> (r: Vec<T>)
        ensures
            views(r@) == merged_list(views(base@), views(next@), strategy, dedupe),
    {
        merge_vec(base, next, strategy, dedupe)
    }

    /// The program and the arguments of a task configuration.
    pub fn get_command_and_args(&self, config: &TaskConfig) -> (r: Result<(Option<String>, Vec<String>), TasksBuilderError>)
        ensures
            r matches Ok(ca) ==> (args::config_command_and_args(config@) matches Ok(s)
                && s.0 == (match ca.0 {
                    Some(c) => Some(c@),
                    None => None::<Seq<char>>,
                }) && s.1 == views(ca.1@)),
            r matches Err(e) ==> (args::config_command_and_args(config@) matches Err(line) && e@ == BuildError::ArgsSplit(line)),
    {
        args::get_command_and_args(config)
    }
}

/// A failure to split stays the first failure however many configurations follow.
pub proof fn lemma_split_error_stays(s: Seq<Link>, i: int)
    requires
        0 <= i <= s.len(),
        chain_split(s.take(i)) is Err,
    ensures
        chain_split(s) == chain_split(s.take(i)),
    decreases s.len(),
{
    if i == s.len() {
        assert(s.take(i) =~= s);
    } else {
        assert(s.drop_last().take(i) =~= s.take(i));
        lemma_split_error_stays(s.drop_last(), i);
    }
}

fn is_default_local(id: &String) -> (r: bool)
    ensures
        r == default_local(id@),
{
    *id == String::from_str("dev") || *id == String::from_str("serve") || *id == String::from_str("start")
}

/// The values that the configurations of a chain build up.
struct MergeOut {
    deps: Vec<Target>,
    env: IdMap<String>,
    global_inputs: Vec<InputPath>,
    inputs: Vec<InputPath>,
    outputs: Vec<OutputPath>,
    configured: usize,
    has_configured: bool,
    platform: PlatformType,
}

spec fn capped(n: nat) -> int {
    if n > usize::MAX { usize::MAX as int } else { n as int }
}

spec fn out_matches(out: MergeOut, st: MergeState) -> bool {
    &&& views(out.deps@) == st.deps
    &&& out.env@ == st.env
    &&& views(out.global_inputs@) == st.global_inputs
    &&& views(out.inputs@) == st.inputs
    &&& views(out.outputs@) == st.outputs
    &&& out.configured as int == capped(st.configured)
    &&& out.has_configured == st.has_configured
    &&& out.platform == st.platform
}

impl TasksBuilder {
    /// The program, the argument lists and whether the task is local, from
    /// each configuration of the chain in order.
    fn collect_commands(&self, chain: &Vec<ConfigChain>, id: &String) -> (r: Result<(String, Vec<Vec<String>>, bool), TasksBuilderError>)
        ensures
            match chain_split(views(chain@)) {
                Ok(splits) => r matches Ok(x) && x.0@ == last_command(splits, Seq::empty())
                    && x.1@.len() == splits.len()
                    && (forall|j: int| 0 <= j < splits.len() ==> views(#[trigger] x.1@[j]@) == splits[j].1)
                    && x.2 == local_flag(views(chain@), default_local(id@)),
                Err(line) => r matches Err(e) && e@ == BuildError::ArgsSplit(line),
            },
    {
        let ghost links = views(chain@);
        let mut command = String::new();
        let mut args_sets: Vec<Vec<String>> = Vec::new();
        let mut is_local = is_default_local(id);
        let mut i: usize = 0;
        while i < chain.len()
            invariant
                i <= chain@.len(),
                links == views(chain@),
                chain_split(links.take(i as int)) matches Ok(splits) && command@ == last_command(splits, Seq::empty())
                    && args_sets@.len() == splits.len()
                    && (forall|j: int| 0 <= j < splits.len() ==> views(#[trigger] args_sets@[j]@) == splits[j].1)
                    && is_local == local_flag(links.take(i as int), default_local(id@)),
            decreases chain@.len() - i,
        {
            let ghost prev = links.take(i as int);
            assert(links.take(i as int + 1).drop_last() =~= prev);
            assert(links.take(i as int + 1).last() == chain@[i as int]@);
            let config = &chain[i].config;
            match self.get_command_and_args(config) {
                Err(e) => {
                    proof { lemma_split_error_stays(links, i as int + 1); }
                    return Err(e);
                },
                Ok((cmd, base_args)) => {
                    let ghost prev_splits = chain_split(prev)->Ok_0;
                    let ghost x = crate::args::config_command_and_args(chain@[i as int]@.0)->Ok_0;
                    let ghost splits = prev_splits.push(x);
                    assert(chain_split(links.take(i as int + 1)) == Ok::<Seq<(Option<Seq<char>>, Seq<Seq<char>>)>, Seq<char>>(splits));
                    assert(splits.drop_last() =~= prev_splits);
                    if let Some(cmd) = cmd {
                        command = cmd;
                    }
                    assert(command@ == last_command(splits, Seq::empty()));
                    let ghost old_sets = args_sets@;
                    args_sets.push(base_args);
                    assert forall|j: int| 0 <= j < splits.len() implies views(#[trigger] args_sets@[j]@) == splits[j].1 by {
                        if j < old_sets.len() {
                            assert(args_sets@[j] == old_sets[j]);
                        }
                    }
                    if let Some(local) = config.local {
                        is_local = local;
                    }
                    assert(is_local == local_flag(links.take(i as int + 1), default_local(id@)));
                },
            }
            i += 1;
        }
        assert(links.take(chain@.len() as int) =~= links);
        Ok((command, args_sets, is_local))
    }

    /// The arguments of each configuration merged in order.
    fn merge_args_sets(&self, args_sets: &Vec<Vec<String>>, strategy: TaskMergeStrategy, Ghost(splits): Ghost<Seq<(Option<Seq<char>>, Seq<Seq<char>>)>>) -> (r: Vec<String>)
        requires
            args_sets@.len() == splits.len(),
            forall|j: int| 0 <= j < splits.len() ==> views(#[trigger] args_sets@[j]@) == splits[j].1,
        ensures
            views(r@) == fold_args(Seq::empty(), splits, strategy),
    {
        let mut args: Vec<String> = Vec::new();
        assert(views(args@) =~= Seq::<Seq<char>>::empty());
        let mut i: usize = 0;
        while i < args_sets.len()
            invariant
                i <= args_sets@.len(),
                args_sets@.len() == splits.len(),
                forall|j: int| 0 <= j < splits.len() ==> views(#[trigger] args_sets@[j]@) == splits[j].1,
                views(args@) == fold_args(Seq::empty(), splits.take(i as int), strategy),
            decreases args_sets@.len() - i,
        {
            assert(splits.take(i as int + 1).drop_last() =~= splits.take(i as int));
            assert(views(args_sets@[i as int]@) == splits[i as int].1);
            let next = copy_vec(&args_sets[i]);
            args = merge_vec(args, next, strategy, false);
            i += 1;
        }
        assert(splits.take(splits.len() as int) =~= splits);
        args
    }

    /// What one configuration of the chain adds to the task.
    fn merge_link(&self, out: MergeOut, link: &ConfigChain, options: &TaskOptions) -> (r: MergeOut)
        ensures
            forall|st: MergeState| out_matches(out, st) ==> out_matches(r, merge_step(st, link@, options@, self@.filters)),
    {
        let config = &link.config;
        let next_deps = if link.inherited {
            self.apply_filters_to_deps(copy_vec(&config.deps))
        } else {
            copy_vec(&config.deps)
        };
        let deps = merge_vec(out.deps, next_deps, options.merge_deps, true);
        let env = merge_map(out.env, config.env.duplicate(), options.merge_env);
        let mut global_inputs = out.global_inputs;
        let ghost gi0 = views(global_inputs@);
        if config.global_inputs.len() > 0 {
            extend_copies(&mut global_inputs, &config.global_inputs);
        } else {
            assert(gi0 + views(config.global_inputs@) =~= gi0);
        }
        let mut configured = out.configured;
        let mut has_configured = out.has_configured;
        let inputs = match &config.inputs {
            Some(inputs) => {
                has_configured = true;
                if inputs.len() == 0 && options.merge_inputs == TaskMergeStrategy::Replace {
                    configured = 0;
                } else {
                    configured = configured.saturating_add(inputs.len());
                }
                merge_vec(out.inputs, copy_vec(inputs), options.merge_inputs, true)
            },
            None => out.inputs,
        };
        let outputs = match &config.outputs {
            Some(outputs) => merge_vec(out.outputs, copy_vec(outputs), options.merge_outputs, true),
            None => out.outputs,
        };
        let platform = if !config.platform.is_unknown() { config.platform } else { out.platform };
        MergeOut { deps, env, global_inputs, inputs, outputs, configured, has_configured, platform }
    }

    /// The task `id` as far as it can be built before its platform is
    /// detected: command, arguments, options, dependencies, environment,
    /// inputs and outputs merged along its chain of configurations, the
    /// implicit dependencies and inputs added, and its target and type set.
    pub fn build_task(&self, id: &String) -> (r: Result<Task, TasksBuilderError>)
        requires
            chain_ends(self@.legacy, id@, self@.local_tasks, self@.global_tasks),
        ensures
            match prepared_task(self@, id@) {
                Ok(t) => r matches Ok(task) && task@ == t,
                Err(e) => r matches Err(x) && x@ == e,
            },
    {
        let target = Target::new(&self.project_id, id);
        let chain = match self.get_config_inherit_chain(id, true) {
            Ok(chain) => chain,
            Err(e) => {
                proof {
                    if let BuildError::UnknownExtendsSource(s, t) = e@ {
                        assert(chain_result(Err::<Vec<ConfigChain>, TasksBuilderError>(e)) == Err::<Seq<Link>, (Seq<char>, Seq<char>)>((s, t)));
                    }
                }
                return Err(e);
            },
        };
        let ghost links = views(chain@);
        let (command, args_sets, is_local) = self.collect_commands(&chain, id)?;
        let ghost splits = chain_split(links)->Ok_0;
        let options = self.build_task_options(id, is_local)?;
        let global_deps = self.build_global_deps(&target)?;
        let global_inputs = self.build_global_inputs(&target, &options)?;
        let args = self.merge_args_sets(&args_sets, options.merge_args, Ghost(splits));
        let env = self.build_env(&target)?;

        let ghost start = MergeState {
            deps: Seq::empty(),
            env: self@.project_env,
            global_inputs: base_global_inputs(self@.implicit_inputs, options@),
            inputs: Seq::empty(),
            outputs: Seq::empty(),
            configured: 0,
            has_configured: false,
            platform: PlatformType::Unknown,
        };
        let mut out = MergeOut {
            deps: Vec::new(),
            env,
            global_inputs,
            inputs: Vec::new(),
            outputs: Vec::new(),
            configured: 0,
            has_configured: false,
            platform: PlatformType::Unknown,
        };
        assert(views(out.deps@) =~= Seq::<crate::target::TargetView>::empty());
        assert(views(out.inputs@) =~= Seq::<InputV>::empty());
        assert(views(out.outputs@) =~= Seq::<crate::builder_spec::OutputV>::empty());
        let mut i: usize = 0;
        while i < chain.len()
            invariant
                i <= chain@.len(),
                links == views(chain@),
                out_matches(out, merge_links(start, links.take(i as int), options@, self@.filters)),
            decreases chain@.len() - i,
        {
            assert(links.take(i as int + 1).drop_last() =~= links.take(i as int));
            assert(links.take(i as int + 1).last() == chain@[i as int]@);
            out = self.merge_link(out, &chain[i], &options);
            i += 1;
        }
        assert(links.take(chain@.len() as int) =~= links);
        let ghost st = merge_links(start, links, options@, self@.filters);

        let mut flags = TaskFlags { empty_inputs: false, local: is_local };
        let mut inputs = out.inputs;
        if out.configured == 0 {
            if out.has_configured {
                flags.empty_inputs = true;
            } else {
                let ghost before = views(inputs@);
                inputs.push(InputPath::ProjectGlob(String::from_str("**/*")));
                assert(views(inputs@) =~= before.push((crate::paths::InputKind::ProjectGlob, "**/*"@)));
            }
        }
        let command = if command.as_str().is_empty() { String::from_str("noop") } else { command };
        let deps = if global_deps.len() > 0 {
            merge_vec(out.deps, global_deps, TaskMergeStrategy::Append, true)
        } else {
            out.deps
        };
        let inputs = if out.global_inputs.len() > 0 {
            merge_vec(inputs, out.global_inputs, TaskMergeStrategy::Append, true)
        } else {
            inputs
        };
        let type_of = if out.outputs.len() > 0 {
            TaskType::Build
        } else if is_local {
            TaskType::Run
        } else {
            TaskType::Test
        };
        let task = Task {
            args,
            command,
            deps,
            env: out.env,
            flags,
            id: id.clone(),
            inputs,
            options,
            outputs: out.outputs,
            platform: out.platform,
            target,
            type_of,
        };
        Ok(task)
    }
}

impl TasksBuilder {
    /// Whether following the `extends` of task `id` comes to an end, as
    /// building it needs.
    pub fn chain_ends(&self, id: &String) -> (r: bool)
        ensures
            r == chain_ends(self@.legacy, id@, self@.local_tasks, self@.global_tasks),
    {
        config_inherit_chain(self.context.legacy_task_inheritance, id, &self.local_tasks, &self.global_tasks).is_some()
    }

    /// Builds task `id` as `build_task` does where following its `extends`
    /// comes to an end, and answers `None` where it comes back to a task that
    /// it is still following (building would follow that cycle without end).
    pub fn try_build_task(&self, id: &String) -> (r: Option<Result<Task, TasksBuilderError>>)
        ensures
            r is None == !chain_ends(self@.legacy, id@, self@.local_tasks, self@.global_tasks),
            r matches Some(res) ==> match prepared_task(self@, id@) {
                Ok(t) => res matches Ok(task) && task@ == t,
                Err(e) => res matches Err(x) && x@ == e,
            },
    {
        if self.chain_ends(id) {
            Some(self.build_task(id))
        } else {
            None
        }
    }

    /// The question for platform detection, asked only about a task whose
    /// platform is still unknown.
    pub fn platform_detection(&self, task: &Task) -> (r: Option<DetectPlatformEvent>)
        ensures
            r is Some == (task.platform == PlatformType::Unknown),
            r matches Some(event) ==> event.task_command@ == task.command@
                && event.enabled_platforms@ == self.context.enabled_platforms@,
    {
        if task.platform.is_unknown() {
            let mut enabled_platforms: Vec<PlatformType> = Vec::new();
            let mut i: usize = 0;
            while i < self.context.enabled_platforms.len()
                invariant
                    i <= self.context.enabled_platforms@.len(),
                    enabled_platforms@ == self.context.enabled_platforms@.take(i as int),
                decreases self.context.enabled_platforms@.len() - i,
            {
                enabled_platforms.push(self.context.enabled_platforms[i]);
                assert(enabled_platforms@ =~= self.context.enabled_platforms@.take(i as int + 1));
                i += 1;
            }
            assert(self.context.enabled_platforms@.take(i as int) =~= self.context.enabled_platforms@);
            Some(DetectPlatformEvent { enabled_platforms, task_command: task.command.clone() })
        } else {
            None
        }
    }

    /// Completes a task with the platform that detection answered (`Unknown`
    /// where it found none): a task without a platform takes the detected
    /// one, else the project's, else the system; a task without a shell
    /// setting runs in a shell on Windows hosts and on the system platform.
    pub fn finish_task(&self, task: Task, detected: PlatformType, windows_host: bool) -> (r: Task)
        ensures
            r@ == finished_task(task@, detected, self@.project_platform, windows_host),
    {
        let platform = if !task.platform.is_unknown() {
            task.platform
        } else if !detected.is_unknown() {
            detected
        } else if !self.project_platform.is_unknown() {
            self.project_platform
        } else {
            PlatformType::System
        };
        let shell = if task.options.shell.is_none() && (windows_host || platform.is_system()) {
            Some(true)
        } else {
            task.options.shell
        };
        let ghost before = task@;
        let mut task = task;
        task.platform = platform;
        task.options.shell = shell;
        assert(task@.options == finished_task(before, detected, self@.project_platform, windows_host).options);
        task
    }
}

} // verus!
