use moon_task_builder::builder::{TasksBuilder, TasksBuilderContext};
use moon_task_builder::config::{
    InheritedTasksConfig, PlatformType, ProjectConfig, ProjectWorkspaceInheritedTasksConfig, TaskCommandArgs,
    TaskConfig, TaskOutputStyle, TaskType,
};
use moon_task_builder::error::TasksBuilderError;
use moon_task_builder::id_map::IdMap;
use moon_task_builder::merge::TaskMergeStrategy;
use moon_task_builder::paths::{InputPath, OutputPath, TaskOptionEnvFile};
use moon_task_builder::target::{Target, TargetScope};
use moon_task_builder::task::Task;

fn ctx(legacy: bool) -> TasksBuilderContext {
    TasksBuilderContext {
        enabled_platforms: vec![PlatformType::Node],
        legacy_task_inheritance: legacy,
        workspace_root: "/ws".into(),
    }
}

fn cmd(c: &str) -> TaskConfig {
    let mut t = TaskConfig::new();
    t.command = TaskCommandArgs::String(c.into());
    t
}

fn tasks(list: Vec<(&str, TaskConfig)>) -> IdMap<TaskConfig> {
    let mut m = IdMap::new();
    for (k, v) in list {
        m.insert(k.to_string(), v);
    }
    m
}

fn global(list: Vec<(&str, TaskConfig)>) -> InheritedTasksConfig {
    InheritedTasksConfig { tasks: tasks(list), implicit_deps: vec![], implicit_inputs: vec![] }
}

fn project(list: Vec<(&str, TaskConfig)>) -> ProjectConfig {
    ProjectConfig { env: IdMap::new(), tasks: tasks(list) }
}

fn dep(project: &str, task: &str) -> Target {
    Target::new(&project.to_string(), &task.to_string())
}

fn ids(b: &TasksBuilder) -> Vec<String> {
    let mut v = b.task_ids.clone();
    v.sort();
    v
}

fn build(b: &TasksBuilder, id: &str) -> Result<Task, TasksBuilderError> {
    let task = b.try_build_task(&id.to_string()).expect("the chain of extends ends")?;
    Ok(b.finish_task(task, PlatformType::Unknown, false))
}

fn has_input(t: &Task, p: &InputPath) -> bool {
    t.inputs.iter().any(|i| format!("{:?}", i) == format!("{:?}", p))
}

#[test]
fn inherits_all_without_filters() {
    let g = global(vec![("build", cmd("tsc")), ("lint", cmd("eslint"))]);
    let mut b = TasksBuilder::new("app", "apps/app", &PlatformType::Node, ctx(false));
    b.inherit_global_tasks(&g, None);
    assert_eq!(ids(&b), vec!["build", "lint"]);
}

#[test]
fn empty_include_inherits_nothing() {
    let g = global(vec![("build", cmd("tsc")), ("lint", cmd("eslint"))]);
    let f = ProjectWorkspaceInheritedTasksConfig { exclude: vec![], included: Some(vec![]), rename: IdMap::new() };
    let mut b = TasksBuilder::new("app", "apps/app", &PlatformType::Node, ctx(false));
    b.inherit_global_tasks(&g, Some(&f));
    assert!(b.task_ids.is_empty());
    assert!(b.global_tasks.is_empty());
}

#[test]
fn include_exclude_and_rename() {
    let g = global(vec![("build", cmd("tsc")), ("lint", cmd("eslint")), ("test", cmd("jest"))]);
    let mut rename = IdMap::new();
    rename.insert("build".to_string(), "compile".to_string());
    let f = ProjectWorkspaceInheritedTasksConfig {
        exclude: vec!["lint".into()],
        included: Some(vec!["build".into(), "lint".into()]),
        rename,
    };
    let mut b = TasksBuilder::new("app", "apps/app", &PlatformType::Node, ctx(false));
    b.inherit_global_tasks(&g, Some(&f));
    assert_eq!(ids(&b), vec!["compile"]);
    assert!(b.global_tasks.contains_key(&"compile".to_string()));
}

#[test]
fn local_tasks_and_env_are_loaded() {
    let mut p = project(vec![("dev", cmd("vite"))]);
    p.env.insert("NODE_ENV".into(), "production".into());
    let mut b = TasksBuilder::new("app", "apps/app", &PlatformType::Node, ctx(false));
    b.load_local_tasks(&p);
    assert_eq!(ids(&b), vec!["dev"]);
    let t = build(&b, "dev").unwrap();
    assert_eq!(t.env.get(&"NODE_ENV".to_string()).map(|s| s.as_str()), Some("production"));
}

#[test]
fn local_config_applies_after_inherited() {
    let mut g_build = cmd("tsc --build");
    g_build.outputs = Some(vec![OutputPath::ProjectGlob("lib/**/*".into())]);
    let mut l_build = cmd("tsc");
    l_build.args = TaskCommandArgs::List(vec!["--watch".into()]);
    let g = global(vec![("build", g_build)]);
    let p = project(vec![("build", l_build)]);
    for legacy in [false, true] {
        let mut b = TasksBuilder::new("app", "apps/app", &PlatformType::Node, ctx(legacy));
        b.inherit_global_tasks(&g, None).load_local_tasks(&p);
        let t = build(&b, "build").unwrap();
        assert_eq!(t.command, "tsc");
        assert_eq!(t.args, vec!["--build", "--watch"]);
        assert_eq!(t.type_of, TaskType::Build);
        assert_eq!(t.target.id, "app:build");
        assert_eq!(t.id, "build");
    }
}

#[test]
fn default_command_inputs_and_type() {
    let p = project(vec![("check", TaskConfig::new())]);
    let mut b = TasksBuilder::new("app", "apps/app", &PlatformType::Unknown, ctx(false));
    b.load_local_tasks(&p);
    let t = build(&b, "check").unwrap();
    assert_eq!(t.command, "noop");
    assert_eq!(t.type_of, TaskType::Test);
    assert!(has_input(&t, &InputPath::ProjectGlob("**/*".into())));
    assert!(has_input(&t, &InputPath::WorkspaceGlob(".moon/*.yml".into())));
    assert!(!t.flags.empty_inputs);
    assert_eq!(t.platform, PlatformType::System);
    assert_eq!(t.options.shell, Some(true));
}

#[test]
fn empty_inputs_are_flagged() {
    let mut c = cmd("echo");
    c.inputs = Some(vec![]);
    let p = project(vec![("hello", c)]);
    let mut b = TasksBuilder::new("app", "apps/app", &PlatformType::Node, ctx(false));
    b.load_local_tasks(&p);
    let t = build(&b, "hello").unwrap();
    assert!(t.flags.empty_inputs);
    assert!(!has_input(&t, &InputPath::ProjectGlob("**/*".into())));
    assert_eq!(t.inputs.len(), 1);
}

#[test]
fn replace_with_empty_inputs_resets_the_count() {
    let mut g_test = cmd("jest");
    g_test.inputs = Some(vec![InputPath::ProjectGlob("src/**/*".into())]);
    let mut l_test = TaskConfig::new();
    l_test.inputs = Some(vec![]);
    l_test.options.merge_inputs = Some(TaskMergeStrategy::Replace);
    let mut b = TasksBuilder::new("app", "apps/app", &PlatformType::Node, ctx(false));
    b.inherit_global_tasks(&global(vec![("test", g_test)]), None).load_local_tasks(&project(vec![("test", l_test)]));
    let t = build(&b, "test").unwrap();
    assert!(t.flags.empty_inputs);
    assert!(!has_input(&t, &InputPath::ProjectGlob("src/**/*".into())));
}

#[test]
fn local_tasks_by_name() {
    let p = project(vec![("start", cmd("node server.js")), ("serve2", cmd("node x.js"))]);
    let mut b = TasksBuilder::new("app", "apps/app", &PlatformType::Node, ctx(false));
    b.load_local_tasks(&p);
    let t = build(&b, "start").unwrap();
    assert!(t.flags.local);
    assert_eq!(t.type_of, TaskType::Run);
    assert!(!t.options.cache);
    assert!(t.options.persistent);
    assert!(!t.options.run_in_ci);
    assert_eq!(t.options.output_style, Some(TaskOutputStyle::Stream));
    let t = build(&b, "serve2").unwrap();
    assert!(!t.flags.local);
    assert!(t.options.cache);
}

#[test]
fn interactive_task_options() {
    let mut c = cmd("prompt");
    c.options.interactive = Some(true);
    c.options.cache = Some(true);
    c.options.run_in_ci = Some(true);
    let mut b = TasksBuilder::new("app", "apps/app", &PlatformType::Node, ctx(false));
    b.load_local_tasks(&project(vec![("ask", c)]));
    let t = build(&b, "ask").unwrap();
    assert!(t.options.interactive);
    assert!(!t.options.cache);
    assert!(!t.options.run_in_ci);
    assert!(!t.options.persistent);
    assert_eq!(t.options.output_style, Some(TaskOutputStyle::Stream));
}

#[test]
fn env_file_becomes_an_input() {
    let mut c = cmd("node");
    c.options.env_file = Some(TaskOptionEnvFile::Enabled(true));
    let mut b = TasksBuilder::new("app", "apps/app", &PlatformType::Node, ctx(false));
    b.load_local_tasks(&project(vec![("run", c)]));
    let t = build(&b, "run").unwrap();
    assert!(has_input(&t, &InputPath::ProjectFile(".env".into())));
}

#[test]
fn inherited_deps_are_filtered_and_implicit_deps_added() {
    let mut g_build = cmd("tsc");
    g_build.deps = vec![dep("lib", "lint"), dep("lib", "build")];
    let mut g = global(vec![("build", g_build)]);
    g.implicit_deps = vec![dep("shared", "prepare")];
    g.implicit_inputs = vec![InputPath::WorkspaceFile("tsconfig.json".into())];
    let mut rename = IdMap::new();
    rename.insert("build".to_string(), "compile".to_string());
    let f = ProjectWorkspaceInheritedTasksConfig { exclude: vec!["lint".into()], included: None, rename };
    let mut b = TasksBuilder::new("app", "apps/app", &PlatformType::Node, ctx(false));
    b.inherit_global_tasks(&g, Some(&f));
    let t = build(&b, "compile").unwrap();
    let dep_ids: Vec<String> = t.deps.iter().map(|d| d.id.clone()).collect();
    assert_eq!(dep_ids, vec!["lib:compile", "shared:prepare"]);
    assert_eq!(t.deps[0].task_id, "compile");
    assert!(has_input(&t, &InputPath::WorkspaceFile("tsconfig.json".into())));
}

#[test]
fn env_merge_strategies() {
    let mut g_run = cmd("node");
    g_run.env.insert("A".into(), "global".into());
    let mut l_run = TaskConfig::new();
    l_run.env.insert("A".into(), "local".into());
    l_run.options.merge_env = Some(TaskMergeStrategy::Prepend);
    let mut b = TasksBuilder::new("app", "apps/app", &PlatformType::Node, ctx(false));
    b.inherit_global_tasks(&global(vec![("run", g_run)]), None).load_local_tasks(&project(vec![("run", l_run)]));
    let t = build(&b, "run").unwrap();
    assert_eq!(t.env.get(&"A".to_string()).map(|s| s.as_str()), Some("global"));
}

#[test]
fn extends_chain_non_legacy() {
    let mut base = cmd("eslint");
    base.args = TaskCommandArgs::List(vec!["--cache".into()]);
    let mut fix = TaskConfig::new();
    fix.extends = Some("lint".into());
    fix.args = TaskCommandArgs::List(vec!["--fix".into()]);
    let mut b = TasksBuilder::new("app", "apps/app", &PlatformType::Node, ctx(false));
    b.load_local_tasks(&project(vec![("lint", base), ("lint-fix", fix)]));
    let t = build(&b, "lint-fix").unwrap();
    assert_eq!(t.command, "eslint");
    assert_eq!(t.args, vec!["--cache", "--fix"]);
}

#[test]
fn extends_chain_legacy() {
    let mut base = cmd("eslint");
    base.args = TaskCommandArgs::List(vec!["--cache".into()]);
    let mut fix = TaskConfig::new();
    fix.extends = Some("lint".into());
    fix.args = TaskCommandArgs::List(vec!["--fix".into()]);
    let mut b = TasksBuilder::new("app", "apps/app", &PlatformType::Node, ctx(true));
    b.inherit_global_tasks(&global(vec![("lint", base)]), None).load_local_tasks(&project(vec![("lint-fix", fix)]));
    let t = build(&b, "lint-fix").unwrap();
    assert_eq!(t.command, "eslint");
    assert_eq!(t.args, vec!["--cache", "--fix"]);
}

#[test]
fn unknown_extends_is_an_error() {
    let mut fix = cmd("eslint");
    fix.extends = Some("missing".into());
    for legacy in [false, true] {
        let mut b = TasksBuilder::new("app", "apps/app", &PlatformType::Node, ctx(legacy));
        b.load_local_tasks(&project(vec![("lint-fix", fix.clone())]));
        let err = build(&b, "lint-fix").unwrap_err();
        assert!(matches!(err, TasksBuilderError::UnknownExtendsSource { ref source_id, ref target_id }
            if source_id == "lint-fix" && target_id == "missing"));
    }
}

#[test]
fn split_error_is_reported() {
    let mut b = TasksBuilder::new("app", "apps/app", &PlatformType::Node, ctx(false));
    b.load_local_tasks(&project(vec![("bad", cmd("echo 'oops"))]));
    let err = build(&b, "bad").unwrap_err();
    assert!(matches!(err, TasksBuilderError::ArgsSplit { ref line } if line == "echo 'oops"));
}

#[test]
fn cycles_are_detected() {
    let mut a = cmd("a");
    a.extends = Some("b".into());
    let mut bb = cmd("b");
    bb.extends = Some("a".into());
    let mut b = TasksBuilder::new("app", "apps/app", &PlatformType::Node, ctx(false));
    b.load_local_tasks(&project(vec![("a", a), ("b", bb)]));
    assert!(!b.chain_ends(&"a".to_string()));
    assert!(b.try_build_task(&"b".to_string()).is_none());
    let mut selfish = cmd("x");
    selfish.extends = Some("x".into());
    let mut b = TasksBuilder::new("app", "apps/app", &PlatformType::Node, ctx(false));
    b.load_local_tasks(&project(vec![("x", selfish)]));
    assert!(!b.chain_ends(&"x".to_string()));
}

#[test]
fn a_cycle_elsewhere_does_not_stop_a_task() {
    let mut selfish = cmd("b");
    selfish.extends = Some("b".into());
    let mut b = TasksBuilder::new("app", "apps/app", &PlatformType::Node, ctx(false));
    b.load_local_tasks(&project(vec![("a", cmd("make")), ("b", selfish)]));
    assert!(b.chain_ends(&"a".to_string()));
    assert_eq!(build(&b, "a").unwrap().command, "make");
    assert!(b.try_build_task(&"b".to_string()).is_none());
    // A task that extends into the cycle never ends either.
    let mut into = cmd("c");
    into.extends = Some("b".into());
    let mut selfish = cmd("b");
    selfish.extends = Some("b".into());
    let mut b = TasksBuilder::new("app", "apps/app", &PlatformType::Node, ctx(false));
    b.load_local_tasks(&project(vec![("c", into), ("b", selfish)]));
    assert!(!b.chain_ends(&"c".to_string()));
}

#[test]
fn legacy_cycle_overridden_by_a_local_task() {
    let mut x = cmd("x");
    x.extends = Some("y".into());
    let mut y = cmd("y");
    y.extends = Some("x".into());
    let mut b = TasksBuilder::new("app", "apps/app", &PlatformType::Node, ctx(true));
    b.inherit_global_tasks(&global(vec![("x", x), ("y", y)]), None)
        .load_local_tasks(&project(vec![("y", cmd("local-y"))]));
    let tx = build(&b, "x").unwrap();
    assert_eq!(tx.command, "x");
    let ty = build(&b, "y").unwrap();
    assert_eq!(ty.command, "local-y");
    // Without the local task the inherited cycle is followed without end.
    let mut x = cmd("x");
    x.extends = Some("y".into());
    let mut y = cmd("y");
    y.extends = Some("x".into());
    let mut b = TasksBuilder::new("app", "apps/app", &PlatformType::Node, ctx(true));
    b.inherit_global_tasks(&global(vec![("x", x), ("y", y)]), None);
    assert!(b.try_build_task(&"x".to_string()).is_none());
    assert!(!b.chain_ends(&"y".to_string()));
}

#[test]
fn platform_detection_and_resolution() {
    let mut b = TasksBuilder::new("app", "apps/app", &PlatformType::Node, ctx(false));
    let mut configured = cmd("cargo build");
    configured.platform = PlatformType::Rust;
    b.load_local_tasks(&project(vec![("plain", cmd("node x.js")), ("cargo", configured)]));
    let plain = b.build_task(&"plain".to_string()).unwrap();
    let event = b.platform_detection(&plain).unwrap();
    assert_eq!(event.task_command, "node");
    assert_eq!(event.enabled_platforms, vec![PlatformType::Node]);
    let detected = b.finish_task(plain.clone(), PlatformType::Bun, false);
    assert_eq!(detected.platform, PlatformType::Bun);
    assert_eq!(detected.options.shell, None);
    let fallback = b.finish_task(plain.clone(), PlatformType::Unknown, false);
    assert_eq!(fallback.platform, PlatformType::Node);
    let windows = b.finish_task(plain, PlatformType::Unknown, true);
    assert_eq!(windows.options.shell, Some(true));
    let cargo = b.build_task(&"cargo".to_string()).unwrap();
    assert!(b.platform_detection(&cargo).is_none());
    assert_eq!(b.finish_task(cargo, PlatformType::Node, false).platform, PlatformType::Rust);
}

#[test]
fn outputs_merge_and_dedupe() {
    let mut g_build = cmd("tsc");
    g_build.outputs = Some(vec![OutputPath::ProjectGlob("lib".into())]);
    let mut l_build = TaskConfig::new();
    l_build.outputs = Some(vec![OutputPath::ProjectGlob("lib".into()), OutputPath::ProjectFile("x.d.ts".into())]);
    let mut b = TasksBuilder::new("app", "apps/app", &PlatformType::Node, ctx(false));
    b.inherit_global_tasks(&global(vec![("build", g_build)]), None).load_local_tasks(&project(vec![("build", l_build)]));
    let t = build(&b, "build").unwrap();
    assert_eq!(t.outputs.len(), 2);
    assert_eq!(t.type_of, TaskType::Build);
}

#[test]
fn scope_of_built_target() {
    let mut b = TasksBuilder::new("web", "apps/web", &PlatformType::Node, ctx(false));
    b.load_local_tasks(&project(vec![("build", cmd("vite build"))]));
    let t = build(&b, "build").unwrap();
    assert!(matches!(t.target.scope, TargetScope::Project(ref p) if p == "web"));
}

#[test]
fn acyclic_extends_are_accepted() {
    let mut a = TaskConfig::new();
    a.extends = Some("b".into());
    let mut c = TaskConfig::new();
    c.extends = Some("a".into());
    let mut b = TasksBuilder::new("app", "apps/app", &PlatformType::Node, ctx(false));
    b.inherit_global_tasks(&global(vec![("b", cmd("make"))]), None)
        .load_local_tasks(&project(vec![("c", c), ("a", a), ("b", TaskConfig::new())]));
    assert!(b.chain_ends(&"c".to_string()));
    let t = build(&b, "c").unwrap();
    assert_eq!(t.command, "make");
}

#[test]
fn task_ids_are_the_inherited_and_local_names() {
    let mut rename = IdMap::new();
    rename.insert("lint".to_string(), "check".to_string());
    let f = ProjectWorkspaceInheritedTasksConfig { exclude: vec![], included: None, rename };
    let mut b = TasksBuilder::new("app", "apps/app", &PlatformType::Node, ctx(false));
    b.inherit_global_tasks(&global(vec![("build", cmd("tsc")), ("lint", cmd("eslint"))]), Some(&f))
        .load_local_tasks(&project(vec![("build", cmd("vite")), ("dev", cmd("vite dev"))]));
    assert_eq!(ids(&b), vec!["build", "check", "dev"]);
    let mut names: Vec<String> = b.global_tasks.entries.iter().chain(b.local_tasks.entries.iter()).map(|(k, _)| k.clone()).collect();
    names.sort();
    names.dedup();
    assert_eq!(names, ids(&b));
}

#[test]
fn self_extension_in_legacy_mode() {
    let mut selfish = cmd("x");
    selfish.extends = Some("x".into());
    let mut b = TasksBuilder::new("app", "apps/app", &PlatformType::Node, ctx(true));
    b.load_local_tasks(&project(vec![("x", selfish)]));
    assert!(!b.chain_ends(&"x".to_string()));
    // The inherited chain is followed first; its error ends the walk.
    let mut broken = cmd("g");
    broken.extends = Some("missing".into());
    let mut selfish = cmd("x");
    selfish.extends = Some("x".into());
    let mut b = TasksBuilder::new("app", "apps/app", &PlatformType::Node, ctx(true));
    b.inherit_global_tasks(&global(vec![("x", broken)]), None).load_local_tasks(&project(vec![("x", selfish)]));
    let err = b.try_build_task(&"x".to_string()).unwrap().unwrap_err();
    assert!(matches!(err, TasksBuilderError::UnknownExtendsSource { ref source_id, ref target_id }
        if source_id == "x" && target_id == "missing"));
}
