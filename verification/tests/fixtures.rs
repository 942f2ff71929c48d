use moon_task_builder::config::TaskCommandArgs;
use moon_task_builder::fixtures::{
    get_bun_fixture_configs, get_cases_fixture_configs, get_default_toolchain, get_node_depman_fixture_configs,
    get_node_fixture_configs, get_project_graph_aliases_fixture_configs, get_projects_fixture_configs,
    get_tasks_fixture_configs, get_typescript_fixture_configs, NodePackageManager, PartialWorkspaceProjects,
    VersionSpec,
};
use moon_task_builder::id_map::IdMap;
use moon_task_builder::paths::InputPath;

fn source(projects: &Option<PartialWorkspaceProjects>, name: &str) -> Option<String> {
    match projects {
        Some(PartialWorkspaceProjects::Sources(m)) => m.get(&name.to_string()).cloned(),
        _ => None,
    }
}

fn count(projects: &Option<PartialWorkspaceProjects>) -> usize {
    match projects {
        Some(PartialWorkspaceProjects::Sources(m)) => m.entries.len(),
        _ => 0,
    }
}

fn v(major: u64, minor: u64, patch: u64) -> Option<VersionSpec> {
    Some(VersionSpec { major, minor, patch })
}

fn task_command<T>(tasks: &Option<IdMap<T>>, name: &str, f: impl Fn(&T) -> Option<TaskCommandArgs>) -> Option<String> {
    let t = tasks.as_ref()?.entries.iter().rev().find(|(k, _)| k == name).map(|(_, t)| t)?;
    match f(t) {
        Some(TaskCommandArgs::String(s)) => Some(s),
        _ => None,
    }
}

#[test]
fn default_toolchain_turns_automation_off() {
    let t = get_default_toolchain();
    let node = t.node.unwrap();
    assert_eq!(node.version, v(18, 0, 0));
    assert_eq!(node.npm.unwrap().version, v(8, 19, 0));
    assert_eq!(node.infer_tasks_from_scripts, Some(false));
    assert_eq!(t.typescript.unwrap().sync_project_references, Some(false));
    assert!(t.bun.is_none());
}

#[test]
fn cases_fixture() {
    let (ws, _, tasks) = get_cases_fixture_configs();
    assert_eq!(count(&ws.projects), 18);
    assert_eq!(source(&ws.projects, "passthroughArgs").as_deref(), Some("passthrough-args"));
    assert_eq!(source(&ws.projects, "root").as_deref(), Some("."));
    assert_eq!(task_command(&tasks.tasks, "noop", |t| t.command.clone()).as_deref(), Some("noop"));
}

#[test]
fn projects_fixture() {
    let (ws, _, tasks) = get_projects_fixture_configs();
    assert_eq!(source(&ws.projects, "foo").as_deref(), Some("deps/foo"));
    let groups = tasks.file_groups.unwrap();
    let sources = groups.get(&"sources".to_string()).unwrap();
    assert_eq!(sources.0.len(), 2);
    assert!(matches!(&sources.0[0], InputPath::ProjectGlob(p) if p == "src/**/*"));
}

#[test]
fn aliases_fixture() {
    let (ws, toolchain, tasks) = get_project_graph_aliases_fixture_configs();
    assert_eq!(count(&ws.projects), 7);
    let node = toolchain.node.unwrap();
    assert_eq!(node.infer_tasks_from_scripts, None);
    assert!(toolchain.typescript.is_none());
    assert!(tasks.tasks.is_none());
}

#[test]
fn tasks_fixture() {
    let (ws, _, tasks) = get_tasks_fixture_configs();
    assert_eq!(count(&ws.projects), 25);
    let t = tasks.tasks.unwrap();
    let with_args = t.get(&"withArgs".to_string()).unwrap();
    assert!(matches!(&with_args.args, Some(TaskCommandArgs::List(l)) if l == &vec!["--foo", "--bar", "baz"]));
    let with_inputs = t.get(&"withInputs".to_string()).unwrap();
    let inputs = with_inputs.inputs.as_ref().unwrap();
    assert!(matches!(&inputs[1], InputPath::WorkspaceGlob(p) if p == "root.*"));
    let groups = tasks.file_groups.unwrap();
    assert_eq!(groups.get(&"static".to_string()).unwrap().0.len(), 5);
}

#[test]
fn bun_fixture() {
    let (_, toolchain, tasks) = get_bun_fixture_configs();
    assert!(toolchain.node.is_none());
    assert_eq!(toolchain.bun.unwrap().version, v(1, 0, 0));
    assert_eq!(task_command(&tasks.tasks, "version", |t| t.command.clone()).as_deref(), Some("bun"));
    assert_eq!(task_command(&tasks.tasks, "version", |t| t.args.clone()).as_deref(), Some("--version"));
}

#[test]
fn node_fixtures() {
    let (ws, _, tasks) = get_node_fixture_configs();
    assert_eq!(count(&ws.projects), 13);
    assert_eq!(task_command(&tasks.tasks, "version", |t| t.command.clone()).as_deref(), Some("node"));
    let (ws, toolchain, _) = get_node_depman_fixture_configs("pnpm");
    assert_eq!(source(&ws.projects, "pnpm").as_deref(), Some("base"));
    let node = toolchain.node.unwrap();
    assert_eq!(node.package_manager, Some(NodePackageManager::Pnpm));
    assert_eq!(node.pnpm.unwrap().version, v(7, 5, 0));
    let (_, toolchain, _) = get_node_depman_fixture_configs("yarn");
    let yarn = toolchain.node.unwrap().yarn.unwrap();
    assert_eq!(yarn.version, v(3, 3, 0));
    assert_eq!(yarn.plugins.unwrap(), vec!["workspace-tools"]);
    let (_, toolchain, _) = get_node_depman_fixture_configs("other");
    assert!(toolchain.node.unwrap().package_manager.is_none());
}

#[test]
fn typescript_fixture() {
    let (ws, toolchain, _) = get_typescript_fixture_configs();
    match ws.projects {
        Some(PartialWorkspaceProjects::Both(p)) => {
            assert_eq!(p.globs.unwrap(), vec!["*"]);
            assert_eq!(p.sources.unwrap().get(&"root".to_string()).map(|s| s.as_str()), Some("."));
        },
        _ => panic!("expected globs and sources"),
    }
    let ts = toolchain.typescript.unwrap();
    assert_eq!(ts.create_missing_config, Some(true));
    assert_eq!(ts.sync_project_references, Some(true));
    assert_eq!(ts.route_out_dir_to_cache, Some(false));
}
