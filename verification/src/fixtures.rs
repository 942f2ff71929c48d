use vstd::prelude::*;
use vstd::string::StringExecFns;
use crate::config::{CommandArgsView, TaskCommandArgs};
use crate::id_map::IdMap;
use crate::items::views;
use crate::paths::{InputPath, parse_input};

verus! {

// The workspace, toolchain and inherited-tasks settings that the test
// fixtures of the workspace use: partial configurations, in which an absent
// setting is left to its default.

/// An exact version.
#[derive(Clone, Copy, Debug, PartialEq, Eq, Structural)]
pub struct VersionSpec {
    pub major: u64,
    pub minor: u64,
    pub patch: u64,
}

pub open spec fn version(major: u64, minor: u64, patch: u64) -> VersionSpec {
    VersionSpec { major, minor, patch }
}

#[derive(Clone, Copy, Debug, PartialEq, Eq, Structural)]
pub enum NodePackageManager {
    Bun,
    Npm,
    Pnpm,
    Yarn,
}

/// A package manager setting that holds only a version.
#[derive(Clone, Copy, Debug, PartialEq, Eq, Structural)]
pub struct PartialVersionedConfig {
    pub version: Option<VersionSpec>,
}

pub type PartialNpmConfig = PartialVersionedConfig;
pub type PartialPnpmConfig = PartialVersionedConfig;
pub type PartialBunpmConfig = PartialVersionedConfig;
pub type PartialBunConfig = PartialVersionedConfig;

#[derive(Clone, Debug)]
pub struct PartialYarnConfig {
    pub plugins: Option<Vec<String>>,
    pub version: Option<VersionSpec>,
}

#[derive(Clone, Debug)]
pub struct PartialNodeConfig {
    pub add_engines_constraint: Option<bool>,
    pub bun: Option<PartialBunpmConfig>,
    pub dedupe_on_lockfile_change: Option<bool>,
    pub infer_tasks_from_scripts: Option<bool>,
    pub npm: Option<PartialNpmConfig>,
    pub package_manager: Option<NodePackageManager>,
    pub pnpm: Option<PartialPnpmConfig>,
    pub sync_project_workspace_dependencies: Option<bool>,
    pub version: Option<VersionSpec>,
    pub yarn: Option<PartialYarnConfig>,
}

#[derive(Clone, Copy, Debug, PartialEq, Eq, Structural)]
pub struct PartialTypeScriptConfig {
    pub create_missing_config: Option<bool>,
    pub route_out_dir_to_cache: Option<bool>,
    pub sync_project_references: Option<bool>,
    pub sync_project_references_to_paths: Option<bool>,
}

#[derive(Clone, Debug)]
pub struct PartialToolchainConfig {
    pub bun: Option<PartialBunConfig>,
    pub node: Option<PartialNodeConfig>,
    pub typescript: Option<PartialTypeScriptConfig>,
}

#[derive(Clone, Debug)]
pub struct PartialWorkspaceProjectsConfig {
    pub globs: Option<Vec<String>>,
    pub sources: Option<IdMap<String>>,
}

/// Where the projects of a workspace are: globs, named sources, or both.
#[derive(Clone, Debug)]
pub enum PartialWorkspaceProjects {
    Both(PartialWorkspaceProjectsConfig),
    Globs(Vec<String>),
    Sources(IdMap<String>),
}

#[derive(Clone, Debug)]
pub struct PartialWorkspaceConfig {
    pub projects: Option<PartialWorkspaceProjects>,
}

/// A task configuration in which every setting may be absent.
#[derive(Clone, Debug)]
pub struct PartialTaskConfig {
    pub command: Option<TaskCommandArgs>,
    pub args: Option<TaskCommandArgs>,
    pub inputs: Option<Vec<InputPath>>,
}

pub struct PartialTaskConfigView {
    pub command: Option<CommandArgsView>,
    pub args: Option<CommandArgsView>,
    pub inputs: Option<Seq<(crate::paths::InputKind, Seq<char>)>>,
}

impl View for PartialTaskConfig {
    type V = PartialTaskConfigView;

    open spec fn view(&self) -> PartialTaskConfigView {
        PartialTaskConfigView {
            command: match self.command {
                Some(c) => Some(c@),
                None => None,
            },
            args: match self.args {
                Some(c) => Some(c@),
                None => None,
            },
            inputs: crate::config::opt_views(self.inputs),
        }
    }
}

/// The files of a file group.
#[derive(Clone, Debug)]
pub struct FileGroup(pub Vec<InputPath>);

impl View for FileGroup {
    type V = Seq<(crate::paths::InputKind, Seq<char>)>;

    open spec fn view(&self) -> Seq<(crate::paths::InputKind, Seq<char>)> {
        views(self.0@)
    }
}

#[derive(Clone, Debug)]
pub struct PartialInheritedTasksConfig {
    pub file_groups: Option<IdMap<FileGroup>>,
    pub tasks: Option<IdMap<PartialTaskConfig>>,
}

/// The three configurations of a test workspace.
pub type FixtureConfigs = (PartialWorkspaceConfig, PartialToolchainConfig, PartialInheritedTasksConfig);

fn text(s: &str) -> (r: String)
    ensures
        r@ == s@,
{
    String::from_str(s)
}

/// A task whose command is a string.
pub open spec fn command_task(c: Seq<char>) -> PartialTaskConfigView {
    PartialTaskConfigView { command: Some(CommandArgsView::String(c)), args: None, inputs: None }
}

fn command_task_config(c: &str) -> (r: PartialTaskConfig)
    ensures
        r@ == command_task(c@),
{
    PartialTaskConfig { command: Some(TaskCommandArgs::String(text(c))), args: None, inputs: None }
}

impl PartialNodeConfig {
    pub fn new() -> (r: Self)
        ensures
            r.add_engines_constraint is None && r.bun is None && r.dedupe_on_lockfile_change is None
                && r.infer_tasks_from_scripts is None && r.npm is None && r.package_manager is None
                && r.pnpm is None && r.sync_project_workspace_dependencies is None && r.version is None
                && r.yarn is None,
    {
        PartialNodeConfig {
            add_engines_constraint: None,
            bun: None,
            dedupe_on_lockfile_change: None,
            infer_tasks_from_scripts: None,
            npm: None,
            package_manager: None,
            pnpm: None,
            sync_project_workspace_dependencies: None,
            version: None,
            yarn: None,
        }
    }
}

/// The node settings that the fixtures start from: node 18.0.0 with npm
/// 8.19.0, and every automation turned off.
pub open spec fn default_node(n: PartialNodeConfig) -> bool {
    &&& n.version == Some(version(18, 0, 0))
    &&& n.add_engines_constraint == Some(false)
    &&& n.dedupe_on_lockfile_change == Some(false)
    &&& n.infer_tasks_from_scripts == Some(false)
    &&& n.sync_project_workspace_dependencies == Some(false)
    &&& n.npm == Some(PartialVersionedConfig { version: Some(version(8, 19, 0)) })
    &&& n.package_manager is None
    &&& n.pnpm is None
    &&& n.bun is None
    &&& n.yarn is None
}

/// The typescript settings that the fixtures start from: every automation
/// turned off.
pub open spec fn default_typescript() -> PartialTypeScriptConfig {
    PartialTypeScriptConfig {
        create_missing_config: Some(false),
        route_out_dir_to_cache: Some(false),
        sync_project_references: Some(false),
        sync_project_references_to_paths: Some(false),
    }
}

/// A toolchain with everything turned off but node and typescript defaults.
pub open spec fn is_default_toolchain(t: PartialToolchainConfig) -> bool {
    &&& t.bun is None
    &&& t.node matches Some(n) && default_node(n)
    &&& t.typescript == Some(default_typescript())
}

/// Turns everything off by default.
pub fn get_default_toolchain() -> (r: PartialToolchainConfig)
    ensures
        is_default_toolchain(r),
{
    let mut node = PartialNodeConfig::new();
    node.version = Some(VersionSpec { major: 18, minor: 0, patch: 0 });
    node.add_engines_constraint = Some(false);
    node.dedupe_on_lockfile_change = Some(false);
    node.infer_tasks_from_scripts = Some(false);
    node.sync_project_workspace_dependencies = Some(false);
    node.npm = Some(PartialVersionedConfig { version: Some(VersionSpec { major: 8, minor: 19, patch: 0 }) });
    PartialToolchainConfig {
        bun: None,
        node: Some(node),
        typescript: Some(PartialTypeScriptConfig {
            create_missing_config: Some(false),
            route_out_dir_to_cache: Some(false),
            sync_project_references: Some(false),
            sync_project_references_to_paths: Some(false),
        }),
    }
}

fn sources(m: IdMap<String>) -> (r: PartialWorkspaceConfig)
    ensures
        r.projects matches Some(PartialWorkspaceProjects::Sources(s)) && s@ == m@,
{
    PartialWorkspaceConfig { projects: Some(PartialWorkspaceProjects::Sources(m)) }
}

/// The workspace of the runner's test cases, with an inherited `noop` task.
pub fn get_cases_fixture_configs() -> (r: FixtureConfigs)
    ensures
        r.0.projects matches Some(PartialWorkspaceProjects::Sources(s)) && s@ == map!["root"@ => "."@, "affected"@ => "affected"@, "base"@ => "base"@, "noop"@ => "noop"@, "files"@ => "files"@, "states"@ => "states"@, "interactive"@ => "interactive"@, "passthroughArgs"@ => "passthrough-args"@, "depsA"@ => "deps-a"@, "depsB"@ => "deps-b"@, "depsC"@ => "deps-c"@, "dependsOn"@ => "depends-on"@, "targetScopeA"@ => "target-scope-a"@, "targetScopeB"@ => "target-scope-b"@, "targetScopeC"@ => "target-scope-c"@, "outputs"@ => "outputs"@, "outputsFiltering"@ => "outputs-filtering"@, "outputStyles"@ => "output-styles"@],
        is_default_toolchain(r.1),
        r.2.file_groups is None,
        r.2.tasks matches Some(t) && t@ == map!["noop"@ => command_task("noop"@)],
{
    let mut projects: IdMap<String> = IdMap::new();
    projects.insert(text("root"), text("."));
    projects.insert(text("affected"), text("affected"));
    projects.insert(text("base"), text("base"));
    projects.insert(text("noop"), text("noop"));
    projects.insert(text("files"), text("files"));
    projects.insert(text("states"), text("states"));
    projects.insert(text("interactive"), text("interactive"));
    projects.insert(text("passthroughArgs"), text("passthrough-args"));
    projects.insert(text("depsA"), text("deps-a"));
    projects.insert(text("depsB"), text("deps-b"));
    projects.insert(text("depsC"), text("deps-c"));
    projects.insert(text("dependsOn"), text("depends-on"));
    projects.insert(text("targetScopeA"), text("target-scope-a"));
    projects.insert(text("targetScopeB"), text("target-scope-b"));
    projects.insert(text("targetScopeC"), text("target-scope-c"));
    projects.insert(text("outputs"), text("outputs"));
    projects.insert(text("outputsFiltering"), text("outputs-filtering"));
    projects.insert(text("outputStyles"), text("output-styles"));
    let workspace_config = sources(projects);
    let toolchain_config = get_default_toolchain();
    let mut tasks: IdMap<PartialTaskConfig> = IdMap::new();
    tasks.insert(text("noop"), command_task_config("noop"));
    let tasks_config = PartialInheritedTasksConfig { file_groups: None, tasks: Some(tasks) };
    (workspace_config, toolchain_config, tasks_config)
}

/// The workspace of the project tests, with `sources` and `tests` file groups.
pub fn get_projects_fixture_configs() -> (r: FixtureConfigs)
    ensures
        r.0.projects matches Some(PartialWorkspaceProjects::Sources(s)) && s@ == map!["advanced"@ => "advanced"@, "basic"@ => "basic"@, "emptyConfig"@ => "empty-config"@, "noConfig"@ => "no-config"@, "tasks"@ => "tasks"@, "platforms"@ => "platforms"@, "foo"@ => "deps/foo"@, "bar"@ => "deps/bar"@, "baz"@ => "deps/baz"@],
        is_default_toolchain(r.1),
        r.2.tasks is None,
        r.2.file_groups matches Some(g) && g@ == map!["sources"@ => seq![parse_input("src/**/*"@), parse_input("types/**/*"@)], "tests"@ => seq![parse_input("tests/**/*"@)]],
{
    let mut projects: IdMap<String> = IdMap::new();
    projects.insert(text("advanced"), text("advanced"));
    projects.insert(text("basic"), text("basic"));
    projects.insert(text("emptyConfig"), text("empty-config"));
    projects.insert(text("noConfig"), text("no-config"));
    projects.insert(text("tasks"), text("tasks"));
    projects.insert(text("platforms"), text("platforms"));
    projects.insert(text("foo"), text("deps/foo"));
    projects.insert(text("bar"), text("deps/bar"));
    projects.insert(text("baz"), text("deps/baz"));
    let workspace_config = sources(projects);
    let toolchain_config = get_default_toolchain();
    let mut file_groups: IdMap<FileGroup> = IdMap::new();
    let mut group0: Vec<InputPath> = Vec::new();
    group0.push(InputPath::parse("src/**/*"));
    group0.push(InputPath::parse("types/**/*"));
    let ghost g0 = views(group0@);
    assert(g0 =~= seq![parse_input("src/**/*"@), parse_input("types/**/*"@)]);
    file_groups.insert(text("sources"), FileGroup(group0));
    let mut group1: Vec<InputPath> = Vec::new();
    group1.push(InputPath::parse("tests/**/*"));
    let ghost g1 = views(group1@);
    assert(g1 =~= seq![parse_input("tests/**/*"@)]);
    file_groups.insert(text("tests"), FileGroup(group1));
    let tasks_config = PartialInheritedTasksConfig { file_groups: Some(file_groups), tasks: None };
    (workspace_config, toolchain_config, tasks_config)
}

/// The workspace of the project-graph alias tests: node 18.0.0 with npm
/// 8.19.0, without engines constraints or lockfile dedupe.
pub fn get_project_graph_aliases_fixture_configs() -> (r: FixtureConfigs)
    ensures
        r.0.projects matches Some(PartialWorkspaceProjects::Sources(s)) && s@ == map!["explicit"@ => "explicit"@, "explicitAndImplicit"@ => "explicit-and-implicit"@, "implicit"@ => "implicit"@, "noLang"@ => "no-lang"@, "node"@ => "node"@, "nodeNameOnly"@ => "node-name-only"@, "nodeNameScope"@ => "node-name-scope"@],
        r.1.bun is None,
        r.1.typescript is None,
        r.1.node matches Some(n) && n.version == Some(version(18, 0, 0)) && n.add_engines_constraint == Some(false)
            && n.dedupe_on_lockfile_change == Some(false) && n.infer_tasks_from_scripts is None
            && n.sync_project_workspace_dependencies is None
            && n.npm == Some(PartialVersionedConfig { version: Some(version(8, 19, 0)) })
            && n.package_manager is None && n.pnpm is None && n.bun is None && n.yarn is None,
        r.2.file_groups is None,
        r.2.tasks is None,
{
    let mut projects: IdMap<String> = IdMap::new();
    projects.insert(text("explicit"), text("explicit"));
    projects.insert(text("explicitAndImplicit"), text("explicit-and-implicit"));
    projects.insert(text("implicit"), text("implicit"));
    projects.insert(text("noLang"), text("no-lang"));
    projects.insert(text("node"), text("node"));
    projects.insert(text("nodeNameOnly"), text("node-name-only"));
    projects.insert(text("nodeNameScope"), text("node-name-scope"));
    let workspace_config = sources(projects);
    let mut node = PartialNodeConfig::new();
    node.version = Some(VersionSpec { major: 18, minor: 0, patch: 0 });
    node.add_engines_constraint = Some(false);
    node.dedupe_on_lockfile_change = Some(false);
    node.npm = Some(PartialVersionedConfig { version: Some(VersionSpec { major: 8, minor: 19, patch: 0 }) });
    let toolchain_config = PartialToolchainConfig { bun: None, node: Some(node), typescript: None };
    let tasks_config = PartialInheritedTasksConfig { file_groups: None, tasks: None };
    (workspace_config, toolchain_config, tasks_config)
}

/// The workspace of the task tests, with file groups and four inherited
/// tasks.
pub fn get_tasks_fixture_configs() -> (r: FixtureConfigs)
    ensures
        r.0.projects matches Some(PartialWorkspaceProjects::Sources(s)) && s@ == map!["basic"@ => "basic"@, "buildA"@ => "build-a"@, "buildB"@ => "build-b"@, "buildC"@ => "build-c"@, "chain"@ => "chain"@, "cycle"@ => "cycle"@, "inheritTags"@ => "inherit-tags"@, "inputA"@ => "input-a"@, "inputB"@ => "input-b"@, "inputC"@ => "input-c"@, "inputs"@ => "inputs"@, "mergeAllStrategies"@ => "merge-all-strategies"@, "mergeAppend"@ => "merge-append"@, "mergePrepend"@ => "merge-prepend"@, "mergeReplace"@ => "merge-replace"@, "noTasks"@ => "no-tasks"@, "persistent"@ => "persistent"@, "scopeAll"@ => "scope-all"@, "scopeDeps"@ => "scope-deps"@, "scopeSelf"@ => "scope-self"@, "tokens"@ => "tokens"@, "expandEnv"@ => "expand-env"@, "expandEnvProject"@ => "expand-env-project"@, "expandOutputs"@ => "expand-outputs"@, "fileGroups"@ => "file-groups"@],
        is_default_toolchain(r.1),
        r.2.file_groups matches Some(g) && g@ == map!["static"@ => seq![parse_input("file.ts"@), parse_input("dir"@), parse_input("dir/other.tsx"@), parse_input("dir/subdir"@), parse_input("dir/subdir/another.ts"@)], "dirs_glob"@ => seq![parse_input("**/*"@)], "files_glob"@ => seq![parse_input("**/*.{ts,tsx}"@)], "globs"@ => seq![parse_input("**/*.{ts,tsx}"@), parse_input("*.js"@)], "no_globs"@ => seq![parse_input("config.js"@)]],
        r.2.tasks matches Some(t) && t@ == map![
            "standard"@ => command_task("cmd"@),
            "withArgs"@ => PartialTaskConfigView {
                args: Some(CommandArgsView::List(seq!["--foo"@, "--bar"@, "baz"@])),
                ..command_task("cmd"@)
            },
            "withInputs"@ => PartialTaskConfigView {
                inputs: Some(seq![parse_input("rel/file.*"@), parse_input("/root.*"@)]),
                ..command_task("cmd"@)
            },
            "withOutputs"@ => PartialTaskConfigView {
                inputs: Some(seq![parse_input("lib"@), parse_input("/build"@)]),
                ..command_task("cmd"@)
            }
        ],
{
    let mut projects: IdMap<String> = IdMap::new();
    projects.insert(text("basic"), text("basic"));
    projects.insert(text("buildA"), text("build-a"));
    projects.insert(text("buildB"), text("build-b"));
    projects.insert(text("buildC"), text("build-c"));
    projects.insert(text("chain"), text("chain"));
    projects.insert(text("cycle"), text("cycle"));
    projects.insert(text("inheritTags"), text("inherit-tags"));
    projects.insert(text("inputA"), text("input-a"));
    projects.insert(text("inputB"), text("input-b"));
    projects.insert(text("inputC"), text("input-c"));
    projects.insert(text("inputs"), text("inputs"));
    projects.insert(text("mergeAllStrategies"), text("merge-all-strategies"));
    projects.insert(text("mergeAppend"), text("merge-append"));
    projects.insert(text("mergePrepend"), text("merge-prepend"));
    projects.insert(text("mergeReplace"), text("merge-replace"));
    projects.insert(text("noTasks"), text("no-tasks"));
    projects.insert(text("persistent"), text("persistent"));
    projects.insert(text("scopeAll"), text("scope-all"));
    projects.insert(text("scopeDeps"), text("scope-deps"));
    projects.insert(text("scopeSelf"), text("scope-self"));
    projects.insert(text("tokens"), text("tokens"));
    projects.insert(text("expandEnv"), text("expand-env"));
    projects.insert(text("expandEnvProject"), text("expand-env-project"));
    projects.insert(text("expandOutputs"), text("expand-outputs"));
    projects.insert(text("fileGroups"), text("file-groups"));
    let workspace_config = sources(projects);
    let toolchain_config = get_default_toolchain();
    let mut file_groups: IdMap<FileGroup> = IdMap::new();
    let mut group0: Vec<InputPath> = Vec::new();
    group0.push(InputPath::parse("file.ts"));
    group0.push(InputPath::parse("dir"));
    group0.push(InputPath::parse("dir/other.tsx"));
    group0.push(InputPath::parse("dir/subdir"));
    group0.push(InputPath::parse("dir/subdir/another.ts"));
    let ghost g0 = views(group0@);
    assert(g0 =~= seq![parse_input("file.ts"@), parse_input("dir"@), parse_input("dir/other.tsx"@), parse_input("dir/subdir"@), parse_input("dir/subdir/another.ts"@)]);
    file_groups.insert(text("static"), FileGroup(group0));
    let mut group1: Vec<InputPath> = Vec::new();
    group1.push(InputPath::parse("**/*"));
    let ghost g1 = views(group1@);
    assert(g1 =~= seq![parse_input("**/*"@)]);
    file_groups.insert(text("dirs_glob"), FileGroup(group1));
    let mut group2: Vec<InputPath> = Vec::new();
    group2.push(InputPath::parse("**/*.{ts,tsx}"));
    let ghost g2 = views(group2@);
    assert(g2 =~= seq![parse_input("**/*.{ts,tsx}"@)]);
    file_groups.insert(text("files_glob"), FileGroup(group2));
    let mut group3: Vec<InputPath> = Vec::new();
    group3.push(InputPath::parse("**/*.{ts,tsx}"));
    group3.push(InputPath::parse("*.js"));
    let ghost g3 = views(group3@);
    assert(g3 =~= seq![parse_input("**/*.{ts,tsx}"@), parse_input("*.js"@)]);
    file_groups.insert(text("globs"), FileGroup(group3));
    let mut group4: Vec<InputPath> = Vec::new();
    group4.push(InputPath::parse("config.js"));
    let ghost g4 = views(group4@);
    assert(g4 =~= seq![parse_input("config.js"@)]);
    file_groups.insert(text("no_globs"), FileGroup(group4));
    let mut tasks: IdMap<PartialTaskConfig> = IdMap::new();
    tasks.insert(text("standard"), command_task_config("cmd"));
    let mut with_args = command_task_config("cmd");
    let mut args: Vec<String> = Vec::new();
    args.push(text("--foo"));
    args.push(text("--bar"));
    args.push(text("baz"));
    assert(views(args@) =~= seq!["--foo"@, "--bar"@, "baz"@]);
    with_args.args = Some(TaskCommandArgs::List(args));
    tasks.insert(text("withArgs"), with_args);
    let mut with_inputs = command_task_config("cmd");
    let mut inputs: Vec<InputPath> = Vec::new();
    inputs.push(InputPath::parse("rel/file.*"));
    inputs.push(InputPath::parse("/root.*"));
    assert(views(inputs@) =~= seq![parse_input("rel/file.*"@), parse_input("/root.*"@)]);
    with_inputs.inputs = Some(inputs);
    tasks.insert(text("withInputs"), with_inputs);
    let mut with_outputs = command_task_config("cmd");
    let mut inputs: Vec<InputPath> = Vec::new();
    inputs.push(InputPath::parse("lib"));
    inputs.push(InputPath::parse("/build"));
    assert(views(inputs@) =~= seq![parse_input("lib"@), parse_input("/build"@)]);
    with_outputs.inputs = Some(inputs);
    tasks.insert(text("withOutputs"), with_outputs);
    let tasks_config = PartialInheritedTasksConfig { file_groups: Some(file_groups), tasks: Some(tasks) };
    (workspace_config, toolchain_config, tasks_config)
}

/// The workspace of the bun tests: bun 1.0.0 in place of node.
pub fn get_bun_fixture_configs() -> (r: FixtureConfigs)
    ensures
        r.0.projects matches Some(PartialWorkspaceProjects::Sources(s)) && s@ == map!["bun"@ => "base"@, "packageManager"@ => "package-manager"@, "versionOverride"@ => "version-override"@],
        r.1.node is None,
        r.1.bun == Some(PartialVersionedConfig { version: Some(version(1, 0, 0)) }),
        r.1.typescript == Some(default_typescript()),
        r.2.file_groups is None,
        r.2.tasks matches Some(t) && t@ == map!["version"@ => PartialTaskConfigView {
                args: Some(CommandArgsView::String("--version"@)),
                ..command_task("bun"@)
            }, "noop"@ => command_task("noop"@)],
{
    let mut projects: IdMap<String> = IdMap::new();
    projects.insert(text("bun"), text("base"));
    projects.insert(text("packageManager"), text("package-manager"));
    projects.insert(text("versionOverride"), text("version-override"));
    let workspace_config = sources(projects);
    let mut toolchain_config = get_default_toolchain();
    toolchain_config.node = None;
    toolchain_config.bun = Some(PartialVersionedConfig { version: Some(VersionSpec { major: 1, minor: 0, patch: 0 }) });
    let mut tasks: IdMap<PartialTaskConfig> = IdMap::new();
    let mut version_task = command_task_config("bun");
    version_task.args = Some(TaskCommandArgs::String(text("--version")));
    tasks.insert(text("version"), version_task);
    tasks.insert(text("noop"), command_task_config("noop"));
    let tasks_config = PartialInheritedTasksConfig { file_groups: None, tasks: Some(tasks) };
    (workspace_config, toolchain_config, tasks_config)
}

/// The workspace of the node tests.
pub fn get_node_fixture_configs() -> (r: FixtureConfigs)
    ensures
        r.0.projects matches Some(PartialWorkspaceProjects::Sources(s)) && s@ == map!["node"@ => "base"@, "lifecycles"@ => "lifecycles"@, "postinstall"@ => "postinstall"@, "postinstallRecursion"@ => "postinstall-recursion"@, "versionOverride"@ => "version-override"@, "esbuild"@ => "esbuild"@, "swc"@ => "swc"@, "depsA"@ => "deps-a"@, "depsB"@ => "deps-b"@, "depsC"@ => "deps-c"@, "depsD"@ => "deps-d"@, "dependsOn"@ => "depends-on"@, "dependsOnScopes"@ => "depends-on-scopes"@],
        is_default_toolchain(r.1),
        r.2.file_groups is None,
        r.2.tasks matches Some(t) && t@ == map!["version"@ => PartialTaskConfigView {
                args: Some(CommandArgsView::String("--version"@)),
                ..command_task("node"@)
            }, "noop"@ => command_task("noop"@)],
{
    let mut projects: IdMap<String> = IdMap::new();
    projects.insert(text("node"), text("base"));
    projects.insert(text("lifecycles"), text("lifecycles"));
    projects.insert(text("postinstall"), text("postinstall"));
    projects.insert(text("postinstallRecursion"), text("postinstall-recursion"));
    projects.insert(text("versionOverride"), text("version-override"));
    projects.insert(text("esbuild"), text("esbuild"));
    projects.insert(text("swc"), text("swc"));
    projects.insert(text("depsA"), text("deps-a"));
    projects.insert(text("depsB"), text("deps-b"));
    projects.insert(text("depsC"), text("deps-c"));
    projects.insert(text("depsD"), text("deps-d"));
    projects.insert(text("dependsOn"), text("depends-on"));
    projects.insert(text("dependsOnScopes"), text("depends-on-scopes"));
    let workspace_config = sources(projects);
    let toolchain_config = get_default_toolchain();
    let mut tasks: IdMap<PartialTaskConfig> = IdMap::new();
    let mut version_task = command_task_config("node");
    version_task.args = Some(TaskCommandArgs::String(text("--version")));
    tasks.insert(text("version"), version_task);
    tasks.insert(text("noop"), command_task_config("noop"));
    let tasks_config = PartialInheritedTasksConfig { file_groups: None, tasks: Some(tasks) };
    (workspace_config, toolchain_config, tasks_config)
}

/// The package manager settings that each name of the node dependency
/// manager tests selects; other names select none.
pub open spec fn depman_node(depman: Seq<char>, n: PartialNodeConfig) -> bool {
    &&& n.version == Some(version(18, 0, 0))
    &&& n.add_engines_constraint == Some(false)
    &&& n.dedupe_on_lockfile_change == Some(false)
    &&& n.infer_tasks_from_scripts == Some(false)
    &&& n.sync_project_workspace_dependencies == Some(false)
    &&& if depman == "bun"@ {
        &&& n.package_manager == Some(NodePackageManager::Bun)
        &&& n.bun == Some(PartialVersionedConfig { version: Some(version(1, 0, 0)) })
        &&& n.npm == Some(PartialVersionedConfig { version: Some(version(8, 19, 0)) })
        &&& n.pnpm is None && n.yarn is None
    } else if depman == "npm"@ {
        &&& n.package_manager == Some(NodePackageManager::Npm)
        &&& n.npm == Some(PartialVersionedConfig { version: Some(version(8, 0, 0)) })
        &&& n.bun is None && n.pnpm is None && n.yarn is None
    } else if depman == "pnpm"@ {
        &&& n.package_manager == Some(NodePackageManager::Pnpm)
        &&& n.pnpm == Some(PartialVersionedConfig { version: Some(version(7, 5, 0)) })
        &&& n.npm == Some(PartialVersionedConfig { version: Some(version(8, 19, 0)) })
        &&& n.bun is None && n.yarn is None
    } else if depman == "yarn"@ {
        &&& n.package_manager == Some(NodePackageManager::Yarn)
        &&& n.yarn matches Some(y) && y.version == Some(version(3, 3, 0))
            && (y.plugins matches Some(p) && crate::items::views(p@) == seq!["workspace-tools"@])
        &&& n.npm == Some(PartialVersionedConfig { version: Some(version(8, 19, 0)) })
        &&& n.bun is None && n.pnpm is None
    } else if depman == "yarn1"@ {
        &&& n.package_manager == Some(NodePackageManager::Yarn)
        &&& n.yarn matches Some(y) && y.version == Some(version(1, 22, 0))
            && (y.plugins matches Some(p) && p@.len() == 0)
        &&& n.npm == Some(PartialVersionedConfig { version: Some(version(8, 19, 0)) })
        &&& n.bun is None && n.pnpm is None
    } else {
        &&& n.package_manager is None
        &&& n.npm == Some(PartialVersionedConfig { version: Some(version(8, 19, 0)) })
        &&& n.bun is None && n.pnpm is None && n.yarn is None
    }
}

/// The workspace of the node tests for one dependency manager: the project
/// `depman` at `base` beside `other` and `notInWorkspace`, and node set up to
/// use that manager.
pub fn get_node_depman_fixture_configs(depman: &str) -> (r: FixtureConfigs)
    ensures
        r.0.projects matches Some(PartialWorkspaceProjects::Sources(s))
            && s@ == map![depman@ => "base"@, "other"@ => "other"@, "notInWorkspace"@ => "not-in-workspace"@],
        r.1.bun is None,
        r.1.typescript == Some(default_typescript()),
        r.1.node matches Some(n) && depman_node(depman@, n),
        r.2.file_groups is None,
        r.2.tasks matches Some(t) && t@ == map!["version"@ => PartialTaskConfigView {
                args: Some(CommandArgsView::String("--version"@)),
                ..command_task("node"@)
            }, "noop"@ => command_task("noop"@)],
{
    let (mut workspace_config, mut toolchain_config, tasks_config) = get_node_fixture_configs();
    let mut projects: IdMap<String> = IdMap::new();
    projects.insert(text(depman), text("base"));
    projects.insert(text("other"), text("other"));
    projects.insert(text("notInWorkspace"), text("not-in-workspace"));
    workspace_config.projects = Some(PartialWorkspaceProjects::Sources(projects));
    if let Some(node_config) = &mut toolchain_config.node {
        let name = text(depman);
        if name == text("bun") {
            node_config.package_manager = Some(NodePackageManager::Bun);
            node_config.bun = Some(PartialVersionedConfig { version: Some(VersionSpec { major: 1, minor: 0, patch: 0 }) });
        } else if name == text("npm") {
            node_config.package_manager = Some(NodePackageManager::Npm);
            node_config.npm = Some(PartialVersionedConfig { version: Some(VersionSpec { major: 8, minor: 0, patch: 0 }) });
        } else if name == text("pnpm") {
            node_config.package_manager = Some(NodePackageManager::Pnpm);
            node_config.pnpm = Some(PartialVersionedConfig { version: Some(VersionSpec { major: 7, minor: 5, patch: 0 }) });
        } else if name == text("yarn") {
            node_config.package_manager = Some(NodePackageManager::Yarn);
            let mut plugins: Vec<String> = Vec::new();
            plugins.push(text("workspace-tools"));
            assert(views(plugins@) =~= seq!["workspace-tools"@]);
            node_config.yarn = Some(PartialYarnConfig { plugins: Some(plugins), version: Some(VersionSpec { major: 3, minor: 3, patch: 0 }) });
        } else if name == text("yarn1") {
            node_config.package_manager = Some(NodePackageManager::Yarn);
            node_config.yarn = Some(PartialYarnConfig { plugins: Some(Vec::new()), version: Some(VersionSpec { major: 1, minor: 22, patch: 0 }) });
        }
    }
    (workspace_config, toolchain_config, tasks_config)
}

/// The workspace of the typescript tests: every project by glob plus the
/// root, and typescript creating missing configs and syncing references.
pub fn get_typescript_fixture_configs() -> (r: FixtureConfigs)
    ensures
        r.0.projects matches Some(PartialWorkspaceProjects::Both(p))
            && (p.globs matches Some(g) && views(g@) == seq!["*"@])
            && (p.sources matches Some(s) && s@ == map!["root"@ => "."@]),
        r.1.bun is None,
        r.1.node matches Some(n) && default_node(n),
        r.1.typescript == Some(PartialTypeScriptConfig {
            create_missing_config: Some(true),
            sync_project_references: Some(true),
            ..default_typescript()
        }),
        r.2.file_groups is None,
        r.2.tasks matches Some(t) && t@ == map!["version"@ => PartialTaskConfigView {
                args: Some(CommandArgsView::String("--version"@)),
                ..command_task("node"@)
            }, "noop"@ => command_task("noop"@)],
{
    let (mut workspace_config, mut toolchain_config, tasks_config) = get_node_fixture_configs();
    let mut globs: Vec<String> = Vec::new();
    globs.push(text("*"));
    assert(views(globs@) =~= seq!["*"@]);
    let mut sources: IdMap<String> = IdMap::new();
    sources.insert(text("root"), text("."));
    workspace_config.projects = Some(PartialWorkspaceProjects::Both(PartialWorkspaceProjectsConfig {
        globs: Some(globs),
        sources: Some(sources),
    }));
    if let Some(ts_config) = &mut toolchain_config.typescript {
        ts_config.create_missing_config = Some(true);
        ts_config.sync_project_references = Some(true);
    }
    (workspace_config, toolchain_config, tasks_config)
}

} // verus!
