use moon_task_builder::args::{get_command_and_args, split_args, split_command_words};
use moon_task_builder::config::{validate_command, validate_deps, TaskCommandArgs, TaskConfig};
use moon_task_builder::error::TasksBuilderError;
use moon_task_builder::paths::{InputPath, OutputPath, TaskOptionEnvFile};
use moon_task_builder::target::{Target, TargetScope};

fn target(scope: TargetScope, task: &str) -> Target {
    let id = Target::format(&scope, &task.to_string());
    Target { id, scope, task_id: task.to_string() }
}

#[test]
fn target_labels() {
    let t = Target::new(&"app".to_string(), &"build".to_string());
    assert_eq!(t.id, "app:build");
    assert!(matches!(t.scope, TargetScope::Project(ref p) if p == "app"));
    assert_eq!(t.task_id, "build");
    assert_eq!(target(TargetScope::Deps, "lint").id, "^:lint");
    assert_eq!(target(TargetScope::OwnSelf, "lint").id, "~:lint");
    assert_eq!(target(TargetScope::Tag("frontend".into()), "lint").id, "#frontend:lint");
    assert_eq!(target(TargetScope::All, "lint").id, ":lint");
}

#[test]
fn env_file_inputs() {
    assert!(matches!(TaskOptionEnvFile::Enabled(true).to_input_path(), Some(InputPath::ProjectFile(p)) if p == ".env"));
    assert!(TaskOptionEnvFile::Enabled(false).to_input_path().is_none());
    assert!(matches!(TaskOptionEnvFile::File("/.env.shared".into()).to_input_path(), Some(InputPath::WorkspaceFile(p)) if p == ".env.shared"));
    assert!(matches!(TaskOptionEnvFile::File("conf/.env".into()).to_input_path(), Some(InputPath::ProjectFile(p)) if p == "conf/.env"));
}

#[test]
fn command_validation() {
    let ok = |c: TaskCommandArgs| validate_command(&c, &(), &()).is_ok();
    assert!(ok(TaskCommandArgs::Unset));
    assert!(ok(TaskCommandArgs::String("noop".into())));
    assert!(ok(TaskCommandArgs::String("npm run build".into())));
    assert!(!ok(TaskCommandArgs::String("".into())));
    assert!(!ok(TaskCommandArgs::String(" npm".into())));
    assert!(!ok(TaskCommandArgs::List(vec![])));
    assert!(!ok(TaskCommandArgs::List(vec!["".into(), "x".into()])));
    assert!(ok(TaskCommandArgs::List(vec!["cargo".into()])));
    let err = validate_command(&TaskCommandArgs::String("".into()), &(), &()).unwrap_err();
    assert_eq!(err.message, "a command is required; use \"noop\" otherwise");
    assert_eq!(err.index, None);
}

#[test]
fn deps_validation() {
    let deps = vec![
        target(TargetScope::Deps, "build"),
        target(TargetScope::All, "lint"),
        target(TargetScope::All, "test"),
    ];
    let err = validate_deps(&deps, &(), &()).unwrap_err();
    assert_eq!(err.index, Some(1));
    assert_eq!(err.message, "target scope not supported as a task dependency");
    assert!(validate_deps(&deps[..1], &(), &()).is_ok());
}

#[test]
fn split_quoted_words() {
    let words = split_args(&"a 'b c' \"d\"".to_string()).unwrap();
    assert_eq!(words, vec!["a", "b c", "d"]);
    let err = split_args(&"echo 'oops".to_string()).unwrap_err();
    assert!(matches!(err, TasksBuilderError::ArgsSplit { line } if line == "echo 'oops"));
}

#[test]
fn command_then_args() {
    let mut c = TaskConfig::new();
    c.command = TaskCommandArgs::String("npm run build".into());
    c.args = TaskCommandArgs::List(vec!["--prod".into()]);
    let (cmd, args) = get_command_and_args(&c).unwrap();
    assert_eq!(cmd.as_deref(), Some("npm"));
    assert_eq!(args, vec!["run", "build", "--prod"]);

    let mut c = TaskConfig::new();
    c.args = TaskCommandArgs::String("--watch -v".into());
    let (cmd, args) = get_command_and_args(&c).unwrap();
    assert_eq!(cmd, None);
    assert_eq!(args, vec!["--watch", "-v"]);

    let mut c = TaskConfig::new();
    c.args = TaskCommandArgs::String("\"unterminated".into());
    assert!(matches!(get_command_and_args(&c), Err(TasksBuilderError::ArgsSplit { .. })));
}

#[test]
fn split_command_words_moves_program_out() {
    let (cmd, args) = split_command_words(vec!["cargo".into(), "test".into()], vec!["--all".into()]);
    assert_eq!(cmd.as_deref(), Some("cargo"));
    assert_eq!(args, vec!["test", "--all"]);
    let (cmd, args) = split_command_words(vec![], vec!["x".into()]);
    assert_eq!(cmd, None);
    assert_eq!(args, vec!["x"]);
}

#[test]
fn target_parsing() {
    let t = Target::parse("app:build").unwrap();
    assert!(matches!(t.scope, TargetScope::Project(ref p) if p == "app"));
    assert_eq!(t.task_id, "build");
    assert_eq!(t.id, "app:build");
    assert!(matches!(Target::parse("^:build").unwrap().scope, TargetScope::Deps));
    assert!(matches!(Target::parse("~:build").unwrap().scope, TargetScope::OwnSelf));
    assert!(matches!(Target::parse(":build").unwrap().scope, TargetScope::All));
    assert!(matches!(Target::parse("#web:build").unwrap().scope, TargetScope::Tag(ref t) if t == "web"));
    let bare = Target::parse("build").unwrap();
    assert!(matches!(bare.scope, TargetScope::OwnSelf));
    assert_eq!(bare.id, "~:build");
    assert!(Target::parse(":").is_err());
    assert!(Target::parse("").is_err());
    assert!(Target::parse("app:").is_err());
    assert!(Target::parse("a:b:c").is_err());
    assert!(Target::parse("#:build").is_err());
}

#[test]
fn path_parsing() {
    let show = |p: InputPath| format!("{:?}", p);
    assert_eq!(show(InputPath::parse("src/**/*")), show(InputPath::ProjectGlob("src/**/*".into())));
    assert_eq!(show(InputPath::parse("package.json")), show(InputPath::ProjectFile("package.json".into())));
    assert_eq!(show(InputPath::parse("/tsconfig.json")), show(InputPath::WorkspaceFile("tsconfig.json".into())));
    assert_eq!(show(InputPath::parse("/configs/*.yml")), show(InputPath::WorkspaceGlob("configs/*.yml".into())));
    assert_eq!(show(InputPath::parse("$NODE_ENV")), show(InputPath::EnvVar("NODE_ENV".into())));
    assert_eq!(show(InputPath::parse("$VITE_*")), show(InputPath::EnvVarGlob("VITE_*".into())));
    assert_eq!(show(InputPath::parse("$projectRoot")), show(InputPath::TokenVar("$projectRoot".into())));
    assert_eq!(show(InputPath::parse("@group(sources)")), show(InputPath::TokenFunc("@group(sources)".into())));
    assert_eq!(show(InputPath::parse("!dist/**")), show(InputPath::ProjectGlob("!dist/**".into())));
    let out = |p: OutputPath| format!("{:?}", p);
    assert_eq!(out(OutputPath::parse("lib")), out(OutputPath::ProjectFile("lib".into())));
    assert_eq!(out(OutputPath::parse("/dist/*.js")), out(OutputPath::WorkspaceGlob("dist/*.js".into())));
    assert_eq!(out(OutputPath::parse("$project")), out(OutputPath::TokenVar("$project".into())));
}
