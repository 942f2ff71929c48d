# moon_task_builder

Builds the tasks of a project in a moon workspace, with its behaviour stated
in Verus contracts and proved.

A project's tasks come from two places: the tasks that the workspace makes
every project inherit, and the project's own configuration. The builder

- takes the inherited tasks that the project's filters let through
  (`include`, `exclude`, `rename`), with the implicit dependencies and inputs;
- takes the project's environment and tasks;
- for each task, walks its chain of configurations (`extends`, inherited
  before local, or the legacy order) and merges command, arguments, options,
  dependencies, environment, inputs and outputs by each field's merge
  strategy (append, prepend, replace, with dedupe where lists are merged);
- finishes the task: default command `noop`, default inputs, implicit
  dependencies and inputs, type, platform and shell.

## Layout

- `src/` — the verified library.
  - `items`, `id_map`, `merge`: copyable and comparable items, maps kept as
    ordered entries, the list and map merges.
  - `target`, `paths`: targets, inputs and outputs, and their text forms.
  - `config`, `task`, `error`: task configurations, built tasks, errors, and
    the validation of commands and dependencies.
  - `args`: splitting command lines (through `shell-words`) into program and
    arguments.
  - `inherit`: the chain of configurations of a task, and the check that
    following its `extends` comes to an end.
  - `builder`, `builder_spec`, `task_build`: the builder, the mathematical
    description of what it builds, and the building itself.
  - `laws`: properties of the library as a whole, proved.
  - `fixtures`: the workspace, toolchain and inherited-task settings that the
    workspace's test fixtures use.
- `tests/` — tests of the library on concrete values.
- `app/` — the asynchronous and textual edges: building every task while
  subscribers detect platforms, and reading a task configuration from YAML.
