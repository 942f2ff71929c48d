use vstd::prelude::*;
use crate::builder_spec::{BuilderView, InputV, inherit_ids, inherit_tasks, inherited_key};
use crate::config::{FiltersView, InheritedTasksConfig, PlatformType, ProjectConfig, ProjectWorkspaceInheritedTasksConfig, TaskConfig};
use crate::id_map::{IdMap, entries_map};
use crate::items::{Copyable, contains_item, extend_copies, views};
use crate::paths::InputPath;
use crate::target::Target;

verus! {

/// What the platform detection is asked about a task whose platform is unknown.
#[derive(Clone, Debug)]
pub struct DetectPlatformEvent {
    pub enabled_platforms: Vec<PlatformType>,
    pub task_command: String,
}

/// The settings that the builder works with.
#[derive(Clone, Debug)]
pub struct TasksBuilderContext {
    /// The platforms that the toolchain enables, handed to platform detection.
    pub enabled_platforms: Vec<PlatformType>,
    pub legacy_task_inheritance: bool,
    pub workspace_root: String,
}

/// Collects the inherited and local task configurations of one project and
/// builds its tasks from them.
pub struct TasksBuilder {
    pub context: TasksBuilderContext,
    pub project_id: String,
    pub project_env: IdMap<String>,
    pub project_platform: PlatformType,
    pub project_source: String,
    pub implicit_deps: Vec<Target>,
    pub implicit_inputs: Vec<InputPath>,
    pub task_ids: Vec<String>,
    pub global_tasks: IdMap<TaskConfig>,
    pub local_tasks: IdMap<TaskConfig>,
    pub filters: Option<ProjectWorkspaceInheritedTasksConfig>,
}

/// The identifiers in a list, as a set.
pub open spec fn id_set(ids: Seq<String>) -> Set<Seq<char>> {
    views(ids).to_set()
}

pub open spec fn filters_view(f: Option<&ProjectWorkspaceInheritedTasksConfig>) -> Option<FiltersView> {
    match f {
        Some(x) => Some(x@),
        None => None,
    }
}

pub open spec fn opt_string_view(s: Option<String>) -> Option<Seq<char>> {
    match s {
        Some(x) => Some(x@),
        None => None,
    }
}

impl View for TasksBuilder {
    type V = BuilderView;

    open spec fn view(&self) -> BuilderView {
        BuilderView {
            project_id: self.project_id@,
            project_env: self.project_env@,
            project_platform: self.project_platform,
            implicit_deps: views(self.implicit_deps@),
            implicit_inputs: views(self.implicit_inputs@),
            task_ids: id_set(self.task_ids@),
            global_tasks: self.global_tasks@,
            local_tasks: self.local_tasks@,
            filters: match self.filters {
                Some(f) => Some(f@),
                None => None,
            },
            legacy: self.context.legacy_task_inheritance,
        }
    }
}

/// Adds `id` to a list of distinct identifiers.
fn insert_id(ids: &mut Vec<String>, id: String)
    ensures
        id_set(final(ids)@) == id_set(old(ids)@).insert(id@),
        views(old(ids)@).no_duplicates() ==> views(final(ids)@).no_duplicates(),
{
    if !contains_item(ids, &id) {
        let ghost before = ids@;
        let ghost k = id@;
        ids.push(id);
        assert(views(ids@) =~= views(before).push(k));
        assert(id_set(ids@) =~= id_set(before).insert(k)) by {
            assert forall|x: Seq<char>| #[trigger] id_set(ids@).contains(x) == id_set(before).insert(k).contains(x) by {
                if views(before).contains(x) {
                    let j = choose|j: int| 0 <= j < views(before).len() && views(before)[j] == x;
                    assert(views(ids@)[j] == x);
                }
                if x == k {
                    assert(views(ids@)[views(ids@).len() - 1] == x);
                }
                if views(ids@).contains(x) {
                    let j = choose|j: int| 0 <= j < views(ids@).len() && views(ids@)[j] == x;
                    if j < views(before).len() {
                        assert(views(before)[j] == x);
                    }
                }
            }
        }
    } else {
        assert(id_set(ids@) =~= id_set(ids@).insert(id@));
    }
}

/// With an empty list of included tasks nothing is inherited.
pub proof fn lemma_inherit_none(
    tasks: Map<Seq<char>, crate::config::TaskConfigView>,
    ids: Set<Seq<char>>,
    entries: Seq<(String, TaskConfig)>,
    filters: Option<FiltersView>,
)
    requires
        filters matches Some(f) && f.included matches Some(inc) && inc.len() == 0,
    ensures
        inherit_tasks(tasks, entries, filters) == tasks,
        inherit_ids(ids, entries, filters) == ids,
    decreases entries.len(),
{
    if entries.len() > 0 {
        lemma_inherit_none(tasks, ids, entries.drop_last(), filters);
    }
}

/// The name under which an inherited task is taken, if the filters take it.
fn inherited_key_of(filters: Option<&ProjectWorkspaceInheritedTasksConfig>, task_id: &String) -> (r: Option<String>)
    ensures
        opt_string_view(r) == inherited_key(filters_view(filters), task_id@),
{
    match filters {
        None => Some(task_id.clone()),
        Some(f) => {
            if let Some(included) = &f.included {
                if !contains_item(included, task_id) {
                    return None;
                }
            }
            if contains_item(&f.exclude, task_id) {
                return None;
            }
            match f.rename.get(task_id) {
                Some(renamed) => Some(renamed.clone()),
                None => Some(task_id.clone()),
            }
        },
    }
}

impl TasksBuilder {
    /// A builder for project `project_id` with no task yet.
    pub fn new(
        project_id: &str,
        project_source: &str,
        project_platform: &PlatformType,
        context: TasksBuilderContext,
    ) -> (r: Self)
        ensures
            r@.project_id == project_id@,
            r.project_source@ == project_source@,
            r@.project_env == Map::<Seq<char>, Seq<char>>::empty(),
            r@.project_platform == *project_platform,
            r@.implicit_deps.len() == 0,
            r@.implicit_inputs.len() == 0,
            r@.task_ids == Set::<Seq<char>>::empty(),
            r@.global_tasks == Map::<Seq<char>, crate::config::TaskConfigView>::empty(),
            r@.local_tasks == Map::<Seq<char>, crate::config::TaskConfigView>::empty(),
            r@.filters is None,
            r.context == context,
            views(r.task_ids@).no_duplicates(),
    {
        let r = TasksBuilder {
            context,
            project_id: String::from_str(project_id),
            project_env: IdMap::new(),
            project_platform: *project_platform,
            project_source: String::from_str(project_source),
            implicit_deps: Vec::new(),
            implicit_inputs: Vec::new(),
            task_ids: Vec::new(),
            global_tasks: IdMap::new(),
            local_tasks: IdMap::new(),
            filters: None,
        };
        assert(views(r.implicit_deps@) =~= Seq::<crate::target::TargetView>::empty());
        assert(views(r.implicit_inputs@) =~= Seq::<InputV>::empty());
        assert(views(r.task_ids@) =~= Seq::<Seq<char>>::empty());
        assert(id_set(r.task_ids@) =~= Set::<Seq<char>>::empty());
        r
    }

    /// Takes the inherited tasks that the filters let through, under their new
    /// names, and the implicit dependencies and inputs.
    pub fn inherit_global_tasks(
        &mut self,
        global_config: &InheritedTasksConfig,
        global_filters: Option<&ProjectWorkspaceInheritedTasksConfig>,
    ) -> (r: &mut Self)
        requires
            global_config.ids_in_order(),
        ensures
            r@ == (BuilderView {
                global_tasks: inherit_tasks(old(self)@.global_tasks, global_config.tasks.entries@, filters_view(global_filters)),
                task_ids: inherit_ids(old(self)@.task_ids, global_config.tasks.entries@, filters_view(global_filters)),
                filters: filters_view(global_filters),
                implicit_deps: old(self)@.implicit_deps + views(global_config.implicit_deps@),
                implicit_inputs: old(self)@.implicit_inputs + views(global_config.implicit_inputs@),
                ..old(self)@
            }),
            r.context == old(self).context,
            r.project_source == old(self).project_source,
            views(old(self).task_ids@).no_duplicates() ==> views(r.task_ids@).no_duplicates(),
            *final(self) == *final(r),
    {
        let ghost f = filters_view(global_filters);
        let ghost entries = global_config.tasks.entries@;
        let ghost old_tasks = self.global_tasks@;
        let ghost old_ids = id_set(self.task_ids@);
        let ghost nodup = views(self.task_ids@).no_duplicates();
        let include_none = match global_filters {
            Some(filters) => match &filters.included {
                Some(included) => included.len() == 0,
                None => false,
            },
            None => false,
        };
        if include_none {
            proof {
                lemma_inherit_none(old_tasks, old_ids, entries, f);
            }
        } else {
            let mut i: usize = 0;
            while i < global_config.tasks.entries.len()
                invariant
                    i <= entries.len(),
                    entries == global_config.tasks.entries@,
                    f == filters_view(global_filters),
                    self.global_tasks@ == inherit_tasks(old_tasks, entries.take(i as int), f),
                    id_set(self.task_ids@) == inherit_ids(old_ids, entries.take(i as int), f),
                    nodup ==> views(self.task_ids@).no_duplicates(),
                    self.context == old(self).context,
                    self.project_id == old(self).project_id,
                    self.project_env == old(self).project_env,
                    self.project_platform == old(self).project_platform,
                    self.project_source == old(self).project_source,
                    self.implicit_deps == old(self).implicit_deps,
                    self.implicit_inputs == old(self).implicit_inputs,
                    self.local_tasks == old(self).local_tasks,
                    self.filters == old(self).filters,
                decreases entries.len() - i,
            {
                assert(entries.take(i as int + 1).drop_last() =~= entries.take(i as int));
                let entry = &global_config.tasks.entries[i];
                if let Some(task_key) = inherited_key_of(global_filters, &entry.0) {
                    self.global_tasks.insert(task_key.clone(), entry.1.duplicate());
                    insert_id(&mut self.task_ids, task_key);
                }
                i += 1;
            }
            assert(entries.take(entries.len() as int) =~= entries);
        }
        self.filters = match global_filters {
            Some(filters) => Some(filters.duplicate()),
            None => None,
        };
        extend_copies(&mut self.implicit_deps, &global_config.implicit_deps);
        extend_copies(&mut self.implicit_inputs, &global_config.implicit_inputs);
        self
    }

    /// Takes the environment and the tasks of the project's own configuration.
    pub fn load_local_tasks(&mut self, local_config: &ProjectConfig) -> (r: &mut Self)
        ensures
            r@ == (BuilderView {
                project_env: old(self)@.project_env.union_prefer_right(local_config.env@),
                local_tasks: old(self)@.local_tasks.union_prefer_right(local_config.tasks@),
                task_ids: old(self)@.task_ids.union(local_config.tasks@.dom()),
                ..old(self)@
            }),
            r.context == old(self).context,
            r.project_source == old(self).project_source,
            views(old(self).task_ids@).no_duplicates() ==> views(r.task_ids@).no_duplicates(),
            *final(self) == *final(r),
    {
        let ghost env0 = self.project_env@;
        let ghost tasks0 = self.local_tasks@;
        let ghost ids0 = id_set(self.task_ids@);
        let ghost nodup = views(self.task_ids@).no_duplicates();
        let ghost env_entries = local_config.env.entries@;
        let ghost task_entries = local_config.tasks.entries@;
        let mut i: usize = 0;
        while i < local_config.env.entries.len()
            invariant
                i <= env_entries.len(),
                env_entries == local_config.env.entries@,
                self.project_env@ == env0.union_prefer_right(entries_map(env_entries.take(i as int))),
                self.context == old(self).context,
                self.project_id == old(self).project_id,
                self.project_platform == old(self).project_platform,
                self.project_source == old(self).project_source,
                self.implicit_deps == old(self).implicit_deps,
                self.implicit_inputs == old(self).implicit_inputs,
                self.local_tasks == old(self).local_tasks,
                self.global_tasks == old(self).global_tasks,
                self.task_ids == old(self).task_ids,
                self.filters == old(self).filters,
            decreases env_entries.len() - i,
        {
            assert(env_entries.take(i as int + 1).drop_last() =~= env_entries.take(i as int));
            let entry = &local_config.env.entries[i];
            self.project_env.insert(entry.0.clone(), entry.1.clone());
            assert(self.project_env@ =~= env0.union_prefer_right(entries_map(env_entries.take(i as int + 1))));
            i += 1;
        }
        assert(env_entries.take(env_entries.len() as int) =~= env_entries);
        let mut j: usize = 0;
        while j < local_config.tasks.entries.len()
            invariant
                j <= task_entries.len(),
                task_entries == local_config.tasks.entries@,
                self.project_env@ == env0.union_prefer_right(local_config.env@),
                self.local_tasks@ == tasks0.union_prefer_right(entries_map(task_entries.take(j as int))),
                id_set(self.task_ids@) == ids0.union(entries_map(task_entries.take(j as int)).dom()),
                nodup ==> views(self.task_ids@).no_duplicates(),
                self.context == old(self).context,
                self.project_id == old(self).project_id,
                self.project_platform == old(self).project_platform,
                self.project_source == old(self).project_source,
                self.implicit_deps == old(self).implicit_deps,
                self.implicit_inputs == old(self).implicit_inputs,
                self.global_tasks == old(self).global_tasks,
                self.filters == old(self).filters,
            decreases task_entries.len() - j,
        {
            assert(task_entries.take(j as int + 1).drop_last() =~= task_entries.take(j as int));
            let entry = &local_config.tasks.entries[j];
            self.local_tasks.insert(entry.0.clone(), entry.1.duplicate());
            insert_id(&mut self.task_ids, entry.0.clone());
            assert(self.local_tasks@ =~= tasks0.union_prefer_right(entries_map(task_entries.take(j as int + 1))));
            assert(id_set(self.task_ids@) =~= ids0.union(entries_map(task_entries.take(j as int + 1)).dom()));
            j += 1;
        }
        assert(task_entries.take(task_entries.len() as int) =~= task_entries);
        self
    }
}

} // verus!
