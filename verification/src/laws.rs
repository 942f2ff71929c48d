use vstd::prelude::*;
use crate::builder::lemma_inherit_none;
use crate::builder_spec::{
    BuilderView, MergeState, merge_step, last_command, inherit_ids, inherit_tasks, inherited_key, merge_links, prepared_task,
    finished_task, task_options, chain_split, task_from_chain, fold_args, apply_options, fold_options,
    initial_options, filter_deps,
};
use crate::config::{FiltersView, PlatformType, TaskConfig, TaskConfigView, TaskOptionsConfigView, TaskOutputStyle, TaskType};
use crate::task::TaskOptionsView;
use crate::paths::env_file_input;
use crate::id_map::entries_map;
use crate::inherit::{
    Link, chain_ends, chain_walk, inherit_chain, inherit_walk, legacy_steps_to, legacy_walk, lemma_cycle_diverges,
    lemma_legacy_cycle, lemma_reaches_local, lemma_side_steps, lemma_walk_settles, side_walk,
};
use crate::merge::{TaskMergeStrategy, append_items, merged_list, merged_map};
use crate::paths::InputKind;
use crate::task::TaskView;

verus! {

// ---------------------------------------------------------------------------
// Merging lists

/// Items are only ever added after the list they are appended to.
pub proof fn lemma_append_items_prefix<V>(list: Seq<V>, items: Seq<V>, keep_all: bool)
    ensures
        append_items(list, items, keep_all).len() >= list.len(),
        append_items(list, items, keep_all).take(list.len() as int) == list,
    decreases items.len(),
{
    if items.len() > 0 {
        lemma_append_items_prefix(list, items.drop_last(), keep_all);
        let prev = append_items(list, items.drop_last(), keep_all);
        assert(prev.push(items.last()).take(list.len() as int) =~= prev.take(list.len() as int));
    } else {
        assert(list.take(list.len() as int) =~= list);
    }
}

/// Appending holds exactly what the list and the items hold.
pub proof fn lemma_append_items_contains<V>(list: Seq<V>, items: Seq<V>, keep_all: bool, x: V)
    ensures
        append_items(list, items, keep_all).contains(x) == (list.contains(x) || items.contains(x)),
    decreases items.len(),
{
    if items.len() > 0 {
        lemma_append_items_contains(list, items.drop_last(), keep_all, x);
        let prev = append_items(list, items.drop_last(), keep_all);
        let last = items.last();
        if items.contains(x) && !items.drop_last().contains(x) {
            let j = choose|j: int| 0 <= j < items.len() && items[j] == x;
            if j < items.len() - 1 {
                assert(items.drop_last()[j] == x);
            }
        }
        if items.drop_last().contains(x) {
            let j = choose|j: int| 0 <= j < items.drop_last().len() && items.drop_last()[j] == x;
            assert(items[j] == x);
        }
        if keep_all || !prev.contains(last) {
            let r = prev.push(last);
            if prev.contains(x) {
                let j = choose|j: int| 0 <= j < prev.len() && prev[j] == x;
                assert(r[j] == x);
            }
            if x == last {
                assert(r[r.len() - 1] == x);
            }
            if r.contains(x) && x != last {
                let j = choose|j: int| 0 <= j < r.len() && r[j] == x;
                assert(prev[j] == x);
            }
        }
    }
}

/// Appending with dedupe to a list without duplicates leaves none.
pub proof fn lemma_append_items_distinct<V>(list: Seq<V>, items: Seq<V>)
    requires
        list.no_duplicates(),
    ensures
        append_items(list, items, false).no_duplicates(),
    decreases items.len(),
{
    if items.len() > 0 {
        lemma_append_items_distinct(list, items.drop_last());
        let prev = append_items(list, items.drop_last(), false);
        let last = items.last();
        if !prev.contains(last) {
            let r = prev.push(last);
            assert forall|i: int, j: int| 0 <= i < r.len() && 0 <= j < r.len() && i != j implies r[i] != r[j] by {
                if i == r.len() - 1 {
                    assert(prev[j] == r[j]);
                } else if j == r.len() - 1 {
                    assert(prev[i] == r[i]);
                }
            }
        }
    }
}

/// Appending without dedupe is concatenation.
pub proof fn lemma_append_items_all<V>(list: Seq<V>, items: Seq<V>)
    ensures
        append_items(list, items, true) == list + items,
    decreases items.len(),
{
    if items.len() > 0 {
        lemma_append_items_all(list, items.drop_last());
        assert(list + items.drop_last() + seq![items.last()] =~= list + items);
        assert((list + items.drop_last()).push(items.last()) =~= list + items);
    } else {
        assert(list + items =~= list);
    }
}

/// Replacing takes the new list as it is.
pub proof fn law_replace_takes_next<V>(base: Seq<V>, next: Seq<V>, dedupe: bool)
    ensures
        merged_list(base, next, TaskMergeStrategy::Replace, dedupe) == next,
{
}

/// Appending or prepending nothing leaves the list as it was, duplicates included.
pub proof fn law_merge_nothing_keeps_base<V>(base: Seq<V>, strategy: TaskMergeStrategy, dedupe: bool)
    requires
        strategy != TaskMergeStrategy::Replace,
    ensures
        merged_list(base, Seq::<V>::empty(), strategy, dedupe) == base,
{
}

/// Appending keeps the current list first; the merged list holds exactly
/// the items of both lists; without dedupe it is the concatenation; with
/// dedupe it has no duplicates when the current list has none.
pub proof fn law_append_merge<V>(base: Seq<V>, next: Seq<V>, dedupe: bool)
    ensures
        merged_list(base, next, TaskMergeStrategy::Append, dedupe).take(base.len() as int) == base,
        forall|x: V| #[trigger] merged_list(base, next, TaskMergeStrategy::Append, dedupe).contains(x)
            == (base.contains(x) || next.contains(x)),
        !dedupe ==> merged_list(base, next, TaskMergeStrategy::Append, dedupe) == base + next,
        dedupe && base.no_duplicates() ==> merged_list(base, next, TaskMergeStrategy::Append, dedupe).no_duplicates(),
{
    let r = merged_list(base, next, TaskMergeStrategy::Append, dedupe);
    if next.len() == 0 {
        assert(base.take(base.len() as int) =~= base);
        assert(base + next =~= base);
        assert forall|x: V| #[trigger] r.contains(x) == (base.contains(x) || next.contains(x)) by {}
    } else {
        lemma_append_items_prefix(base, next, !dedupe);
        assert forall|x: V| #[trigger] r.contains(x) == (base.contains(x) || next.contains(x)) by {
            lemma_append_items_contains(base, next, !dedupe, x);
        }
        if !dedupe {
            lemma_append_items_all(base, next);
        }
        if dedupe && base.no_duplicates() {
            lemma_append_items_distinct(base, next);
        }
    }
}

/// Prepending puts the new list first; the merged list holds exactly the
/// items of both lists; without dedupe it is the concatenation.
pub proof fn law_prepend_merge<V>(base: Seq<V>, next: Seq<V>, dedupe: bool)
    requires
        next.len() > 0,
    ensures
        merged_list(base, next, TaskMergeStrategy::Prepend, dedupe).take(next.len() as int) == next,
        forall|x: V| #[trigger] merged_list(base, next, TaskMergeStrategy::Prepend, dedupe).contains(x)
            == (base.contains(x) || next.contains(x)),
        !dedupe ==> merged_list(base, next, TaskMergeStrategy::Prepend, dedupe) == next + base,
        dedupe && next.no_duplicates() ==> merged_list(base, next, TaskMergeStrategy::Prepend, dedupe).no_duplicates(),
{
    let r = merged_list(base, next, TaskMergeStrategy::Prepend, dedupe);
    lemma_append_items_prefix(next, base, !dedupe);
    assert forall|x: V| #[trigger] r.contains(x) == (base.contains(x) || next.contains(x)) by {
        lemma_append_items_contains(next, base, !dedupe, x);
    }
    if !dedupe {
        lemma_append_items_all(next, base);
    }
    if dedupe && next.no_duplicates() {
        lemma_append_items_distinct(next, base);
    }
}

// ---------------------------------------------------------------------------
// Merging maps

/// Appending a map lets its values win; prepending lets the current values
/// win; either way the keys are those of both maps. Replacing takes the new map.
pub proof fn law_merge_map<K, V>(base: Map<K, V>, next: Map<K, V>, k: K)
    ensures
        merged_map(base, next, TaskMergeStrategy::Append).contains_key(k) == (base.contains_key(k) || next.contains_key(k)),
        merged_map(base, next, TaskMergeStrategy::Prepend).contains_key(k) == (base.contains_key(k) || next.contains_key(k)),
        next.contains_key(k) ==> merged_map(base, next, TaskMergeStrategy::Append)[k] == next[k],
        !next.contains_key(k) && base.contains_key(k) ==> merged_map(base, next, TaskMergeStrategy::Append)[k] == base[k],
        base.contains_key(k) ==> merged_map(base, next, TaskMergeStrategy::Prepend)[k] == base[k],
        !base.contains_key(k) && next.contains_key(k) ==> merged_map(base, next, TaskMergeStrategy::Prepend)[k] == next[k],
        merged_map(base, next, TaskMergeStrategy::Replace) == next,
{
}

// ---------------------------------------------------------------------------
// Inheriting tasks

/// An empty list of included tasks inherits none.
pub proof fn law_include_nothing(
    tasks: Map<Seq<char>, TaskConfigView>,
    ids: Set<Seq<char>>,
    entries: Seq<(String, TaskConfig)>,
    f: FiltersView,
)
    requires
        f.included == Some(Seq::<Seq<char>>::empty()),
    ensures
        inherit_tasks(tasks, entries, Some(f)) == tasks,
        inherit_ids(ids, entries, Some(f)) == ids,
{
    lemma_inherit_none(tasks, ids, entries, Some(f));
}

/// Without filters every inherited task is taken under its own name.
pub proof fn law_no_filters_take_all(
    tasks: Map<Seq<char>, TaskConfigView>,
    ids: Set<Seq<char>>,
    entries: Seq<(String, TaskConfig)>,
)
    ensures
        inherit_tasks(tasks, entries, None) == tasks.union_prefer_right(entries_map(entries)),
        inherit_ids(ids, entries, None) == ids.union(entries_map(entries).dom()),
    decreases entries.len(),
{
    if entries.len() > 0 {
        law_no_filters_take_all(tasks, ids, entries.drop_last());
        assert(inherit_tasks(tasks, entries, None) =~= tasks.union_prefer_right(entries_map(entries)));
        assert(inherit_ids(ids, entries, None) =~= ids.union(entries_map(entries).dom()));
    } else {
        assert(tasks.union_prefer_right(entries_map(entries)) =~= tasks);
        assert(ids.union(entries_map(entries).dom()) =~= ids);
    }
}

/// An excluded task, or one missing from a given list of included tasks, is
/// not taken; a taken task is renamed where the filters say so.
pub proof fn law_filters(f: FiltersView, id: Seq<char>)
    ensures
        f.exclude.contains(id) ==> inherited_key(Some(f), id) is None,
        (f.included matches Some(inc) && !inc.contains(id)) ==> inherited_key(Some(f), id) is None,
        inherited_key(Some(f), id) is Some && f.rename.contains_key(id) ==> inherited_key(Some(f), id) == Some(f.rename[id]),
        inherited_key(Some(f), id) is Some && !f.rename.contains_key(id) ==> inherited_key(Some(f), id) == Some(id),
{
}

// ---------------------------------------------------------------------------
// Chains of configurations

/// A task configured both in the project and in the inherited tasks, with
/// no `extends`, is built from the inherited configuration and then the
/// project's, so that the project's applies last.
pub proof fn law_local_applies_last(
    legacy: bool,
    id: Seq<char>,
    local: Map<Seq<char>, TaskConfigView>,
    global: Map<Seq<char>, TaskConfigView>,
)
    requires
        local.contains_key(id),
        global.contains_key(id),
        local[id].extends is None,
        global[id].extends is None,
    ensures
        chain_ends(legacy, id, local, global),
        inherit_chain(legacy, id, local, global) == Ok::<Seq<Link>, (Seq<char>, Seq<char>)>(seq![(global[id], true), (local[id], false)]),
{
    if legacy {
        let ext = global.union_prefer_right(local);
        assert(legacy_walk(id, global, ext, true, false, 0) == Some(Ok::<Seq<Link>, (Seq<char>, Seq<char>)>(seq![(global[id], true)])));
        assert(legacy_walk(id, local, ext, false, false, 0) == Some(Ok::<Seq<Link>, (Seq<char>, Seq<char>)>(seq![(local[id], false)])));
        assert(seq![(global[id], true)] + seq![(local[id], false)] =~= seq![(global[id], true), (local[id], false)]);
    } else {
        let s = seq![(local[id], false)] + seq![(global[id], true)];
        assert(side_walk(id, false, local, global, 0) == Some(Ok::<Seq<Link>, (Seq<char>, Seq<char>)>(seq![(local[id], false)])));
        assert(side_walk(id, true, local, global, 0) == Some(Ok::<Seq<Link>, (Seq<char>, Seq<char>)>(seq![(global[id], true)])));
        assert(chain_walk(id, local, global, 0) == Some(Ok::<Seq<Link>, (Seq<char>, Seq<char>)>(s)));
        assert(s.reverse() =~= seq![(global[id], true), (local[id], false)]);
    }
    lemma_walk_settles(legacy, id, local, global, 0);
}

/// A project task that extends a task that no configuration defines cannot
/// be built: the error names both tasks.
pub proof fn law_unknown_extends(
    legacy: bool,
    id: Seq<char>,
    e: Seq<char>,
    local: Map<Seq<char>, TaskConfigView>,
    global: Map<Seq<char>, TaskConfigView>,
)
    requires
        local.contains_key(id),
        local[id].extends == Some(e),
        !global.contains_key(id),
        !local.contains_key(e),
        !global.contains_key(e),
    ensures
        chain_ends(legacy, id, local, global),
        inherit_chain(legacy, id, local, global) == Err::<Seq<Link>, (Seq<char>, Seq<char>)>((id, e)),
{
    if legacy {
        let ext = global.union_prefer_right(local);
        assert(!ext.contains_key(e));
        assert(legacy_walk(id, global, ext, true, false, 1) == Some(Ok::<Seq<Link>, (Seq<char>, Seq<char>)>(Seq::empty())));
        assert(legacy_walk(id, local, ext, false, false, 1) == Some(Err::<Seq<Link>, (Seq<char>, Seq<char>)>((id, e))));
    } else {
        assert(side_walk(e, false, local, global, 0) == Some(Ok::<Seq<Link>, (Seq<char>, Seq<char>)>(Seq::empty())));
        assert(side_walk(e, true, local, global, 0) == Some(Ok::<Seq<Link>, (Seq<char>, Seq<char>)>(Seq::empty())));
        assert(chain_walk(e, local, global, 0) == Some(Ok::<Seq<Link>, (Seq<char>, Seq<char>)>(Seq::<Link>::empty() + Seq::<Link>::empty())));
        assert(side_walk(id, false, local, global, 1) == Some(Err::<Seq<Link>, (Seq<char>, Seq<char>)>((id, e))));
        assert(chain_walk(id, local, global, 1) == Some(Err::<Seq<Link>, (Seq<char>, Seq<char>)>((id, e))));
    }
    lemma_walk_settles(legacy, id, local, global, 1);
}

/// A task whose configurations extend nothing can always be built, whatever
/// cycles other tasks' `extends` form.
pub proof fn law_plain_task_ends(
    legacy: bool,
    id: Seq<char>,
    local: Map<Seq<char>, TaskConfigView>,
    global: Map<Seq<char>, TaskConfigView>,
)
    requires
        local.contains_key(id) ==> local[id].extends is None,
        global.contains_key(id) ==> global[id].extends is None,
    ensures
        chain_ends(legacy, id, local, global),
{
    assert(inherit_walk(legacy, id, local, global, 0) is Some);
}

/// A project task that extends itself is followed without end, unless (with
/// legacy inheritance) its inherited chain, which is followed first, ends in
/// an error.
pub proof fn law_self_extends_never_ends(
    legacy: bool,
    id: Seq<char>,
    local: Map<Seq<char>, TaskConfigView>,
    global: Map<Seq<char>, TaskConfigView>,
)
    requires
        local.contains_key(id),
        local[id].extends == Some(id),
        legacy ==> forall|f: nat| !(#[trigger] legacy_walk(id, global, global.union_prefer_right(local), true, false, f) is Some
            && legacy_walk(id, global, global.union_prefer_right(local), true, false, f)->Some_0 is Err),
    ensures
        !chain_ends(legacy, id, local, global),
{
    if legacy {
        let ext = global.union_prefer_right(local);
        assert(ext.contains_key(id) && ext[id] == local[id]);
        assert(legacy_steps_to(id, true, id, local, ext, false)) by {
            assert forall|f: nat| #[trigger] legacy_walk(id, local, ext, false, true, f) is Some
                implies f >= 1 && legacy_walk(id, local, ext, false, true, (f - 1) as nat) is Some by {
            }
        }
        assert(legacy_steps_to(id, false, id, local, ext, false)) by {
            assert forall|f: nat| #[trigger] legacy_walk(id, local, ext, false, false, f) is Some
                implies f >= 1 && legacy_walk(id, local, ext, false, true, (f - 1) as nat) is Some by {
            }
        }
        lemma_legacy_cycle(id, id, local, ext, false);
        assert forall|f: nat| #[trigger] inherit_walk(true, id, local, global, f) is None by {
            assert(legacy_walk(id, local, ext, false, false, f) is None);
        }
    } else {
        lemma_reaches_local(id, local, global);
        lemma_side_steps(id, false, local, global, id);
        lemma_cycle_diverges(id, id, local, global);
        assert forall|f: nat| #[trigger] inherit_walk(false, id, local, global, f) is None by {
            assert(chain_walk(id, local, global, f) is None);
        }
    }
}

// ---------------------------------------------------------------------------
// Options

/// An interactive task streams its output and is neither cached, persistent
/// nor run in CI, whatever its configurations say.
pub proof fn law_interactive_options(chain: Seq<Link>, is_local: bool)
    ensures
        task_options(chain, is_local).interactive ==> {
            let o = task_options(chain, is_local);
            &&& !o.cache
            &&& !o.persistent
            &&& !o.run_in_ci
            &&& o.output_style == Some(TaskOutputStyle::Stream)
        },
{
}

// ---------------------------------------------------------------------------
// Built tasks

/// The inputs that every task has stay through the merge of its chain.
pub proof fn lemma_global_inputs_kept(s: MergeState, chain: Seq<Link>, o: crate::task::TaskOptionsView, f: Option<FiltersView>, x: (InputKind, Seq<char>))
    requires
        s.global_inputs.contains(x),
    ensures
        merge_links(s, chain, o, f).global_inputs.contains(x),
    decreases chain.len(),
{
    if chain.len() > 0 {
        lemma_global_inputs_kept(s, chain.drop_last(), o, f, x);
        let prev = merge_links(s, chain.drop_last(), o, f);
        let j = choose|j: int| 0 <= j < prev.global_inputs.len() && prev.global_inputs[j] == x;
        assert((prev.global_inputs + chain.last().0.global_inputs)[j] == x);
    }
}

/// A built task always has a program, has the type `build` exactly when it
/// has outputs, depends on every implicit dependency, and reads the
/// workspace configuration and every implicit input.
pub proof fn law_built_task(b: BuilderView, id: Seq<char>)
    ensures
        prepared_task(b, id) matches Ok(t) ==> {
            &&& t.command.len() > 0
            &&& (t.type_of == TaskType::Build) == (t.outputs.len() > 0)
            &&& forall|d| #[trigger] b.implicit_deps.contains(d) ==> t.deps.contains(d)
            &&& t.inputs.contains((InputKind::WorkspaceGlob, ".moon/*.yml"@))
            &&& forall|p| #[trigger] b.implicit_inputs.contains(p) ==> t.inputs.contains(p)
        },
{
    if let Ok(t) = prepared_task(b, id) {
        let chain = inherit_chain(b.legacy, id, b.local_tasks, b.global_tasks)->Ok_0;
        let splits = chain_split(chain)->Ok_0;
        assert(t == task_from_chain(b, id, chain, splits));
        reveal_strlit("noop");
        let is_local = crate::builder_spec::local_flag(chain, crate::builder_spec::default_local(id));
        let options = task_options(chain, is_local);
        let base = crate::builder_spec::base_global_inputs(b.implicit_inputs, options);
        let start = MergeState {
            deps: Seq::empty(),
            env: b.project_env,
            global_inputs: base,
            inputs: Seq::empty(),
            outputs: Seq::empty(),
            configured: 0,
            has_configured: false,
            platform: PlatformType::Unknown,
        };
        let st = merge_links(start, chain, options, b.filters);
        let no_inputs = st.configured == 0 && !st.has_configured;
        let inputs = if no_inputs { st.inputs.push((InputKind::ProjectGlob, "**/*"@)) } else { st.inputs };
        assert forall|d| #[trigger] b.implicit_deps.contains(d) implies t.deps.contains(d) by {
            law_append_merge(st.deps, b.implicit_deps, true);
        }
        let moon = (InputKind::WorkspaceGlob, ".moon/*.yml"@);
        let pushed = b.implicit_inputs.push(moon);
        assert(pushed[pushed.len() - 1] == moon);
        assert(base.contains(moon)) by {
            if let Some(e) = options.env_file {
                assert(base[pushed.len() - 1] == moon);
            }
        }
        lemma_global_inputs_kept(start, chain, options, b.filters, moon);
        law_append_merge(inputs, st.global_inputs, true);
        assert(t.inputs.contains(moon));
        assert forall|p| #[trigger] b.implicit_inputs.contains(p) implies t.inputs.contains(p) by {
            let j = choose|j: int| 0 <= j < b.implicit_inputs.len() && b.implicit_inputs[j] == p;
            assert(pushed[j] == p);
            assert(base.contains(p)) by {
                if let Some(e) = options.env_file {
                    assert(base[j] == p);
                }
            }
            lemma_global_inputs_kept(start, chain, options, b.filters, p);
        }
    }
}

/// Inputs stay unconfigured while no configuration of the chain sets them.
pub proof fn lemma_unconfigured_inputs(s: MergeState, chain: Seq<Link>, o: crate::task::TaskOptionsView, f: Option<FiltersView>)
    requires
        s.configured == 0,
        !s.has_configured,
        forall|i: int| 0 <= i < chain.len() ==> (#[trigger] chain[i]).0.inputs is None,
    ensures
        merge_links(s, chain, o, f).configured == 0,
        !merge_links(s, chain, o, f).has_configured,
    decreases chain.len(),
{
    if chain.len() > 0 {
        assert forall|i: int| 0 <= i < chain.drop_last().len() implies (#[trigger] chain.drop_last()[i]).0.inputs is None by {
            assert(chain.drop_last()[i] == chain[i]);
        }
        lemma_unconfigured_inputs(s, chain.drop_last(), o, f);
        assert(chain.last() == chain[chain.len() - 1]);
    }
}

/// A task whose configurations set no inputs reads every file of its
/// project and is not marked as having its inputs configured away.
pub proof fn law_default_inputs(b: BuilderView, id: Seq<char>)
    ensures
        prepared_task(b, id) matches Ok(t) ==> ((forall|i: int| 0 <= i < inherit_chain(b.legacy, id, b.local_tasks, b.global_tasks)->Ok_0.len()
            ==> (#[trigger] inherit_chain(b.legacy, id, b.local_tasks, b.global_tasks)->Ok_0[i]).0.inputs is None)
            ==> t.inputs.contains((InputKind::ProjectGlob, "**/*"@)) && !t.flags.empty_inputs),
{
    if let Ok(t) = prepared_task(b, id) {
        let chain = inherit_chain(b.legacy, id, b.local_tasks, b.global_tasks)->Ok_0;
        if forall|i: int| 0 <= i < chain.len() ==> (#[trigger] chain[i]).0.inputs is None {
            let splits = chain_split(chain)->Ok_0;
            assert(t == task_from_chain(b, id, chain, splits));
            let is_local = crate::builder_spec::local_flag(chain, crate::builder_spec::default_local(id));
            let options = task_options(chain, is_local);
            let start = MergeState {
                deps: Seq::empty(),
                env: b.project_env,
                global_inputs: crate::builder_spec::base_global_inputs(b.implicit_inputs, options),
                inputs: Seq::empty(),
                outputs: Seq::empty(),
                configured: 0,
                has_configured: false,
                platform: PlatformType::Unknown,
            };
            lemma_unconfigured_inputs(start, chain, options, b.filters);
            let st = merge_links(start, chain, options, b.filters);
            let glob = (InputKind::ProjectGlob, "**/*"@);
            let inputs = st.inputs.push(glob);
            assert(inputs[inputs.len() - 1] == glob);
            law_append_merge(inputs, st.global_inputs, true);
        }
    }
}

/// A finished task has a known platform: its own where it had one, else the
/// detected one, else the project's, else the system; and a task without a
/// shell setting on the system platform runs in a shell.
pub proof fn law_finished_platform(t: TaskView, detected: PlatformType, project_platform: PlatformType, windows_host: bool)
    ensures
        finished_task(t, detected, project_platform, windows_host).platform != PlatformType::Unknown,
        t.platform != PlatformType::Unknown ==> finished_task(t, detected, project_platform, windows_host).platform == t.platform,
        t.platform == PlatformType::Unknown && detected == PlatformType::Unknown && project_platform != PlatformType::Unknown
            ==> finished_task(t, detected, project_platform, windows_host).platform == project_platform,
        t.options.shell is None && finished_task(t, detected, project_platform, windows_host).platform == PlatformType::System
            ==> finished_task(t, detected, project_platform, windows_host).options.shell == Some(true),
        t.options.shell is Some ==> finished_task(t, detected, project_platform, windows_host).options.shell == t.options.shell,
{
}

/// The tasks `dev`, `serve` and `start` run locally, and others do not,
/// unless a configuration of their chain says otherwise; the last one that
/// says so decides.
pub proof fn law_local_by_name(chain: Seq<Link>, id: Seq<char>)
    ensures
        (forall|i: int| 0 <= i < chain.len() ==> (#[trigger] chain[i]).0.local is None)
            ==> crate::builder_spec::local_flag(chain, crate::builder_spec::default_local(id)) == crate::builder_spec::default_local(id),
        chain.len() > 0 && chain.last().0.local is Some
            ==> crate::builder_spec::local_flag(chain, crate::builder_spec::default_local(id)) == chain.last().0.local->0,
    decreases chain.len(),
{
    if chain.len() > 0 {
        law_local_by_name(chain.drop_last(), id);
        if forall|i: int| 0 <= i < chain.len() ==> (#[trigger] chain[i]).0.local is None {
            assert forall|i: int| 0 <= i < chain.drop_last().len() implies (#[trigger] chain.drop_last()[i]).0.local is None by {
                assert(chain.drop_last()[i] == chain[i]);
            }
            assert(chain.last() == chain[chain.len() - 1]);
        }
    }
}

/// The identifiers of the tasks to build are the names of the inherited and
/// of the local tasks: taking inherited tasks keeps it so.
pub proof fn law_inherit_keeps_ids(
    ids: Set<Seq<char>>,
    global: Map<Seq<char>, TaskConfigView>,
    local: Map<Seq<char>, TaskConfigView>,
    entries: Seq<(String, TaskConfig)>,
    f: Option<FiltersView>,
)
    requires
        ids == global.dom().union(local.dom()),
    ensures
        inherit_ids(ids, entries, f) == inherit_tasks(global, entries, f).dom().union(local.dom()),
    decreases entries.len(),
{
    if entries.len() > 0 {
        law_inherit_keeps_ids(ids, global, local, entries.drop_last(), f);
        assert(inherit_ids(ids, entries, f) =~= inherit_tasks(global, entries, f).dom().union(local.dom()));
    } else {
        assert(inherit_ids(ids, entries, f) =~= inherit_tasks(global, entries, f).dom().union(local.dom()));
    }
}

/// Taking the local tasks keeps the identifiers of the tasks to build equal
/// to the names of the inherited and of the local tasks.
pub proof fn law_load_keeps_ids(
    ids: Set<Seq<char>>,
    global: Map<Seq<char>, TaskConfigView>,
    local: Map<Seq<char>, TaskConfigView>,
    loaded: Map<Seq<char>, TaskConfigView>,
)
    requires
        ids == global.dom().union(local.dom()),
    ensures
        ids.union(loaded.dom()) == global.dom().union(local.union_prefer_right(loaded).dom()),
{
    assert(ids.union(loaded.dom()) =~= global.dom().union(local.union_prefer_right(loaded).dom()));
}

/// Reading a key of a map just written gives the value written; other
/// keys read as before.
pub proof fn law_read_after_write<V: View>(s: Seq<(String, V)>, k: String, v: V, other: Seq<char>)
    ensures
        entries_map(s.push((k, v))).contains_key(k@),
        entries_map(s.push((k, v)))[k@] == v@,
        other != k@ ==> entries_map(s.push((k, v))).contains_key(other) == entries_map(s).contains_key(other),
        other != k@ && entries_map(s).contains_key(other) ==> entries_map(s.push((k, v)))[other] == entries_map(s)[other],
{
    assert(s.push((k, v)).drop_last() =~= s);
}


// ---------------------------------------------------------------------------
// How a task's configurations combine

/// The arguments of the configurations one after the other, first to last.
pub open spec fn args_in_order(splits: Seq<(Option<Seq<char>>, Seq<Seq<char>>)>) -> Seq<Seq<char>>
    decreases splits.len(),
{
    if splits.len() == 0 {
        Seq::empty()
    } else {
        args_in_order(splits.drop_last()) + splits.last().1
    }
}

/// The arguments of the configurations one after the other, last to first.
pub open spec fn args_in_reverse(splits: Seq<(Option<Seq<char>>, Seq<Seq<char>>)>) -> Seq<Seq<char>>
    decreases splits.len(),
{
    if splits.len() == 0 {
        Seq::empty()
    } else {
        splits.last().1 + args_in_reverse(splits.drop_last())
    }
}

/// Merging the arguments of the configurations with `mergeArgs`: with
/// `replace` only the last configuration's arguments remain (even none);
/// with `append` all of them in order, nothing removed; with `prepend` all
/// of them, the last configuration's first.
pub proof fn law_args_strategy(acc: Seq<Seq<char>>, splits: Seq<(Option<Seq<char>>, Seq<Seq<char>>)>)
    ensures
        splits.len() > 0 ==> fold_args(acc, splits, TaskMergeStrategy::Replace) == splits.last().1,
        fold_args(acc, splits, TaskMergeStrategy::Append) == acc + args_in_order(splits),
        fold_args(acc, splits, TaskMergeStrategy::Prepend) == args_in_reverse(splits) + acc,
    decreases splits.len(),
{
    if splits.len() == 0 {
        assert(acc + Seq::<Seq<char>>::empty() =~= acc);
        assert(Seq::<Seq<char>>::empty() + acc =~= acc);
    } else {
        law_args_strategy(acc, splits.drop_last());
        let next = splits.last().1;
        let pa = fold_args(acc, splits.drop_last(), TaskMergeStrategy::Append);
        let pp = fold_args(acc, splits.drop_last(), TaskMergeStrategy::Prepend);
        law_append_merge(pa, next, false);
        assert(acc + args_in_order(splits.drop_last()) + next =~= acc + (args_in_order(splits.drop_last()) + next));
        if next.len() > 0 {
            law_prepend_merge(pp, next, false);
        } else {
            assert(next + pp =~= pp);
        }
        assert(next + (args_in_reverse(splits.drop_last()) + acc) =~= (next + args_in_reverse(splits.drop_last())) + acc);
    }
}

/// The arguments of a built task follow its `mergeArgs`: with `replace` they
/// are those of the last configuration of its chain, with `append` those of
/// every configuration in order.
pub proof fn law_built_args(b: BuilderView, id: Seq<char>)
    ensures
        prepared_task(b, id) matches Ok(t) ==> {
            let splits = chain_split(inherit_chain(b.legacy, id, b.local_tasks, b.global_tasks)->Ok_0)->Ok_0;
            &&& (t.options.merge_args == TaskMergeStrategy::Replace && splits.len() > 0 ==> t.args == splits.last().1)
            &&& (t.options.merge_args == TaskMergeStrategy::Append ==> t.args == args_in_order(splits))
        },
{
    if let Ok(t) = prepared_task(b, id) {
        let splits = chain_split(inherit_chain(b.legacy, id, b.local_tasks, b.global_tasks)->Ok_0)->Ok_0;
        law_args_strategy(Seq::empty(), splits);
        assert(Seq::<Seq<char>>::empty() + args_in_order(splits) =~= args_in_order(splits));
    }
}

/// Whether a task runs locally is decided by the last configuration of its
/// chain that sets `local`; later configurations that leave it unset do not
/// change it.
pub proof fn law_local_last_set(chain: Seq<Link>, init: bool, i: int)
    requires
        0 <= i < chain.len(),
        chain[i].0.local is Some,
        forall|j: int| i < j < chain.len() ==> (#[trigger] chain[j]).0.local is None,
    ensures
        crate::builder_spec::local_flag(chain, init) == chain[i].0.local->0,
    decreases chain.len(),
{
    if i < chain.len() - 1 {
        assert(chain.last() == chain[chain.len() - 1]);
        assert forall|j: int| i < j < chain.drop_last().len() implies (#[trigger] chain.drop_last()[j]).0.local is None by {
            assert(chain.drop_last()[j] == chain[j]);
        }
        assert(chain.drop_last()[i] == chain[i]);
        law_local_last_set(chain.drop_last(), init, i);
    } else {
        assert(chain.last() == chain[i]);
    }
}

/// A configuration that sets an option decides it; one that leaves it unset
/// keeps the value so far.
pub proof fn law_option_set(o: TaskOptionsView, c: TaskOptionsConfigView)
    ensures
        ({
            let r = apply_options(o, c);
            &&& r.affected_files == (if c.affected_files is Some { c.affected_files } else { o.affected_files })
            &&& (c.allow_failure matches Some(v) ==> r.allow_failure == v) && (c.allow_failure is None ==> r.allow_failure == o.allow_failure)
            &&& (c.cache matches Some(v) ==> r.cache == v) && (c.cache is None ==> r.cache == o.cache)
            &&& (c.env_file matches Some(e) ==> r.env_file == env_file_input(e)) && (c.env_file is None ==> r.env_file == o.env_file)
            &&& (c.interactive matches Some(v) ==> r.interactive == v) && (c.interactive is None ==> r.interactive == o.interactive)
            &&& (c.merge_args matches Some(v) ==> r.merge_args == v) && (c.merge_args is None ==> r.merge_args == o.merge_args)
            &&& (c.merge_deps matches Some(v) ==> r.merge_deps == v) && (c.merge_deps is None ==> r.merge_deps == o.merge_deps)
            &&& (c.merge_env matches Some(v) ==> r.merge_env == v) && (c.merge_env is None ==> r.merge_env == o.merge_env)
            &&& (c.merge_inputs matches Some(v) ==> r.merge_inputs == v) && (c.merge_inputs is None ==> r.merge_inputs == o.merge_inputs)
            &&& (c.merge_outputs matches Some(v) ==> r.merge_outputs == v) && (c.merge_outputs is None ==> r.merge_outputs == o.merge_outputs)
            &&& r.output_style == (if c.output_style is Some { c.output_style } else { o.output_style })
            &&& (c.persistent matches Some(v) ==> r.persistent == v) && (c.persistent is None ==> r.persistent == o.persistent)
            &&& (c.retry_count matches Some(v) ==> r.retry_count == v) && (c.retry_count is None ==> r.retry_count == o.retry_count)
            &&& (c.run_deps_in_parallel matches Some(v) ==> r.run_deps_in_parallel == v) && (c.run_deps_in_parallel is None ==> r.run_deps_in_parallel == o.run_deps_in_parallel)
            &&& (c.run_in_ci matches Some(v) ==> r.run_in_ci == v) && (c.run_in_ci is None ==> r.run_in_ci == o.run_in_ci)
            &&& (c.run_from_workspace_root matches Some(v) ==> r.run_from_workspace_root == v) && (c.run_from_workspace_root is None ==> r.run_from_workspace_root == o.run_from_workspace_root)
            &&& r.shell == (if c.shell is Some { c.shell } else { o.shell })
        }),
{
}

/// Along a chain, the `cache` option is that of the last configuration that
/// sets it.
pub proof fn law_cache_last_set(o: TaskOptionsView, chain: Seq<Link>, i: int)
    requires
        0 <= i < chain.len(),
        chain[i].0.options.cache is Some,
        forall|j: int| i < j < chain.len() ==> (#[trigger] chain[j]).0.options.cache is None,
    ensures
        fold_options(o, chain).cache == chain[i].0.options.cache->0,
    decreases chain.len(),
{
    if i < chain.len() - 1 {
        assert(chain.last() == chain[chain.len() - 1]);
        assert forall|j: int| i < j < chain.drop_last().len() implies (#[trigger] chain.drop_last()[j]).0.options.cache is None by {
            assert(chain.drop_last()[j] == chain[j]);
        }
        assert(chain.drop_last()[i] == chain[i]);
        law_cache_last_set(o, chain.drop_last(), i);
    } else {
        assert(chain.last() == chain[i]);
    }
}

/// A task that is not interactive and whose configuration sets `cache` is
/// cached as configured.
pub proof fn law_cache_configured(chain: Seq<Link>, is_local: bool, i: int)
    requires
        0 <= i < chain.len(),
        chain[i].0.options.cache is Some,
        forall|j: int| i < j < chain.len() ==> (#[trigger] chain[j]).0.options.cache is None,
        !task_options(chain, is_local).interactive,
    ensures
        task_options(chain, is_local).cache == chain[i].0.options.cache->0,
{
    law_cache_last_set(initial_options(is_local), chain, i);
}

/// The dependencies a configuration brings: an inherited configuration's
/// after the filters.
pub open spec fn link_deps(link: Link, filters: Option<FiltersView>) -> Seq<crate::target::TargetView> {
    if link.1 { filter_deps(filters, link.0.deps) } else { link.0.deps }
}

/// With `mergeDeps: replace` the dependencies are those of the last
/// configuration of the chain; with `append` the dependencies so far stay
/// first and every configuration's are added after them.
pub proof fn law_deps_strategy(s: MergeState, chain: Seq<Link>, o: TaskOptionsView, f: Option<FiltersView>)
    ensures
        o.merge_deps == TaskMergeStrategy::Replace && chain.len() > 0
            ==> merge_links(s, chain, o, f).deps == link_deps(chain.last(), f),
        o.merge_deps == TaskMergeStrategy::Append
            ==> s.deps.len() <= merge_links(s, chain, o, f).deps.len()
            && merge_links(s, chain, o, f).deps.take(s.deps.len() as int) == s.deps,
        o.merge_deps == TaskMergeStrategy::Append ==> forall|i: int, x| 0 <= i < chain.len() && #[trigger] link_deps(chain[i], f).contains(x)
            ==> #[trigger] merge_links(s, chain, o, f).deps.contains(x),
    decreases chain.len(),
{
    if chain.len() > 0 {
        law_deps_strategy(s, chain.drop_last(), o, f);
        let prev = merge_links(s, chain.drop_last(), o, f).deps;
        let next = link_deps(chain.last(), f);
        if o.merge_deps == TaskMergeStrategy::Append {
            law_append_merge(prev, next, true);
            lemma_append_items_prefix(prev, next, false);
            let r = merge_links(s, chain, o, f).deps;
            assert(r.take(prev.len() as int) == prev);
            assert(r.len() >= prev.len());
            assert forall|k: int| 0 <= k < s.deps.len() implies r[k] == s.deps[k] by {
                assert(r.take(prev.len() as int)[k] == prev[k]);
                assert(prev.take(s.deps.len() as int)[k] == s.deps[k]);
            }
            assert(r.take(s.deps.len() as int) =~= s.deps);
            assert forall|i: int, x| 0 <= i < chain.len() && #[trigger] link_deps(chain[i], f).contains(x) implies #[trigger] r.contains(x) by {
                if i < chain.len() - 1 {
                    assert(chain.drop_last()[i] == chain[i]);
                    assert(prev.contains(x));
                } else {
                    assert(chain.last() == chain[i]);
                }
            }
        }
    }
}

/// With `mergeDeps: replace` and no implicit dependencies, a built task
/// depends on exactly the dependencies of the last configuration of its chain.
pub proof fn law_built_deps_replace(b: BuilderView, id: Seq<char>)
    ensures
        prepared_task(b, id) matches Ok(t) ==> {
            let chain = inherit_chain(b.legacy, id, b.local_tasks, b.global_tasks)->Ok_0;
            t.options.merge_deps == TaskMergeStrategy::Replace && chain.len() > 0 && b.implicit_deps.len() == 0
                ==> t.deps == link_deps(chain.last(), b.filters)
        },
{
    if let Ok(t) = prepared_task(b, id) {
        let chain = inherit_chain(b.legacy, id, b.local_tasks, b.global_tasks)->Ok_0;
        let is_local = crate::builder_spec::local_flag(chain, crate::builder_spec::default_local(id));
        let options = task_options(chain, is_local);
        let start = MergeState {
            deps: Seq::empty(),
            env: b.project_env,
            global_inputs: crate::builder_spec::base_global_inputs(b.implicit_inputs, options),
            inputs: Seq::empty(),
            outputs: Seq::empty(),
            configured: 0,
            has_configured: false,
            platform: PlatformType::Unknown,
        };
        law_deps_strategy(start, chain, options, b.filters);
    }
}

/// A task without a platform of its own takes the detected one whenever
/// detection finds one, whatever the project's platform; and it runs in a
/// shell on a host other than Windows only where it has no shell setting and
/// lands on the system platform.
pub proof fn law_detected_platform(t: TaskView, detected: PlatformType, project_platform: PlatformType, windows_host: bool)
    ensures
        t.platform == PlatformType::Unknown && detected != PlatformType::Unknown
            ==> finished_task(t, detected, project_platform, windows_host).platform == detected,
        t.platform == PlatformType::Unknown && detected == PlatformType::Unknown && project_platform == PlatformType::Unknown
            ==> finished_task(t, detected, project_platform, windows_host).platform == PlatformType::System,
        !windows_host && finished_task(t, detected, project_platform, windows_host).platform != PlatformType::System
            ==> finished_task(t, detected, project_platform, windows_host).options.shell == t.options.shell,
        windows_host && t.options.shell is None
            ==> finished_task(t, detected, project_platform, windows_host).options.shell == Some(true),
{
}


/// What one configuration does to the task, field by field, as the task's
/// merge strategies say: its environment replaces the task's with `replace`,
/// wins over it with `append` and gives way to it with `prepend`; inputs and
/// outputs it sets replace the task's with `replace` and are kept after them
/// with `append`; ones it leaves unset stay; a platform it names wins.
pub proof fn law_merge_step_fields(s: MergeState, link: Link, o: TaskOptionsView, f: Option<FiltersView>, k: Seq<char>)
    ensures
        ({
            let r = merge_step(s, link, o, f);
            let c = link.0;
            &&& o.merge_env == TaskMergeStrategy::Replace ==> r.env == c.env
            &&& o.merge_env == TaskMergeStrategy::Append && c.env.contains_key(k) ==> r.env.contains_key(k) && r.env[k] == c.env[k]
            &&& o.merge_env == TaskMergeStrategy::Append && !c.env.contains_key(k) ==> r.env.contains_key(k) == s.env.contains_key(k)
                && (s.env.contains_key(k) ==> r.env[k] == s.env[k])
            &&& o.merge_env == TaskMergeStrategy::Prepend && s.env.contains_key(k) ==> r.env.contains_key(k) && r.env[k] == s.env[k]
            &&& o.merge_env == TaskMergeStrategy::Prepend && !s.env.contains_key(k) ==> r.env.contains_key(k) == c.env.contains_key(k)
                && (c.env.contains_key(k) ==> r.env[k] == c.env[k])
            &&& c.inputs is None ==> r.inputs == s.inputs
            &&& c.inputs is Some && o.merge_inputs == TaskMergeStrategy::Replace ==> r.inputs == c.inputs->0
            &&& c.inputs is Some && o.merge_inputs == TaskMergeStrategy::Append ==> r.inputs.len() >= s.inputs.len()
                && r.inputs.take(s.inputs.len() as int) == s.inputs
                && forall|x| #[trigger] r.inputs.contains(x) == (s.inputs.contains(x) || c.inputs->0.contains(x))
            &&& c.outputs is None ==> r.outputs == s.outputs
            &&& c.outputs is Some && o.merge_outputs == TaskMergeStrategy::Replace ==> r.outputs == c.outputs->0
            &&& c.outputs is Some && o.merge_outputs == TaskMergeStrategy::Append ==> r.outputs.len() >= s.outputs.len()
                && r.outputs.take(s.outputs.len() as int) == s.outputs
                && forall|x| #[trigger] r.outputs.contains(x) == (s.outputs.contains(x) || c.outputs->0.contains(x))
            &&& r.platform == (if c.platform != PlatformType::Unknown { c.platform } else { s.platform })
        }),
{
    let c = link.0;
    law_merge_map(s.env, c.env, k);
    if let Some(i) = c.inputs {
        law_append_merge(s.inputs, i, true);
        if i.len() > 0 {
            lemma_append_items_prefix(s.inputs, i, false);
        }
    }
    if let Some(i) = c.outputs {
        law_append_merge(s.outputs, i, true);
        if i.len() > 0 {
            lemma_append_items_prefix(s.outputs, i, false);
        }
    }
}


/// The program of a task is the one named by the last configuration of its
/// chain that names one; later configurations that name none do not change it.
pub proof fn law_command_last_named(splits: Seq<(Option<Seq<char>>, Seq<Seq<char>>)>, init: Seq<char>, i: int)
    requires
        0 <= i < splits.len(),
        splits[i].0 is Some,
        forall|j: int| i < j < splits.len() ==> (#[trigger] splits[j]).0 is None,
    ensures
        last_command(splits, init) == splits[i].0->0,
    decreases splits.len(),
{
    if i < splits.len() - 1 {
        assert(splits.last() == splits[splits.len() - 1]);
        assert forall|j: int| i < j < splits.drop_last().len() implies (#[trigger] splits.drop_last()[j]).0 is None by {
            assert(splits.drop_last()[j] == splits[j]);
        }
        assert(splits.drop_last()[i] == splits[i]);
        law_command_last_named(splits.drop_last(), init, i);
    } else {
        assert(splits.last() == splits[i]);
    }
}

/// Where no configuration names a program, the starting one stays.
pub proof fn law_command_none_named(splits: Seq<(Option<Seq<char>>, Seq<Seq<char>>)>, init: Seq<char>)
    requires
        forall|j: int| 0 <= j < splits.len() ==> (#[trigger] splits[j]).0 is None,
    ensures
        last_command(splits, init) == init,
    decreases splits.len(),
{
    if splits.len() > 0 {
        assert(splits.last() == splits[splits.len() - 1]);
        assert forall|j: int| 0 <= j < splits.drop_last().len() implies (#[trigger] splits.drop_last()[j]).0 is None by {
            assert(splits.drop_last()[j] == splits[j]);
        }
        law_command_none_named(splits.drop_last(), init);
    }
}

} // verus!
