use vstd::prelude::*;
use crate::config::{TaskConfig, TaskConfigView};
use crate::error::{BuildError, TasksBuilderError};
use crate::id_map::{IdMap, lemma_entries_concat, lemma_entries_empty};
use crate::items::{Copyable, contains_item, copy_vec, views};

verus! {

/// A task configuration in the order of inheritance, and whether it came from
/// the inherited (global) tasks.
pub struct ConfigChain {
    pub config: TaskConfig,
    pub inherited: bool,
}

impl View for ConfigChain {
    type V = (TaskConfigView, bool);

    open spec fn view(&self) -> (TaskConfigView, bool) {
        (self.config@, self.inherited)
    }
}

pub type Link = (TaskConfigView, bool);

/// What following a chain of `extends` gives where the nesting it needs is
/// no deeper than the fuel it was given (`None` where it is deeper).
pub type Outcome = Option<Result<Seq<Link>, (Seq<char>, Seq<char>)>>;

/// One side (local, or inherited where `inherited`) of the nearest-first
/// chain of task `id`: its configuration, then the whole chain of the task
/// it extends. An `extends` whose chain is empty is an error `(id, extended
/// id)`; so is any error met on the way.
pub open spec fn side_walk(
    id: Seq<char>,
    inherited: bool,
    local: Map<Seq<char>, TaskConfigView>,
    global: Map<Seq<char>, TaskConfigView>,
    fuel: nat,
) -> Outcome
    decreases fuel, 0nat,
{
    let tasks = if inherited { global } else { local };
    if !tasks.contains_key(id) {
        Some(Ok(Seq::empty()))
    } else {
        let c = tasks[id];
        match c.extends {
            None => Some(Ok(seq![(c, inherited)])),
            Some(e) => if fuel == 0 {
                None
            } else {
                match chain_walk(e, local, global, (fuel - 1) as nat) {
                    None => None,
                    Some(Err(x)) => Some(Err(x)),
                    Some(Ok(s)) => if s.len() == 0 {
                        Some(Err((id, e)))
                    } else {
                        Some(Ok(seq![(c, inherited)] + s))
                    },
                }
            },
        }
    }
}

/// The configurations of task `id`, nearest first: the local side, then the
/// inherited side, stopping at the first error.
pub open spec fn chain_walk(
    id: Seq<char>,
    local: Map<Seq<char>, TaskConfigView>,
    global: Map<Seq<char>, TaskConfigView>,
    fuel: nat,
) -> Outcome
    decreases fuel, 1nat,
{
    match side_walk(id, false, local, global, fuel) {
        Some(Ok(ls)) => match side_walk(id, true, local, global, fuel) {
            Some(Ok(gs)) => Some(Ok(ls + gs)),
            other => other,
        },
        other => other,
    }
}

/// The legacy order: what the configuration of `id` extends, then that
/// configuration. The first configuration is looked up in `tasks`, every
/// extended one in `extendable`; an `extends` that `extendable` lacks is an
/// error.
pub open spec fn legacy_walk(
    id: Seq<char>,
    tasks: Map<Seq<char>, TaskConfigView>,
    extendable: Map<Seq<char>, TaskConfigView>,
    inherited: bool,
    extended: bool,
    fuel: nat,
) -> Outcome
    decreases fuel,
{
    let lookup = if extended { extendable } else { tasks };
    if !lookup.contains_key(id) {
        Some(Ok(Seq::empty()))
    } else {
        let c = lookup[id];
        match c.extends {
            None => Some(Ok(seq![(c, inherited)])),
            Some(e) => if !extendable.contains_key(e) {
                Some(Err((id, e)))
            } else if fuel == 0 {
                None
            } else {
                match legacy_walk(e, tasks, extendable, inherited, true, (fuel - 1) as nat) {
                    Some(Ok(s)) => Some(Ok(s.push((c, inherited)))),
                    other => other,
                }
            },
        }
    }
}

/// The configurations that task `id` is built from, in the order they apply:
/// with legacy inheritance, the inherited chain then the local one, where
/// extended configurations come from both maps with the local ones
/// overriding; otherwise the nearest-first chain reversed.
pub open spec fn inherit_walk(
    legacy: bool,
    id: Seq<char>,
    local: Map<Seq<char>, TaskConfigView>,
    global: Map<Seq<char>, TaskConfigView>,
    fuel: nat,
) -> Outcome {
    if legacy {
        let extendable = global.union_prefer_right(local);
        match legacy_walk(id, global, extendable, true, false, fuel) {
            Some(Ok(g)) => match legacy_walk(id, local, extendable, false, false, fuel) {
                Some(Ok(l)) => Some(Ok(g + l)),
                other => other,
            },
            other => other,
        }
    } else {
        match chain_walk(id, local, global, fuel) {
            Some(Ok(s)) => Some(Ok(s.reverse())),
            other => other,
        }
    }
}

/// Following the `extends` of task `id` comes to an end: it does not come
/// back to a task that it is still following.
pub open spec fn chain_ends(
    legacy: bool,
    id: Seq<char>,
    local: Map<Seq<char>, TaskConfigView>,
    global: Map<Seq<char>, TaskConfigView>,
) -> bool {
    exists|fuel: nat| #[trigger] inherit_walk(legacy, id, local, global, fuel) is Some
}

/// The chain of task `id` where it ends (see `inherit_walk`).
pub open spec fn inherit_chain(
    legacy: bool,
    id: Seq<char>,
    local: Map<Seq<char>, TaskConfigView>,
    global: Map<Seq<char>, TaskConfigView>,
) -> Result<Seq<Link>, (Seq<char>, Seq<char>)> {
    let fuel = choose|fuel: nat| #[trigger] inherit_walk(legacy, id, local, global, fuel) is Some;
    match inherit_walk(legacy, id, local, global, fuel) {
        Some(r) => r,
        None => Err((id, id)),
    }
}

/// More fuel does not change a side that has ended.
pub proof fn lemma_side_walk_mono(
    id: Seq<char>,
    inherited: bool,
    local: Map<Seq<char>, TaskConfigView>,
    global: Map<Seq<char>, TaskConfigView>,
    f: nat,
    g: nat,
)
    requires
        f <= g,
        side_walk(id, inherited, local, global, f) is Some,
    ensures
        side_walk(id, inherited, local, global, g) == side_walk(id, inherited, local, global, f),
    decreases f, 0nat,
{
    let tasks = if inherited { global } else { local };
    if tasks.contains_key(id) {
        if let Some(e) = tasks[id].extends {
            assert(f > 0);
            lemma_chain_walk_mono(e, local, global, (f - 1) as nat, (g - 1) as nat);
        }
    }
}

/// More fuel does not change a chain that has ended.
pub proof fn lemma_chain_walk_mono(
    id: Seq<char>,
    local: Map<Seq<char>, TaskConfigView>,
    global: Map<Seq<char>, TaskConfigView>,
    f: nat,
    g: nat,
)
    requires
        f <= g,
        chain_walk(id, local, global, f) is Some,
    ensures
        chain_walk(id, local, global, g) == chain_walk(id, local, global, f),
    decreases f, 1nat,
{
    lemma_side_walk_mono(id, false, local, global, f, g);
    if side_walk(id, false, local, global, f) matches Some(Ok(_)) {
        lemma_side_walk_mono(id, true, local, global, f, g);
    }
}

/// More fuel does not change a legacy chain that has ended.
pub proof fn lemma_legacy_walk_mono(
    id: Seq<char>,
    tasks: Map<Seq<char>, TaskConfigView>,
    extendable: Map<Seq<char>, TaskConfigView>,
    inherited: bool,
    extended: bool,
    f: nat,
    g: nat,
)
    requires
        f <= g,
        legacy_walk(id, tasks, extendable, inherited, extended, f) is Some,
    ensures
        legacy_walk(id, tasks, extendable, inherited, extended, g) == legacy_walk(id, tasks, extendable, inherited, extended, f),
    decreases f,
{
    let lookup = if extended { extendable } else { tasks };
    if lookup.contains_key(id) {
        if let Some(e) = lookup[id].extends {
            if extendable.contains_key(e) {
                assert(f > 0);
                lemma_legacy_walk_mono(e, tasks, extendable, inherited, true, (f - 1) as nat, (g - 1) as nat);
            }
        }
    }
}

/// More fuel does not change a chain of inheritance that has ended.
pub proof fn lemma_inherit_walk_mono(
    legacy: bool,
    id: Seq<char>,
    local: Map<Seq<char>, TaskConfigView>,
    global: Map<Seq<char>, TaskConfigView>,
    f: nat,
    g: nat,
)
    requires
        f <= g,
        inherit_walk(legacy, id, local, global, f) is Some,
    ensures
        inherit_walk(legacy, id, local, global, g) == inherit_walk(legacy, id, local, global, f),
{
    if legacy {
        let ext = global.union_prefer_right(local);
        lemma_legacy_walk_mono(id, global, ext, true, false, f, g);
        if legacy_walk(id, global, ext, true, false, f) matches Some(Ok(_)) {
            lemma_legacy_walk_mono(id, local, ext, false, false, f, g);
        }
    } else {
        lemma_chain_walk_mono(id, local, global, f, g);
    }
}

/// A chain that ends at some fuel is the chain of the task.
pub proof fn lemma_walk_settles(
    legacy: bool,
    id: Seq<char>,
    local: Map<Seq<char>, TaskConfigView>,
    global: Map<Seq<char>, TaskConfigView>,
    f: nat,
)
    requires
        inherit_walk(legacy, id, local, global, f) is Some,
    ensures
        chain_ends(legacy, id, local, global),
        inherit_chain(legacy, id, local, global) == inherit_walk(legacy, id, local, global, f)->Some_0,
{
    let c = choose|fuel: nat| #[trigger] inherit_walk(legacy, id, local, global, fuel) is Some;
    assert(inherit_walk(legacy, id, local, global, c) is Some);
    if f <= c {
        lemma_inherit_walk_mono(legacy, id, local, global, f, c);
    } else {
        lemma_inherit_walk_mono(legacy, id, local, global, c, f);
    }
}

fn link(config: &TaskConfig, inherited: bool) -> (r: ConfigChain)
    ensures
        r@ == (config@, inherited),
{
    ConfigChain { config: config.duplicate(), inherited }
}

fn unknown_extends(source: &String, target: &String) -> (r: TasksBuilderError)
    ensures
        r@ == BuildError::UnknownExtendsSource(source@, target@),
{
    TasksBuilderError::UnknownExtendsSource { source_id: source.clone(), target_id: target.clone() }
}

/// What a result of chain extraction says, with errors as pairs of identifiers.
pub open spec fn chain_result(r: Result<Vec<ConfigChain>, TasksBuilderError>) -> Result<Seq<Link>, (Seq<char>, Seq<char>)> {
    match r {
        Ok(v) => Ok(views(v@)),
        Err(e) => match e@ {
            BuildError::UnknownExtendsSource(s, t) => Err((s, t)),
            BuildError::ArgsSplit(_) => Err((Seq::empty(), Seq::empty())),
        },
    }
}

/// Every fuel on which the chain of `a` ends also follows the chain of `b`
/// to its end, with one nesting less: the chain of `a` goes through `b`.
pub open spec fn steps_to(
    a: Seq<char>,
    b: Seq<char>,
    local: Map<Seq<char>, TaskConfigView>,
    global: Map<Seq<char>, TaskConfigView>,
) -> bool {
    forall|f: nat| #[trigger] chain_walk(a, local, global, f) is Some
        ==> f >= 1 && chain_walk(b, local, global, (f - 1) as nat) is Some
}

/// The chain of `a` never ends.
pub open spec fn walk_diverges(
    a: Seq<char>,
    local: Map<Seq<char>, TaskConfigView>,
    global: Map<Seq<char>, TaskConfigView>,
) -> bool {
    forall|f: nat| #[trigger] chain_walk(a, local, global, f) is None
}

/// Following the chain of `id` comes to its side `inherited`.
pub open spec fn reaches_side(
    id: Seq<char>,
    inherited: bool,
    local: Map<Seq<char>, TaskConfigView>,
    global: Map<Seq<char>, TaskConfigView>,
) -> bool {
    forall|f: nat| #[trigger] chain_walk(id, local, global, f) is Some
        ==> side_walk(id, inherited, local, global, f) is Some
}

/// Going through `b` and then `c`, the chain of `a` goes through `c`.
pub proof fn lemma_steps_trans(
    a: Seq<char>,
    b: Seq<char>,
    c: Seq<char>,
    local: Map<Seq<char>, TaskConfigView>,
    global: Map<Seq<char>, TaskConfigView>,
)
    requires
        steps_to(a, b, local, global),
        steps_to(b, c, local, global),
    ensures
        steps_to(a, c, local, global),
{
    assert forall|f: nat| #[trigger] chain_walk(a, local, global, f) is Some
        implies f >= 1 && chain_walk(c, local, global, (f - 1) as nat) is Some by {
        assert(chain_walk(b, local, global, (f - 1) as nat) is Some);
        let h = (f - 1) as nat;
        assert(h >= 1 && chain_walk(c, local, global, (h - 1) as nat) is Some);
        lemma_chain_walk_mono(c, local, global, (h - 1) as nat, h);
    }
}

/// A chain that goes through itself ends on no fuel.
pub proof fn lemma_self_step(
    a: Seq<char>,
    local: Map<Seq<char>, TaskConfigView>,
    global: Map<Seq<char>, TaskConfigView>,
    f: nat,
)
    requires
        steps_to(a, a, local, global),
    ensures
        chain_walk(a, local, global, f) is None,
    decreases f,
{
    if f > 0 {
        lemma_self_step(a, local, global, (f - 1) as nat);
    }
}

/// A chain that goes through itself never ends, nor does any chain that goes
/// through it.
pub proof fn lemma_cycle_diverges(
    root: Seq<char>,
    a: Seq<char>,
    local: Map<Seq<char>, TaskConfigView>,
    global: Map<Seq<char>, TaskConfigView>,
)
    requires
        steps_to(a, a, local, global),
        root == a || steps_to(root, a, local, global),
    ensures
        walk_diverges(root, local, global),
{
    assert forall|f: nat| #[trigger] chain_walk(a, local, global, f) is None by {
        lemma_self_step(a, local, global, f);
    }
    if root != a {
        assert forall|f: nat| #[trigger] chain_walk(root, local, global, f) is None by {
            if chain_walk(root, local, global, f) is Some {
                assert(chain_walk(a, local, global, (f - 1) as nat) is None);
            }
        }
    }
}

/// The chain of a task always starts with its local side.
pub proof fn lemma_reaches_local(
    id: Seq<char>,
    local: Map<Seq<char>, TaskConfigView>,
    global: Map<Seq<char>, TaskConfigView>,
)
    ensures
        reaches_side(id, false, local, global),
{
}

/// Where the local side of a chain ends without error, the chain goes on to
/// its inherited side.
pub proof fn lemma_reaches_global(
    id: Seq<char>,
    local: Map<Seq<char>, TaskConfigView>,
    global: Map<Seq<char>, TaskConfigView>,
    f1: nat,
)
    requires
        side_walk(id, false, local, global, f1) matches Some(Ok(_)),
    ensures
        reaches_side(id, true, local, global),
{
    assert forall|f: nat| #[trigger] chain_walk(id, local, global, f) is Some
        implies side_walk(id, true, local, global, f) is Some by {
        assert(side_walk(id, false, local, global, f) is Some);
        if f <= f1 {
            lemma_side_walk_mono(id, false, local, global, f, f1);
        } else {
            lemma_side_walk_mono(id, false, local, global, f1, f);
        }
    }
}

/// A side that is reached and has an `extends` goes through the extended task.
pub proof fn lemma_side_steps(
    id: Seq<char>,
    inherited: bool,
    local: Map<Seq<char>, TaskConfigView>,
    global: Map<Seq<char>, TaskConfigView>,
    e: Seq<char>,
)
    requires
        reaches_side(id, inherited, local, global),
        (if inherited { global } else { local }).contains_key(id),
        (if inherited { global } else { local })[id].extends == Some(e),
    ensures
        steps_to(id, e, local, global),
{
    assert forall|f: nat| #[trigger] chain_walk(id, local, global, f) is Some
        implies f >= 1 && chain_walk(e, local, global, (f - 1) as nat) is Some by {
        assert(side_walk(id, inherited, local, global, f) is Some);
    }
}

/// The tasks of either map that a walk has not yet passed through.
pub open spec fn left_to_visit(
    local: Map<Seq<char>, TaskConfigView>,
    global: Map<Seq<char>, TaskConfigView>,
    path: Seq<Seq<char>>,
) -> nat {
    local.dom().union(global.dom()).difference(path.to_set()).len()
}

proof fn lemma_fewer_left(keys: Set<Seq<char>>, path: Seq<Seq<char>>, id: Seq<char>)
    requires
        keys.finite(),
        keys.contains(id),
        !path.contains(id),
    ensures
        keys.difference(path.push(id).to_set()).len() < keys.difference(path.to_set()).len(),
{
    let before = keys.difference(path.to_set());
    let after = keys.difference(path.push(id).to_set());
    assert forall|k: Seq<char>| path.push(id).contains(k) <==> path.contains(k) || k == id by {
        if path.push(id).contains(k) {
            let i = choose|i: int| 0 <= i < path.push(id).len() && path.push(id)[i] == k;
            if i < path.len() {
                assert(path[i] == k);
            }
        }
        if path.contains(k) {
            let i = choose|i: int| 0 <= i < path.len() && path[i] == k;
            assert(path.push(id)[i] == k);
        }
        if k == id {
            assert(path.push(id)[path.len() as int] == k);
        }
    }
    assert(after =~= before.remove(id));
    assert(before.contains(id));
}

/// Where a walk stands: at task `id`, having come from `root` through the
/// tasks of `path`, each of which the chain of `id` does not come back to
/// without going through a cycle.
pub open spec fn on_walk(
    root: Seq<char>,
    id: Seq<char>,
    path: Seq<Seq<char>>,
    local: Map<Seq<char>, TaskConfigView>,
    global: Map<Seq<char>, TaskConfigView>,
) -> bool {
    &&& root == id || steps_to(root, id, local, global)
    &&& !path.contains(id)
    &&& forall|i: int| 0 <= i < path.len() ==> steps_to(#[trigger] path[i], id, local, global)
        && (path[i] == root || steps_to(root, path[i], local, global))
}

/// What a walk found: the configurations with the fuel they needed, or a
/// cycle, so that the chain of `root` never ends.
pub enum Walk {
    Done(Result<Vec<ConfigChain>, TasksBuilderError>),
    Cycle,
}

pub open spec fn walk_found(w: Walk, outcome: Outcome, diverges: bool) -> bool {
    match w {
        Walk::Done(res) => outcome == Some(chain_result(res)) && (res matches Err(e) ==> e@ is UnknownExtendsSource),
        Walk::Cycle => diverges,
    }
}

proof fn lemma_on_walk_next(
    root: Seq<char>,
    id: Seq<char>,
    e: Seq<char>,
    path: Seq<Seq<char>>,
    local: Map<Seq<char>, TaskConfigView>,
    global: Map<Seq<char>, TaskConfigView>,
)
    requires
        on_walk(root, id, path, local, global),
        steps_to(id, e, local, global),
        e != id,
        !path.contains(e),
    ensures
        on_walk(root, e, path.push(id), local, global),
{
    if root != id {
        lemma_steps_trans(root, id, e, local, global);
    }
    let next = path.push(id);
    assert forall|i: int| 0 <= i < next.len() implies steps_to(#[trigger] next[i], e, local, global)
        && (next[i] == root || steps_to(root, next[i], local, global)) by {
        if i < path.len() {
            assert(next[i] == path[i]);
            lemma_steps_trans(path[i], id, e, local, global);
        }
    }
    assert forall|i: int| 0 <= i < next.len() implies next[i] != e by {
        if i < path.len() {
            assert(next[i] == path[i]);
        }
    }
}

proof fn lemma_on_walk_cycle(
    root: Seq<char>,
    id: Seq<char>,
    e: Seq<char>,
    path: Seq<Seq<char>>,
    local: Map<Seq<char>, TaskConfigView>,
    global: Map<Seq<char>, TaskConfigView>,
)
    requires
        on_walk(root, id, path, local, global),
        steps_to(id, e, local, global),
        e == id || path.contains(e),
    ensures
        walk_diverges(root, local, global),
{
    if e == id {
        lemma_cycle_diverges(root, id, local, global);
    } else {
        let i = choose|i: int| 0 <= i < path.len() && path[i] == e;
        assert(steps_to(path[i], id, local, global));
        lemma_steps_trans(e, id, e, local, global);
        lemma_cycle_diverges(root, e, local, global);
    }
}

/// One side (local or inherited) of the nearest-first chain.
fn extract_side(
    task_id: &String,
    tasks: &IdMap<TaskConfig>,
    inherited: bool,
    local: &IdMap<TaskConfig>,
    global: &IdMap<TaskConfig>,
    path: &Vec<String>,
    Ghost(root): Ghost<Seq<char>>,
) -> (r: (Walk, Ghost<nat>))
    requires
        tasks@ == (if inherited { global@ } else { local@ }),
        local@.dom().finite(),
        global@.dom().finite(),
        on_walk(root, task_id@, views(path@), local@, global@),
        reaches_side(task_id@, inherited, local@, global@),
    ensures
        walk_found(r.0, side_walk(task_id@, inherited, local@, global@, r.1@), walk_diverges(root, local@, global@)),
    decreases left_to_visit(local@, global@, views(path@)), 0nat,
{
    match tasks.get(task_id) {
        None => {
            let stack: Vec<ConfigChain> = Vec::new();
            assert(views(stack@) =~= Seq::<Link>::empty());
            (Walk::Done(Ok(stack)), Ghost(0nat))
        },
        Some(config) => {
            match &config.extends {
                None => {
                    let mut stack: Vec<ConfigChain> = Vec::new();
                    stack.push(link(config, inherited));
                    assert(views(stack@) =~= seq![(config@, inherited)]);
                    (Walk::Done(Ok(stack)), Ghost(0nat))
                },
                Some(extend_task_id) => {
                    proof {
                        lemma_side_steps(task_id@, inherited, local@, global@, extend_task_id@);
                    }
                    if *extend_task_id == *task_id || contains_item(path, extend_task_id) {
                        proof {
                            lemma_on_walk_cycle(root, task_id@, extend_task_id@, views(path@), local@, global@);
                        }
                        return (Walk::Cycle, Ghost(0nat));
                    }
                    let mut next = copy_vec(path);
                    next.push(task_id.clone());
                    proof {
                        assert(views(next@) =~= views(path@).push(task_id@));
                        lemma_on_walk_next(root, task_id@, extend_task_id@, views(path@), local@, global@);
                        lemma_entries_empty(local.entries@);
                        lemma_entries_empty(global.entries@);
                        lemma_fewer_left(local@.dom().union(global@.dom()), views(path@), task_id@);
                    }
                    let (found, Ghost(fuel)) = extract_config(extend_task_id, local, global, &next, Ghost(root));
                    match found {
                        Walk::Cycle => (Walk::Cycle, Ghost(0nat)),
                        Walk::Done(Err(x)) => (Walk::Done(Err(x)), Ghost(fuel + 1)),
                        Walk::Done(Ok(extended)) => {
                            if extended.len() == 0 {
                                (Walk::Done(Err(unknown_extends(task_id, extend_task_id))), Ghost(fuel + 1))
                            } else {
                                let mut stack: Vec<ConfigChain> = Vec::new();
                                stack.push(link(config, inherited));
                                let ghost first = views(stack@);
                                let mut rest = extended;
                                let ghost tail = views(rest@);
                                stack.append(&mut rest);
                                assert(views(stack@) =~= first + tail);
                                assert(first =~= seq![(config@, inherited)]);
                                (Walk::Done(Ok(stack)), Ghost(fuel + 1))
                            }
                        },
                    }
                },
            }
        },
    }
}

/// The configurations of a task, nearest first.
fn extract_config(
    task_id: &String,
    local: &IdMap<TaskConfig>,
    global: &IdMap<TaskConfig>,
    path: &Vec<String>,
    Ghost(root): Ghost<Seq<char>>,
) -> (r: (Walk, Ghost<nat>))
    requires
        local@.dom().finite(),
        global@.dom().finite(),
        on_walk(root, task_id@, views(path@), local@, global@),
    ensures
        walk_found(r.0, chain_walk(task_id@, local@, global@, r.1@), walk_diverges(root, local@, global@)),
    decreases left_to_visit(local@, global@, views(path@)), 1nat,
{
    proof {
        lemma_reaches_local(task_id@, local@, global@);
    }
    let (first, Ghost(f1)) = extract_side(task_id, local, false, local, global, path, Ghost(root));
    match first {
        Walk::Cycle => (Walk::Cycle, Ghost(0nat)),
        Walk::Done(Err(x)) => (Walk::Done(Err(x)), Ghost(f1)),
        Walk::Done(Ok(mut stack)) => {
            proof {
                lemma_reaches_global(task_id@, local@, global@, f1);
            }
            let (second, Ghost(f2)) = extract_side(task_id, global, true, local, global, path, Ghost(root));
            let ghost f: nat = if f1 <= f2 { f2 } else { f1 };
            match second {
                Walk::Cycle => (Walk::Cycle, Ghost(0nat)),
                Walk::Done(Err(x)) => {
                    proof {
                        lemma_side_walk_mono(task_id@, false, local@, global@, f1, f);
                        lemma_side_walk_mono(task_id@, true, local@, global@, f2, f);
                    }
                    (Walk::Done(Err(x)), Ghost(f))
                },
                Walk::Done(Ok(mut more)) => {
                    proof {
                        lemma_side_walk_mono(task_id@, false, local@, global@, f1, f);
                        lemma_side_walk_mono(task_id@, true, local@, global@, f2, f);
                    }
                    let ghost a = views(stack@);
                    let ghost b = views(more@);
                    stack.append(&mut more);
                    assert(views(stack@) =~= a + b);
                    (Walk::Done(Ok(stack)), Ghost(f))
                },
            }
        },
    }
}

/// Every fuel on which the legacy chain of `a` ends also follows the chain
/// of the extended task `b` to its end, with one nesting less.
pub open spec fn legacy_steps_to(
    a: Seq<char>,
    a_extended: bool,
    b: Seq<char>,
    tasks: Map<Seq<char>, TaskConfigView>,
    extendable: Map<Seq<char>, TaskConfigView>,
    inherited: bool,
) -> bool {
    forall|f: nat| #[trigger] legacy_walk(a, tasks, extendable, inherited, a_extended, f) is Some
        ==> f >= 1 && legacy_walk(b, tasks, extendable, inherited, true, (f - 1) as nat) is Some
}

/// The legacy chain of `a` never ends.
pub open spec fn legacy_diverges(
    a: Seq<char>,
    a_extended: bool,
    tasks: Map<Seq<char>, TaskConfigView>,
    extendable: Map<Seq<char>, TaskConfigView>,
    inherited: bool,
) -> bool {
    forall|f: nat| #[trigger] legacy_walk(a, tasks, extendable, inherited, a_extended, f) is None
}

/// Going through `b` and then `c`, the legacy chain of `a` goes through `c`.
pub proof fn lemma_legacy_steps_trans(
    a: Seq<char>,
    a_extended: bool,
    b: Seq<char>,
    c: Seq<char>,
    tasks: Map<Seq<char>, TaskConfigView>,
    extendable: Map<Seq<char>, TaskConfigView>,
    inherited: bool,
)
    requires
        legacy_steps_to(a, a_extended, b, tasks, extendable, inherited),
        legacy_steps_to(b, true, c, tasks, extendable, inherited),
    ensures
        legacy_steps_to(a, a_extended, c, tasks, extendable, inherited),
{
    assert forall|f: nat| #[trigger] legacy_walk(a, tasks, extendable, inherited, a_extended, f) is Some
        implies f >= 1 && legacy_walk(c, tasks, extendable, inherited, true, (f - 1) as nat) is Some by {
        let h = (f - 1) as nat;
        assert(legacy_walk(b, tasks, extendable, inherited, true, h) is Some);
        assert(h >= 1 && legacy_walk(c, tasks, extendable, inherited, true, (h - 1) as nat) is Some);
        lemma_legacy_walk_mono(c, tasks, extendable, inherited, true, (h - 1) as nat, h);
    }
}

/// A legacy chain that goes through itself ends on no fuel.
pub proof fn lemma_legacy_self_step(
    a: Seq<char>,
    tasks: Map<Seq<char>, TaskConfigView>,
    extendable: Map<Seq<char>, TaskConfigView>,
    inherited: bool,
    f: nat,
)
    requires
        legacy_steps_to(a, true, a, tasks, extendable, inherited),
    ensures
        legacy_walk(a, tasks, extendable, inherited, true, f) is None,
    decreases f,
{
    if f > 0 {
        lemma_legacy_self_step(a, tasks, extendable, inherited, (f - 1) as nat);
    }
}

/// A legacy chain that goes through an extended task whose chain goes through
/// itself never ends.
pub proof fn lemma_legacy_cycle(
    root: Seq<char>,
    a: Seq<char>,
    tasks: Map<Seq<char>, TaskConfigView>,
    extendable: Map<Seq<char>, TaskConfigView>,
    inherited: bool,
)
    requires
        legacy_steps_to(a, true, a, tasks, extendable, inherited),
        legacy_steps_to(root, false, a, tasks, extendable, inherited),
    ensures
        legacy_diverges(root, false, tasks, extendable, inherited),
{
    assert forall|f: nat| #[trigger] legacy_walk(root, tasks, extendable, inherited, false, f) is None by {
        if legacy_walk(root, tasks, extendable, inherited, false, f) is Some {
            lemma_legacy_self_step(a, tasks, extendable, inherited, (f - 1) as nat);
        }
    }
}

/// Where a legacy walk stands: at task `id` (in `tasks` at the start, in
/// `extendable` once extended), having come from `root` through the extended
/// tasks of `path`.
pub open spec fn on_legacy_walk(
    root: Seq<char>,
    id: Seq<char>,
    extended: bool,
    path: Seq<Seq<char>>,
    tasks: Map<Seq<char>, TaskConfigView>,
    extendable: Map<Seq<char>, TaskConfigView>,
    inherited: bool,
) -> bool {
    &&& if extended { legacy_steps_to(root, false, id, tasks, extendable, inherited) } else { id == root && path.len() == 0 }
    &&& !path.contains(id)
    &&& forall|i: int| 0 <= i < path.len() ==> legacy_steps_to(#[trigger] path[i], true, id, tasks, extendable, inherited)
        && legacy_steps_to(root, false, path[i], tasks, extendable, inherited)
}

/// The extended tasks that a legacy walk has not yet passed through.
pub open spec fn legacy_left(extendable: Map<Seq<char>, TaskConfigView>, path: Seq<Seq<char>>) -> nat {
    extendable.dom().difference(path.to_set()).len()
}

/// The legacy chain of one side: what the configuration extends, then the
/// configuration.
fn legacy_extract_config(
    task_id: &String,
    tasks: &IdMap<TaskConfig>,
    extendable_tasks: &IdMap<TaskConfig>,
    inherited: bool,
    extended: bool,
    path: &Vec<String>,
    Ghost(root): Ghost<Seq<char>>,
) -> (r: (Walk, Ghost<nat>))
    requires
        extendable_tasks@.dom().finite(),
        on_legacy_walk(root, task_id@, extended, views(path@), tasks@, extendable_tasks@, inherited),
    ensures
        walk_found(
            r.0,
            legacy_walk(task_id@, tasks@, extendable_tasks@, inherited, extended, r.1@),
            legacy_diverges(root, false, tasks@, extendable_tasks@, inherited),
        ),
    decreases legacy_left(extendable_tasks@, views(path@)), if extended { 0nat } else { 1nat },
{
    let ghost lookup = if extended { extendable_tasks@ } else { tasks@ };
    let config = if extended {
        extendable_tasks.get(task_id)
    } else {
        tasks.get(task_id)
    };
    match config {
        None => {
            let configs: Vec<ConfigChain> = Vec::new();
            assert(views(configs@) =~= Seq::<Link>::empty());
            (Walk::Done(Ok(configs)), Ghost(0nat))
        },
        Some(config) => {
            match &config.extends {
                None => {
                    let mut configs: Vec<ConfigChain> = Vec::new();
                    configs.push(link(config, inherited));
                    assert(views(configs@) =~= seq![(config@, inherited)]);
                    (Walk::Done(Ok(configs)), Ghost(0nat))
                },
                Some(extend_task_id) => {
                    if !extendable_tasks.contains_key(extend_task_id) {
                        return (Walk::Done(Err(unknown_extends(task_id, extend_task_id))), Ghost(0nat));
                    }
                    let ghost (id, e, p) = (task_id@, extend_task_id@, views(path@));
                    assert(legacy_steps_to(id, extended, e, tasks@, extendable_tasks@, inherited)) by {
                        assert forall|f: nat| #[trigger] legacy_walk(id, tasks@, extendable_tasks@, inherited, extended, f) is Some
                            implies f >= 1 && legacy_walk(e, tasks@, extendable_tasks@, inherited, true, (f - 1) as nat) is Some by {
                            assert(lookup.contains_key(id));
                        }
                    }
                    if (extended && *extend_task_id == *task_id) || contains_item(path, extend_task_id) {
                        proof {
                            if extended && e == id {
                                lemma_legacy_cycle(root, id, tasks@, extendable_tasks@, inherited);
                            } else {
                                let i = choose|i: int| 0 <= i < p.len() && p[i] == e;
                                assert(legacy_steps_to(p[i], true, id, tasks@, extendable_tasks@, inherited));
                                lemma_legacy_steps_trans(e, true, id, e, tasks@, extendable_tasks@, inherited);
                                lemma_legacy_cycle(root, e, tasks@, extendable_tasks@, inherited);
                            }
                        }
                        return (Walk::Cycle, Ghost(0nat));
                    }
                    let mut next = copy_vec(path);
                    if extended {
                        next.push(task_id.clone());
                    }
                    proof {
                        let q = views(next@);
                        if extended {
                            assert(q =~= p.push(id));
                            lemma_legacy_steps_trans(root, false, id, e, tasks@, extendable_tasks@, inherited);
                            assert forall|i: int| 0 <= i < q.len() implies legacy_steps_to(#[trigger] q[i], true, e, tasks@, extendable_tasks@, inherited)
                                && legacy_steps_to(root, false, q[i], tasks@, extendable_tasks@, inherited) by {
                                if i < p.len() {
                                    assert(q[i] == p[i]);
                                    lemma_legacy_steps_trans(p[i], true, id, e, tasks@, extendable_tasks@, inherited);
                                }
                            }
                            assert forall|i: int| 0 <= i < q.len() implies q[i] != e by {
                                if i < p.len() {
                                    assert(q[i] == p[i]);
                                }
                            }
                            assert(lookup.contains_key(id));
                            lemma_fewer_left(extendable_tasks@.dom(), p, id);
                        } else {
                            assert(q =~= p);
                        }
                    }
                    let (found, Ghost(fuel)) = legacy_extract_config(extend_task_id, tasks, extendable_tasks, inherited, true, &next, Ghost(root));
                    match found {
                        Walk::Cycle => (Walk::Cycle, Ghost(0nat)),
                        Walk::Done(Err(x)) => (Walk::Done(Err(x)), Ghost(fuel + 1)),
                        Walk::Done(Ok(mut configs)) => {
                            let ghost before = views(configs@);
                            configs.push(link(config, inherited));
                            assert(views(configs@) =~= before.push((config@, inherited)));
                            (Walk::Done(Ok(configs)), Ghost(fuel + 1))
                        },
                    }
                },
            }
        },
    }
}

/// The map of both sides, the local configurations overriding the inherited.
fn union_of(global: &IdMap<TaskConfig>, local: &IdMap<TaskConfig>) -> (r: IdMap<TaskConfig>)
    ensures
        r@ == global@.union_prefer_right(local@),
{
    let g = global.duplicate();
    let l = local.duplicate();
    let mut entries = g.entries;
    let mut rest = l.entries;
    let ghost a = entries@;
    let ghost b = rest@;
    entries.append(&mut rest);
    proof { lemma_entries_concat(a, b); }
    IdMap { entries }
}

/// The configurations that task `task_id` is built from, in the order in which
/// they apply (see `inherit_walk`), or `None` where following its `extends`
/// comes back to a task that it is still following, so that it never ends.
pub fn config_inherit_chain(
    legacy: bool,
    task_id: &String,
    local_tasks: &IdMap<TaskConfig>,
    global_tasks: &IdMap<TaskConfig>,
) -> (r: Option<Result<Vec<ConfigChain>, TasksBuilderError>>)
    ensures
        r is Some == chain_ends(legacy, task_id@, local_tasks@, global_tasks@),
        r matches Some(res) ==> chain_result(res) == inherit_chain(legacy, task_id@, local_tasks@, global_tasks@),
        r matches Some(Err(e)) ==> e@ is UnknownExtendsSource,
{
    let ghost (id, l, g) = (task_id@, local_tasks@, global_tasks@);
    let no_path: Vec<String> = Vec::new();
    proof {
        lemma_entries_empty(local_tasks.entries@);
        lemma_entries_empty(global_tasks.entries@);
        assert(views(no_path@) =~= Seq::<Seq<char>>::empty());
    }
    if legacy {
        let extendable_tasks = union_of(global_tasks, local_tasks);
        let ghost ext = extendable_tasks@;
        proof {
            lemma_entries_empty(extendable_tasks.entries@);
        }
        let (first, Ghost(f1)) = legacy_extract_config(task_id, global_tasks, &extendable_tasks, true, false, &no_path, Ghost(id));
        let mut configs = match first {
            Walk::Cycle => {
                proof {
                    assert forall|f: nat| #[trigger] inherit_walk(true, id, l, g, f) is None by {
                        assert(legacy_walk(id, g, ext, true, false, f) is None);
                    }
                }
                return None;
            },
            Walk::Done(Err(x)) => {
                proof {
                    lemma_walk_settles(true, id, l, g, f1);
                }
                return Some(Err(x));
            },
            Walk::Done(Ok(configs)) => configs,
        };
        let (second, Ghost(f2)) = legacy_extract_config(task_id, local_tasks, &extendable_tasks, false, false, &no_path, Ghost(id));
        let ghost f: nat = if f1 <= f2 { f2 } else { f1 };
        match second {
            Walk::Cycle => {
                proof {
                    assert forall|f: nat| #[trigger] inherit_walk(true, id, l, g, f) is None by {
                        assert(legacy_walk(id, l, ext, false, false, f) is None);
                        if legacy_walk(id, g, ext, true, false, f) is Some {
                            if f <= f1 {
                                lemma_legacy_walk_mono(id, g, ext, true, false, f, f1);
                            } else {
                                lemma_legacy_walk_mono(id, g, ext, true, false, f1, f);
                            }
                        }
                    }
                }
                None
            },
            Walk::Done(Err(x)) => {
                proof {
                    lemma_legacy_walk_mono(id, g, ext, true, false, f1, f);
                    lemma_legacy_walk_mono(id, l, ext, false, false, f2, f);
                    lemma_walk_settles(true, id, l, g, f);
                }
                Some(Err(x))
            },
            Walk::Done(Ok(mut more)) => {
                proof {
                    lemma_legacy_walk_mono(id, g, ext, true, false, f1, f);
                    lemma_legacy_walk_mono(id, l, ext, false, false, f2, f);
                    lemma_walk_settles(true, id, l, g, f);
                }
                let ghost a = views(configs@);
                let ghost b = views(more@);
                configs.append(&mut more);
                assert(views(configs@) =~= a + b);
                Some(Ok(configs))
            },
        }
    } else {
        let (found, Ghost(fuel)) = extract_config(task_id, local_tasks, global_tasks, &no_path, Ghost(id));
        let mut stack = match found {
            Walk::Cycle => {
                proof {
                    assert forall|f: nat| #[trigger] inherit_walk(false, id, l, g, f) is None by {
                        assert(chain_walk(id, l, g, f) is None);
                    }
                }
                return None;
            },
            Walk::Done(Err(x)) => {
                proof {
                    lemma_walk_settles(false, id, l, g, fuel);
                }
                return Some(Err(x));
            },
            Walk::Done(Ok(stack)) => stack,
        };
        proof {
            lemma_walk_settles(false, id, l, g, fuel);
        }
        let ghost orig = views(stack@);
        let n = stack.len();
        let mut configs: Vec<ConfigChain> = Vec::new();
        while stack.len() > 0
            invariant
                n == orig.len(),
                stack@.len() + configs@.len() == n,
                views(stack@) == orig.take(stack@.len() as int),
                forall|j: int| 0 <= j < configs@.len() ==> #[trigger] views(configs@)[j] == orig[n - 1 - j],
            decreases stack@.len(),
        {
            let ghost k = stack@.len();
            let ghost old_stack = stack@;
            let ghost old_configs = configs@;
            let item = stack.pop().unwrap();
            assert(item == old_stack[k - 1]);
            assert(views(old_stack)[k - 1] == old_stack[k - 1]@);
            assert(item@ == orig[k - 1]);
            configs.push(item);
            assert forall|j: int| 0 <= j < configs@.len() implies #[trigger] views(configs@)[j] == orig[n - 1 - j] by {
                if j < old_configs.len() {
                    assert(views(configs@)[j] == views(old_configs)[j]);
                } else {
                    assert(views(configs@)[j] == item@);
                }
            }
            assert(views(stack@) =~= orig.take(stack@.len() as int));
        }
        assert(views(configs@) =~= orig.reverse());
        Some(Ok(configs))
    }
}

} // verus!
