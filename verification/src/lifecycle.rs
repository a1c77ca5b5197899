//! Component lifecycle: the registry of components with their mount order
//! and focus stack, and the manager that mounts, unmounts, activates and
//! deactivates components and says which events to broadcast.

use vstd::prelude::*;
use vstd::string::*;
use crate::assoc::{fold_pairs, unique_keys, lemma_fold_absent, lemma_fold_lookup, lemma_fold_dom, lemma_fold_update, lemma_fold_push, lemma_push_unique, lemma_fold_remove, lemma_unique_len};
use crate::component::{ComponentError, ComponentEvent, ComponentId, ComponentResult, utc_now_millis};
use crate::keyboard::{ids_view, opt_id_view};

verus! {

/// Information about a registered component.
#[derive(Debug, Clone)]
pub struct ComponentInfo {
    pub id: ComponentId,
    pub component_type: String,
    pub parent_id: Option<ComponentId>,
    pub children: Vec<ComponentId>,
    pub is_mounted: bool,
    pub is_active: bool,
    /// Milliseconds since the Unix epoch (UTC) of the last mount.
    pub mount_time: Option<i64>,
    pub dependencies: Vec<ComponentId>,
}

impl ComponentInfo {
    pub fn new(id: ComponentId, component_type: String) -> (r: Self)
        ensures
            r.id == id,
            r.component_type == component_type,
            r.parent_id is None,
            r.children@.len() == 0,
            !r.is_mounted,
            !r.is_active,
            r.mount_time is None,
            r.dependencies@.len() == 0,
    {
        ComponentInfo {
            id,
            component_type,
            parent_id: None,
            children: Vec::new(),
            is_mounted: false,
            is_active: false,
            mount_time: None,
            dependencies: Vec::new(),
        }
    }

    pub fn with_parent(self, parent_id: ComponentId) -> (r: Self)
        ensures
            r == (ComponentInfo { parent_id: Some(parent_id), ..self }),
    {
        let mut s = self;
        s.parent_id = Some(parent_id);
        s
    }

    pub fn with_dependencies(self, dependencies: Vec<ComponentId>) -> (r: Self)
        ensures
            r == (ComponentInfo { dependencies, ..self }),
    {
        let mut s = self;
        s.dependencies = dependencies;
        s
    }

    /// Marks the component mounted and records the time of mounting.
    pub fn mark_mounted(&mut self)
        ensures
            final(self).is_mounted,
            final(self).mount_time is Some,
            *final(self) == (ComponentInfo { is_mounted: true, mount_time: final(self).mount_time, ..*old(self) }),
    {
        self.is_mounted = true;
        self.mount_time = Some(utc_now_millis());
    }

    pub fn mark_unmounted(&mut self)
        ensures
            *final(self) == (ComponentInfo { is_mounted: false, mount_time: None, ..*old(self) }),
    {
        self.is_mounted = false;
        self.mount_time = None;
    }

    pub fn mark_active(&mut self)
        ensures
            *final(self) == (ComponentInfo { is_active: true, ..*old(self) }),
    {
        self.is_active = true;
    }

    pub fn mark_inactive(&mut self)
        ensures
            *final(self) == (ComponentInfo { is_active: false, ..*old(self) }),
    {
        self.is_active = false;
    }

    /// Adds a child unless it is already one.
    pub fn add_child(&mut self, child_id: ComponentId)
        ensures
            ids_view(old(self).children@).contains(child_id@) ==> ids_view(final(self).children@) == ids_view(old(self).children@),
            !ids_view(old(self).children@).contains(child_id@) ==> ids_view(final(self).children@) == ids_view(old(self).children@).push(child_id@),
            final(self).id == old(self).id,
            final(self).is_mounted == old(self).is_mounted,
            final(self).is_active == old(self).is_active,
            final(self).dependencies == old(self).dependencies,
    {
        if !contains_id(&self.children, &child_id) {
            let ghost before = self.children@;
            self.children.push(child_id);
            assert(ids_view(self.children@) =~= ids_view(before).push(child_id@));
        }
    }

    /// Removes every occurrence of a child.
    pub fn remove_child(&mut self, child_id: &ComponentId)
        ensures
            ids_view(final(self).children@) == ids_view(old(self).children@).filter(other_than(child_id@)),
            !ids_view(final(self).children@).contains(child_id@),
            final(self).id == old(self).id,
            final(self).is_mounted == old(self).is_mounted,
            final(self).is_active == old(self).is_active,
            final(self).dependencies == old(self).dependencies,
    {
        self.children = retain_other(&self.children, child_id);
    }
}

/// Whether the identifiers hold `id`.
pub fn contains_id(v: &Vec<ComponentId>, id: &ComponentId) -> (r: bool)
    ensures
        r == ids_view(v@).contains(id@),
{
    let mut i: usize = 0;
    while i < v.len()
        invariant
            i <= v@.len(),
            forall|j: int| 0 <= j < i ==> v@[j]@ != id@,
        decreases v@.len() - i,
    {
        if v[i].same_as(id) {
            assert(ids_view(v@)[i as int] == id@);
            return true;
        }
        i += 1;
    }
    assert forall|j: int| 0 <= j < ids_view(v@).len() implies ids_view(v@)[j] != id@ by {
        assert(ids_view(v@)[j] == v@[j]@);
    }
    false
}

/// The identifiers other than `id`, in order.
pub fn retain_other(v: &Vec<ComponentId>, id: &ComponentId) -> (r: Vec<ComponentId>)
    ensures
        ids_view(r@) == ids_view(v@).filter(other_than(id@)),
        !ids_view(r@).contains(id@),
{
    let ghost h = ids_view(v@);
    let mut out: Vec<ComponentId> = Vec::new();
    let mut i: usize = 0;
    assert(ids_view(out@) =~= h.take(0).filter(other_than(id@)));
    while i < v.len()
        invariant
            i <= v@.len(),
            h == ids_view(v@),
            ids_view(out@) == h.take(i as int).filter(other_than(id@)),
            forall|j: int| 0 <= j < out@.len() ==> out@[j]@ != id@,
        decreases v@.len() - i,
    {
        proof {
            reveal_with_fuel(Seq::filter, 1);
            assert(h.take(i + 1).drop_last() =~= h.take(i as int));
        }
        if !v[i].same_as(id) {
            let ghost before = out@;
            out.push(v[i].duplicate());
            assert(ids_view(out@) =~= ids_view(before).push(h[i as int]));
        }
        i += 1;
    }
    assert(h.take(i as int) =~= h);
    assert forall|j: int| 0 <= j < ids_view(out@).len() implies ids_view(out@)[j] != id@ by {
        assert(ids_view(out@)[j] == out@[j]@);
    }
    out
}

/// The entries of the registry as (identifier text, information) pairs.
pub open spec fn entries_view(s: Seq<(ComponentId, ComponentInfo)>) -> Seq<(Seq<char>, ComponentInfo)> {
    s.map_values(|p: (ComponentId, ComponentInfo)| (p.0@, p.1))
}

/// Registry for tracking all registered components.
#[derive(Debug)]
pub struct ComponentRegistry {
    components: Vec<(ComponentId, ComponentInfo)>,
    mount_order: Vec<ComponentId>,
    focus_stack: Vec<ComponentId>,
}

impl ComponentRegistry {
    /// The registered components by identifier.
    pub closed spec fn components_view(&self) -> Map<Seq<char>, ComponentInfo> {
        fold_pairs(entries_view(self.components@))
    }

    /// The mount order, oldest first.
    pub closed spec fn mount_order_view(&self) -> Seq<Seq<char>> {
        ids_view(self.mount_order@)
    }

    /// The focus stack, bottom first.
    pub closed spec fn focus_stack_view(&self) -> Seq<Seq<char>> {
        ids_view(self.focus_stack@)
    }

    /// No identifier is registered twice.
    pub closed spec fn wf(&self) -> bool {
        unique_keys(entries_view(self.components@))
    }

    pub fn new() -> (r: Self)
        ensures
            r.wf(),
            r.components_view() == Map::<Seq<char>, ComponentInfo>::empty(),
            r.mount_order_view().len() == 0,
            r.focus_stack_view().len() == 0,
    {
        let r = ComponentRegistry { components: Vec::new(), mount_order: Vec::new(), focus_stack: Vec::new() };
        assert(entries_view(r.components@) =~= Seq::empty());
        r
    }

    fn find(&self, id: &ComponentId) -> (r: Option<usize>)
        ensures
            match r {
                Some(i) => i < self.components@.len() && entries_view(self.components@)[i as int].0 == id@,
                None => forall|i: int| 0 <= i < self.components@.len() ==> entries_view(self.components@)[i].0 != id@,
            },
    {
        let mut i: usize = 0;
        while i < self.components.len()
            invariant
                i <= self.components@.len(),
                forall|j: int| 0 <= j < i ==> entries_view(self.components@)[j].0 != id@,
            decreases self.components@.len() - i,
        {
            if self.components[i].0.same_as(id) {
                return Some(i);
            }
            i += 1;
        }
        None
    }

    /// Register a component; an identifier can be registered once.
    pub fn register(&mut self, id: ComponentId, info: ComponentInfo) -> (r: ComponentResult<()>)
        requires
            old(self).wf(),
        ensures
            final(self).wf(),
            old(self).components_view().contains_key(id@) ==> {
                &&& r matches Err(ComponentError::StateError { message })
                    && message@ == "Component "@ + id@ + " already registered"@
                &&& final(self).components_view() == old(self).components_view()
            },
            !old(self).components_view().contains_key(id@) ==> {
                &&& r is Ok
                &&& final(self).components_view() == old(self).components_view().insert(id@, info)
            },
            final(self).mount_order_view() == old(self).mount_order_view(),
            final(self).focus_stack_view() == old(self).focus_stack_view(),
    {
        let ghost s = entries_view(self.components@);
        match self.find(&id) {
            Some(i) => {
                proof {
                    lemma_fold_lookup(s, i as int);
                }
                let mut message = "Component ".to_owned();
                message.append(id.0.as_str());
                message.append(" already registered");
                Err(ComponentError::StateError { message })
            },
            None => {
                proof {
                    lemma_fold_absent(s, id@);
                    lemma_fold_push(s, (id@, info));
                    lemma_push_unique(s, (id@, info));
                }
                self.components.push((id, info));
                assert(entries_view(self.components@) =~= s.push((id@, info)));
                Ok(())
            },
        }
    }

    /// Unregister a component and return its information.
    pub fn unregister(&mut self, id: &ComponentId) -> (r: ComponentResult<ComponentInfo>)
        requires
            old(self).wf(),
        ensures
            final(self).wf(),
            old(self).components_view().contains_key(id@) ==> {
                &&& r == Ok::<ComponentInfo, ComponentError>(old(self).components_view()[id@])
                &&& final(self).components_view() == old(self).components_view().remove(id@)
            },
            !old(self).components_view().contains_key(id@) ==> {
                &&& r matches Err(ComponentError::NotFound { id: missing }) && missing@ == id@
                &&& final(self).components_view() == old(self).components_view()
            },
            final(self).mount_order_view() == old(self).mount_order_view(),
            final(self).focus_stack_view() == old(self).focus_stack_view(),
    {
        let ghost s = entries_view(self.components@);
        match self.find(id) {
            Some(i) => {
                proof {
                    lemma_fold_lookup(s, i as int);
                    lemma_fold_remove(s, i as int);
                }
                let (_, info) = self.components.remove(i);
                assert(entries_view(self.components@) =~= s.remove(i as int));
                Ok(info)
            },
            None => {
                proof {
                    lemma_fold_absent(s, id@);
                }
                Err(ComponentError::NotFound { id: id.duplicate() })
            },
        }
    }

    /// Get component info.
    pub fn get(&self, id: &ComponentId) -> (r: Option<&ComponentInfo>)
        requires
            self.wf(),
        ensures
            match r {
                Some(info) => self.components_view().contains_key(id@) && *info == self.components_view()[id@],
                None => !self.components_view().contains_key(id@),
            },
    {
        match self.find(id) {
            Some(i) => {
                proof {
                    lemma_fold_lookup(entries_view(self.components@), i as int);
                }
                Some(&self.components[i].1)
            },
            None => {
                proof {
                    lemma_fold_absent(entries_view(self.components@), id@);
                }
                None
            },
        }
    }

    /// Sets the mount and activity flags of a registered component.
    fn update_info(&mut self, id: &ComponentId, mounted: Option<bool>, active: Option<bool>)
        requires
            old(self).wf(),
        ensures
            final(self).wf(),
            final(self).components_view().dom() == old(self).components_view().dom(),
            forall|k: Seq<char>| k != id@ && old(self).components_view().contains_key(k)
                ==> final(self).components_view()[k] == old(self).components_view()[k],
            old(self).components_view().contains_key(id@) ==> ({
                let o = old(self).components_view()[id@];
                let n = final(self).components_view()[id@];
                &&& n.id == o.id && n.component_type == o.component_type && n.parent_id == o.parent_id
                &&& n.children == o.children && n.dependencies == o.dependencies
                &&& n.is_mounted == match mounted { Some(b) => b, None => o.is_mounted }
                &&& n.is_active == match active { Some(b) => b, None => o.is_active }
                &&& mounted == Some(true) ==> n.mount_time is Some
                &&& mounted == Some(false) ==> n.mount_time is None
                &&& mounted is None ==> n.mount_time == o.mount_time
            }),
            final(self).mount_order_view() == old(self).mount_order_view(),
            final(self).focus_stack_view() == old(self).focus_stack_view(),
    {
        let ghost s = entries_view(self.components@);
        match self.find(id) {
            Some(i) => {
                let (key, mut info) = self.components.remove(i);
                match mounted {
                    Some(true) => info.mark_mounted(),
                    Some(false) => info.mark_unmounted(),
                    None => {},
                }
                match active {
                    Some(true) => info.mark_active(),
                    Some(false) => info.mark_inactive(),
                    None => {},
                }
                let ghost newinfo = info;
                self.components.insert(i, (key, info));
                proof {
                    assert(entries_view(self.components@) =~= s.update(i as int, (id@, newinfo)));
                    lemma_fold_update(s, i as int, (id@, newinfo));
                    lemma_fold_lookup(s, i as int);
                }
            },
            None => {
                proof {
                    lemma_fold_absent(s, id@);
                }
            },
        }
    }

    /// Whether `id` is registered.
    pub fn contains(&self, id: &ComponentId) -> (r: bool)
        requires
            self.wf(),
        ensures
            r == self.components_view().contains_key(id@),
    {
        self.get(id).is_some()
    }

    /// List all registered component identifiers.
    pub fn list_all(&self) -> (r: Vec<&ComponentId>)
        requires
            self.wf(),
        ensures
            r@.len() == self.components_view().len(),
            forall|k: Seq<char>| self.components_view().contains_key(k)
                <==> exists|i: int| 0 <= i < r@.len() && r@[i]@ == k,
    {
        let mut r: Vec<&ComponentId> = Vec::new();
        let mut i: usize = 0;
        while i < self.components.len()
            invariant
                i <= self.components@.len(),
                r@.len() == i,
                forall|j: int| 0 <= j < i ==> r@[j]@ == entries_view(self.components@)[j].0,
            decreases self.components@.len() - i,
        {
            r.push(&self.components[i].0);
            i += 1;
        }
        proof {
            let s = entries_view(self.components@);
            lemma_unique_len(s);
            assert forall|k: Seq<char>| self.components_view().contains_key(k)
                <==> exists|i: int| 0 <= i < r@.len() && r@[i]@ == k by {
                lemma_fold_dom(s, k);
                if exists|i: int| 0 <= i < r@.len() && r@[i]@ == k {
                    let i = choose|i: int| 0 <= i < r@.len() && r@[i]@ == k;
                    assert(s[i].0 == k);
                }
                if exists|i: int| 0 <= i < s.len() && s[i].0 == k {
                    let i = choose|i: int| 0 <= i < s.len() && s[i].0 == k;
                    assert(r@[i]@ == k);
                }
            }
        }
        r
    }

    /// Add component to mount order, once.
    pub fn add_to_mount_order(&mut self, id: ComponentId)
        ensures
            final(self).mount_order_view() == (if old(self).mount_order_view().contains(id@) {
                old(self).mount_order_view()
            } else {
                old(self).mount_order_view().push(id@)
            }),
            final(self).components_view() == old(self).components_view(),
            final(self).wf() == old(self).wf(),
            final(self).focus_stack_view() == old(self).focus_stack_view(),
    {
        if !contains_id(&self.mount_order, &id) {
            let ghost before = self.mount_order@;
            self.mount_order.push(id);
            assert(ids_view(self.mount_order@) =~= ids_view(before).push(id@));
        }
    }

    /// Remove component from mount order.
    pub fn remove_from_mount_order(&mut self, id: &ComponentId)
        ensures
            final(self).mount_order_view() == old(self).mount_order_view().filter(other_than(id@)),
            !final(self).mount_order_view().contains(id@),
            final(self).components_view() == old(self).components_view(),
            final(self).wf() == old(self).wf(),
            final(self).focus_stack_view() == old(self).focus_stack_view(),
    {
        self.mount_order = retain_other(&self.mount_order, id);
    }

    /// Get mount order.
    pub fn mount_order(&self) -> (r: &[ComponentId])
        ensures
            ids_view(r@) == self.mount_order_view(),
    {
        self.mount_order.as_slice()
    }

    /// Push component to focus stack; an earlier entry of it is removed.
    pub fn push_focus(&mut self, id: ComponentId)
        ensures
            final(self).focus_stack_view() == old(self).focus_stack_view().filter(other_than(id@)).push(id@),
            final(self).components_view() == old(self).components_view(),
            final(self).wf() == old(self).wf(),
            final(self).mount_order_view() == old(self).mount_order_view(),
    {
        let mut stack = retain_other(&self.focus_stack, &id);
        let ghost before = stack@;
        stack.push(id);
        assert(ids_view(stack@) =~= ids_view(before).push(id@));
        self.focus_stack = stack;
    }

    /// Pop component from focus stack.
    pub fn pop_focus(&mut self) -> (r: Option<ComponentId>)
        ensures
            old(self).focus_stack_view().len() == 0 ==> r is None && final(self).focus_stack_view() == old(self).focus_stack_view(),
            old(self).focus_stack_view().len() > 0 ==> {
                &&& opt_id_view(r) == Some(old(self).focus_stack_view().last())
                &&& final(self).focus_stack_view() == old(self).focus_stack_view().drop_last()
            },
            final(self).components_view() == old(self).components_view(),
            final(self).wf() == old(self).wf(),
            final(self).mount_order_view() == old(self).mount_order_view(),
    {
        let ghost before = self.focus_stack@;
        let r = self.focus_stack.pop();
        proof {
            if before.len() > 0 {
                assert(ids_view(self.focus_stack@) =~= ids_view(before).drop_last());
            } else {
                assert(ids_view(self.focus_stack@) =~= ids_view(before));
            }
        }
        r
    }

    /// Get current focused component: the top of the focus stack.
    pub fn current_focus(&self) -> (r: Option<&ComponentId>)
        ensures
            self.focus_stack_view().len() == 0 ==> r is None,
            self.focus_stack_view().len() > 0 ==> (r matches Some(c) && c@ == self.focus_stack_view().last()),
    {
        let n = self.focus_stack.len();
        if n == 0 {
            None
        } else {
            Some(&self.focus_stack[n - 1])
        }
    }

    /// Get focus stack.
    pub fn focus_stack(&self) -> (r: &[ComponentId])
        ensures
            ids_view(r@) == self.focus_stack_view(),
    {
        self.focus_stack.as_slice()
    }
}

impl Default for ComponentRegistry {
    fn default() -> (r: Self)
        ensures
            r.wf(),
            r.components_view() == Map::<Seq<char>, ComponentInfo>::empty(),
            r.mount_order_view().len() == 0,
            r.focus_stack_view().len() == 0,
    {
        ComponentRegistry::new()
    }
}


/// Result type for mount operations.
pub type MountResult = ComponentResult<()>;

/// Lifecycle hooks of a component. Each hook succeeds unless the component
/// says otherwise.
pub trait ComponentLifecycle {
    /// Called when the component is first mounted.
    fn on_mount(&mut self) -> MountResult {
        Ok(())
    }

    /// Called when the component is about to be unmounted.
    fn on_unmount(&mut self) -> MountResult {
        Ok(())
    }

    /// Called when the component becomes active (focused).
    fn on_activate(&mut self) -> MountResult {
        Ok(())
    }

    /// Called when the component becomes inactive (unfocused).
    fn on_deactivate(&mut self) -> MountResult {
        Ok(())
    }

    /// The identifier of the component.
    fn lifecycle_id(&self) -> &ComponentId;
}

/// Whether `e` says that the component `id` gained focus.
pub open spec fn is_focus_gained(e: ComponentEvent, id: Seq<char>) -> bool {
    e matches ComponentEvent::FocusGained { component_id } && component_id@ == id
}

/// Whether `e` says that the component `id` lost focus.
pub open spec fn is_focus_lost(e: ComponentEvent, id: Seq<char>) -> bool {
    e matches ComponentEvent::FocusLost { component_id } && component_id@ == id
}

/// Whether the dependency at `i` of `deps` is registered and mounted.
pub open spec fn dependency_met(comps: Map<Seq<char>, ComponentInfo>, deps: Seq<Seq<char>>, i: int) -> bool {
    comps.contains_key(deps[i]) && comps[deps[i]].is_mounted
}

/// The error for the dependency at `i` of `deps` of component `id`, which is unmet.
pub open spec fn dependency_error(comps: Map<Seq<char>, ComponentInfo>, deps: Seq<Seq<char>>, i: int, id: Seq<char>, e: ComponentError) -> bool {
    if !comps.contains_key(deps[i]) {
        e matches ComponentError::NotFound { id: missing } && missing@ == deps[i]
    } else {
        e matches ComponentError::StateError { message }
            && message@ == "Dependency "@ + deps[i] + " is not mounted for component "@ + id
    }
}

/// What checking the dependencies of `id` gives: `Ok` when `id` is not
/// registered or all of its dependencies are registered and mounted, else the
/// error for the first unmet one.
pub open spec fn dependencies_outcome(comps: Map<Seq<char>, ComponentInfo>, id: Seq<char>, r: ComponentResult<()>) -> bool {
    if !comps.contains_key(id) {
        r is Ok
    } else {
        let deps = ids_view(comps[id].dependencies@);
        if forall|j: int| 0 <= j < deps.len() ==> dependency_met(comps, deps, j) {
            r is Ok
        } else {
            exists|i: int| #![trigger deps[i]]
                0 <= i < deps.len() && !dependency_met(comps, deps, i)
                && (forall|j: int| 0 <= j < i ==> dependency_met(comps, deps, j))
                && (r matches Err(e) && dependency_error(comps, deps, i, id, e))
        }
    }
}

/// What the first step of mounting `id` with type name `component_type`
/// does, taking the manager from `o` to `f` and returning `r`.
pub open spec fn begin_mount_post(
    o: ComponentManager,
    f: ComponentManager,
    id: Seq<char>,
    component_type: String,
    r: ComponentResult<()>,
) -> bool {
    let comps = o.components();
    &&& f.wf()
    &&& f.events_view() == o.events_view()
    &&& f.focus_view() == o.focus_view()
    &&& f.shutdown_view() == o.shutdown_view()
    &&& if !dependencies_outcome(comps, id, Ok(())) {
        &&& dependencies_outcome(comps, id, r)
        &&& f.components() == comps
        &&& f.mount_order_view() == o.mount_order_view()
    } else if comps.contains_key(id) {
        &&& r matches Err(ComponentError::StateError { message })
            && message@ == "Component "@ + id + " already registered"@
        &&& f.components() == comps
        &&& f.mount_order_view() == o.mount_order_view()
    } else {
        &&& r is Ok
        &&& f.components().dom() == comps.dom().insert(id)
        &&& forall|k: Seq<char>| comps.contains_key(k) ==> #[trigger] f.components()[k] == comps[k]
        &&& f.components()[id].id@ == id
        &&& f.components()[id].component_type == component_type
        &&& !f.components()[id].is_mounted
        &&& !f.components()[id].is_active
        &&& f.components()[id].dependencies@.len() == 0
        &&& f.mount_order_view() == (if o.mount_order_view().contains(id) {
            o.mount_order_view()
        } else {
            o.mount_order_view().push(id)
        })
    }
}

/// What the second step of mounting `id` does with the outcome of its
/// `on_mount` hook, taking the manager from `o` to `f` and returning `r`.
pub open spec fn complete_mount_post(
    o: ComponentManager,
    f: ComponentManager,
    id: Seq<char>,
    outcome: MountResult,
    r: ComponentResult<()>,
) -> bool {
    &&& f.wf()
    &&& r == outcome
    &&& f.focus_view() == o.focus_view()
    &&& f.mount_order_view() == o.mount_order_view()
    &&& f.shutdown_view() == o.shutdown_view()
    &&& outcome is Err ==> {
        &&& f.components() == o.components().remove(id)
        &&& f.events_view() == o.events_view()
    }
    &&& outcome is Ok ==> {
        &&& f.components().dom() == o.components().dom()
        &&& forall|k: Seq<char>| k != id && o.components().contains_key(k)
            ==> #[trigger] f.components()[k] == o.components()[k]
        &&& o.components().contains_key(id) ==> {
            let before = o.components()[id];
            let after = f.components()[id];
            &&& after.is_mounted && after.mount_time is Some
            &&& after == (ComponentInfo { is_mounted: true, mount_time: after.mount_time, ..before })
        }
        &&& f.events_view().len() == o.events_view().len() + 1
        &&& f.events_view().drop_last() == o.events_view()
        &&& is_focus_gained(f.events_view().last(), id)
    }
}

/// Mounting `id` went through both steps: the first took the manager from
/// `o` to `mid` and returned `begun`; when that failed, its error is the
/// result and the manager stays at `mid`, else the second step, given the
/// hook's `outcome`, took it from `mid` to `f` and returned `r`.
pub open spec fn mount_steps(
    o: ComponentManager,
    mid: ComponentManager,
    f: ComponentManager,
    id: Seq<char>,
    component_type: String,
    begun: ComponentResult<()>,
    outcome: MountResult,
    r: ComponentResult<()>,
) -> bool {
    &&& begin_mount_post(o, mid, id, component_type, begun)
    &&& begun is Err ==> f == mid && r == begun
    &&& begun is Ok ==> complete_mount_post(mid, f, id, outcome, r)
}

/// Central component manager: keeps the registry, the mount order and the
/// focus stack, and collects the events to broadcast, oldest first.
pub struct ComponentManager {
    registry: ComponentRegistry,
    events: Vec<ComponentEvent>,
    shutdown_signal: bool,
}

impl ComponentManager {
    /// The registered components by identifier.
    pub closed spec fn components(&self) -> Map<Seq<char>, ComponentInfo> {
        self.registry.components_view()
    }

    /// The mount order, oldest first.
    pub closed spec fn mount_order_view(&self) -> Seq<Seq<char>> {
        self.registry.mount_order_view()
    }

    /// The focus stack, bottom first.
    pub closed spec fn focus_view(&self) -> Seq<Seq<char>> {
        self.registry.focus_stack_view()
    }

    /// The events emitted and not yet taken, oldest first.
    pub closed spec fn events_view(&self) -> Seq<ComponentEvent> {
        self.events@
    }

    /// Whether shutdown has been requested.
    pub closed spec fn shutdown_view(&self) -> bool {
        self.shutdown_signal
    }

    /// The registry is well formed, and every component it holds was
    /// registered by this manager: under its own identifier, with no
    /// children.
    pub closed spec fn wf(&self) -> bool {
        &&& self.registry.wf()
        &&& forall|k: Seq<char>| #[trigger] self.registry.components_view().contains_key(k)
            ==> self.registry.components_view()[k].id@ == k
                && self.registry.components_view()[k].children@.len() == 0
    }

    /// Create a new component manager.
    pub fn new() -> (r: Self)
        ensures
            r.wf(),
            r.components() == Map::<Seq<char>, ComponentInfo>::empty(),
            r.mount_order_view().len() == 0,
            r.focus_view().len() == 0,
            r.events_view().len() == 0,
            !r.shutdown_view(),
    {
        ComponentManager { registry: ComponentRegistry::new(), events: Vec::new(), shutdown_signal: false }
    }

    /// Check that the dependencies of a registered component are mounted.
    pub fn check_dependencies(&self, component_id: &ComponentId) -> (r: ComponentResult<()>)
        requires
            self.wf(),
        ensures
            dependencies_outcome(self.components(), component_id@, r),
    {
        let ghost comps = self.components();
        match self.registry.get(component_id) {
            None => Ok(()),
            Some(info) => {
                let ghost deps = ids_view(info.dependencies@);
                let mut i: usize = 0;
                while i < info.dependencies.len()
                    invariant
                        self.wf(),
                        comps == self.components(),
                        comps.contains_key(component_id@),
                        *info == comps[component_id@],
                        deps == ids_view(info.dependencies@),
                        i <= deps.len(),
                        forall|j: int| 0 <= j < i ==> dependency_met(comps, deps, j),
                    decreases deps.len() - i,
                {
                    let dep_id = &info.dependencies[i];
                    assert(deps[i as int] == dep_id@);
                    match self.registry.get(dep_id) {
                        Some(dep_info) => {
                            if !dep_info.is_mounted {
                                let mut message = "Dependency ".to_owned();
                                message.append(dep_id.0.as_str());
                                message.append(" is not mounted for component ");
                                message.append(component_id.0.as_str());
                                let r = Err(ComponentError::StateError { message });
                                assert(dependency_error(comps, deps, i as int, component_id@, r->Err_0));
                                return r;
                            }
                        },
                        None => {
                            let r = Err(ComponentError::NotFound { id: dep_id.duplicate() });
                            assert(dependency_error(comps, deps, i as int, component_id@, r->Err_0));
                            return r;
                        },
                    }
                    i += 1;
                }
                Ok(())
            },
        }
    }

    /// First step of mounting: check the dependencies, register the
    /// component and put it in the mount order. On success the caller runs
    /// the component's `on_mount` hook and hands its outcome to
    /// `complete_mount`.
    pub fn begin_mount(&mut self, component_id: ComponentId, component_type: String) -> (r: ComponentResult<()>)
        requires
            old(self).wf(),
        ensures
            begin_mount_post(*old(self), *final(self), component_id@, component_type, r),
    {
        match self.check_dependencies(&component_id) {
            Err(e) => {
                return Err(e);
            },
            Ok(()) => {},
        }
        let info = ComponentInfo::new(component_id.duplicate(), component_type);
        let ghost old_comps = self.registry.components_view();
        match self.registry.register(component_id.duplicate(), info) {
            Err(e) => {
                return Err(e);
            },
            Ok(()) => {},
        }
        assert forall|k: Seq<char>| #[trigger] self.registry.components_view().contains_key(k)
            implies self.registry.components_view()[k].id@ == k
                && self.registry.components_view()[k].children@.len() == 0 by {
            if k != component_id@ {
                assert(old_comps.contains_key(k));
            }
        }
        self.registry.add_to_mount_order(component_id);
        Ok(())
    }

    /// Second step of mounting, given the outcome of the component's
    /// `on_mount` hook: on failure the component is unregistered and the
    /// failure returned; on success it is marked mounted and a focus-gained
    /// event is emitted.
    pub fn complete_mount(&mut self, component_id: &ComponentId, outcome: MountResult) -> (r: ComponentResult<()>)
        requires
            old(self).wf(),
        ensures
            complete_mount_post(*old(self), *final(self), component_id@, outcome, r),
    {
        match outcome {
            Err(e) => {
                let ghost old_comps = self.registry.components_view();
                let _ = self.registry.unregister(component_id);
                assert forall|k: Seq<char>| #[trigger] self.registry.components_view().contains_key(k)
                    implies self.registry.components_view()[k].id@ == k
                        && self.registry.components_view()[k].children@.len() == 0 by {
                    assert(old_comps.contains_key(k));
                }
                assert(self.components() =~= old(self).components().remove(component_id@));
                Err(e)
            },
            Ok(u) => {
                let ghost old_comps = self.registry.components_view();
                self.registry.update_info(component_id, Some(true), None);
                assert forall|k: Seq<char>| #[trigger] self.registry.components_view().contains_key(k)
                    implies self.registry.components_view()[k].id@ == k
                        && self.registry.components_view()[k].children@.len() == 0 by {
                    assert(old_comps.contains_key(k));
                }
                let ghost before = self.events@;
                self.events.push(ComponentEvent::FocusGained { component_id: component_id.duplicate() });
                assert(self.events@.drop_last() =~= before);
                assert(self.components().dom() =~= old(self).components().dom());
                Ok(u)
            },
        }
    }

    /// Register and mount a component of the given type name: its
    /// dependencies are checked, it is registered, its `on_mount` hook runs,
    /// and it is marked mounted.
    pub fn mount_component<C: ComponentLifecycle>(&mut self, component: &mut C, component_type: String) -> (r: ComponentResult<()>)
        requires
            old(self).wf(),
        ensures
            final(self).wf(),
            exists|id: Seq<char>, mid: ComponentManager, begun: ComponentResult<()>, outcome: MountResult|
                #[trigger] mount_steps(*old(self), mid, *final(self), id, component_type, begun, outcome, r),
    {
        let component_id = component.lifecycle_id().duplicate();
        let ghost id = component_id@;
        let begun = self.begin_mount(component_id.duplicate(), component_type);
        let ghost mid = *self;
        match begun {
            Err(e) => {
                let r = Err(e);
                assert(mount_steps(*old(self), mid, *self, id, component_type, r, r, r));
                return r;
            },
            Ok(()) => {},
        }
        let outcome = component.on_mount();
        let ghost taken = outcome;
        let r = self.complete_mount(&component_id, outcome);
        assert(mount_steps(*old(self), mid, *self, id, component_type, Ok(()), taken, r));
        r
    }

    /// Unmount a component: children first, then the component leaves the
    /// focus when it holds it, is marked unmounted, leaves the mount order,
    /// and a focus-lost event is emitted. A component that is not mounted is
    /// left as it is.
    pub fn unmount_component(&mut self, component_id: &ComponentId) -> (r: ComponentResult<()>)
        requires
            old(self).wf(),
        ensures
            final(self).wf(),
            final(self).shutdown_view() == old(self).shutdown_view(),
            ({
                let comps = old(self).components();
                let id = component_id@;
                if !comps.contains_key(id) {
                    &&& r matches Err(ComponentError::NotFound { id: missing }) && missing@ == id
                    &&& final(self).components() == comps
                    &&& final(self).mount_order_view() == old(self).mount_order_view()
                    &&& final(self).focus_view() == old(self).focus_view()
                    &&& final(self).events_view() == old(self).events_view()
                } else if !comps[id].is_mounted {
                    &&& r is Ok
                    &&& final(self).components() == comps
                    &&& final(self).mount_order_view() == old(self).mount_order_view()
                    &&& final(self).focus_view() == old(self).focus_view()
                    &&& final(self).events_view() == old(self).events_view()
                } else {
                    &&& r is Ok
                    &&& final(self).components() == comps.insert(id, unmounted_info(comps[id]))
                    &&& final(self).mount_order_view() == old(self).mount_order_view().filter(other_than(id))
                    &&& final(self).focus_view() == focus_after_unmount(old(self).focus_view(), id)
                    &&& final(self).events_view().len() == old(self).events_view().len() + 1
                    &&& final(self).events_view().drop_last() == old(self).events_view()
                    &&& is_focus_lost(final(self).events_view().last(), id)
                }
            }),
        decreases 0nat,
    {
        let ghost comps = self.registry.components_view();
        let children = match self.registry.get(component_id) {
            None => {
                return Err(ComponentError::NotFound { id: component_id.duplicate() });
            },
            Some(info) => {
                if !info.is_mounted {
                    return Ok(());
                }
                let mut children: Vec<ComponentId> = Vec::new();
                let mut j: usize = 0;
                while j < info.children.len()
                    invariant
                        j <= info.children@.len(),
                        children@.len() == j,
                    decreases info.children@.len() - j,
                {
                    children.push(info.children[j].duplicate());
                    j += 1;
                }
                children
            },
        };
        assert(children@.len() == 0);
        let mut i: usize = 0;
        while i < children.len()
            invariant
                children@.len() == 0,
                self.registry == old(self).registry,
                self.events == old(self).events,
                self.shutdown_signal == old(self).shutdown_signal,
            decreases children@.len() - i,
        {
            let _ = self.unmount_component(&children[i]);
            i += 1;
        }
        let top_is_component = match self.registry.current_focus() {
            Some(top) => top.same_as(component_id),
            None => false,
        };
        if top_is_component {
            let _ = self.registry.pop_focus();
        }
        self.registry.update_info(component_id, Some(false), None);
        self.registry.remove_from_mount_order(component_id);
        assert forall|k: Seq<char>| #[trigger] self.registry.components_view().contains_key(k)
            implies self.registry.components_view()[k].id@ == k
                && self.registry.components_view()[k].children@.len() == 0 by {
            assert(comps.contains_key(k));
        }
        assert(self.registry.components_view() =~= comps.insert(component_id@, unmounted_info(comps[component_id@])));
        let ghost before = self.events@;
        self.events.push(ComponentEvent::FocusLost { component_id: component_id.duplicate() });
        assert(self.events@.drop_last() =~= before);
        Ok(())
    }

    /// Deactivate a component: it is marked inactive when registered, and a
    /// focus-lost event is emitted.
    pub fn deactivate_component(&mut self, component_id: &ComponentId) -> (r: ComponentResult<()>)
        requires
            old(self).wf(),
        ensures
            final(self).wf(),
            r is Ok,
            final(self).shutdown_view() == old(self).shutdown_view(),
            final(self).components() == (if old(self).components().contains_key(component_id@) {
                old(self).components().insert(component_id@, ComponentInfo { is_active: false, ..old(self).components()[component_id@] })
            } else {
                old(self).components()
            }),
            final(self).mount_order_view() == old(self).mount_order_view(),
            final(self).focus_view() == old(self).focus_view(),
            final(self).events_view().len() == old(self).events_view().len() + 1,
            final(self).events_view().drop_last() == old(self).events_view(),
            is_focus_lost(final(self).events_view().last(), component_id@),
    {
        let ghost comps = self.registry.components_view();
        self.registry.update_info(component_id, None, Some(false));
        assert forall|k: Seq<char>| #[trigger] self.registry.components_view().contains_key(k)
            implies self.registry.components_view()[k].id@ == k
                && self.registry.components_view()[k].children@.len() == 0 by {
            assert(comps.contains_key(k));
        }
        proof {
            if comps.contains_key(component_id@) {
                assert(self.registry.components_view() =~= comps.insert(component_id@, ComponentInfo { is_active: false, ..comps[component_id@] }));
            } else {
                assert(self.registry.components_view() =~= comps);
            }
        }
        let ghost before = self.events@;
        self.events.push(ComponentEvent::FocusLost { component_id: component_id.duplicate() });
        assert(self.events@.drop_last() =~= before);
        Ok(())
    }

    /// Get the currently focused component.
    pub fn get_current_focus(&self) -> (r: Option<ComponentId>)
        ensures
            opt_id_view(r) == (if self.focus_view().len() == 0 { None } else { Some(self.focus_view().last()) }),
    {
        match self.registry.current_focus() {
            Some(c) => Some(c.duplicate()),
            None => None,
        }
    }

    /// Activate (focus) a mounted component: the component that holds the
    /// focus, if another, is deactivated first; the component is marked
    /// active, goes to the top of the focus stack, and a focus-gained event
    /// is emitted.
    pub fn activate_component(&mut self, component_id: &ComponentId) -> (r: ComponentResult<()>)
        requires
            old(self).wf(),
        ensures
            final(self).wf(),
            final(self).shutdown_view() == old(self).shutdown_view(),
            final(self).mount_order_view() == old(self).mount_order_view(),
            ({
                let comps = old(self).components();
                let id = component_id@;
                let focus = old(self).focus_view();
                if !comps.contains_key(id) {
                    &&& r matches Err(ComponentError::NotFound { id: missing }) && missing@ == id
                    &&& final(self).components() == comps
                    &&& final(self).focus_view() == focus
                    &&& final(self).events_view() == old(self).events_view()
                } else if !comps[id].is_mounted {
                    &&& r matches Err(ComponentError::StateError { message })
                        && message@ == "Cannot activate unmounted component: "@ + id
                    &&& final(self).components() == comps
                    &&& final(self).focus_view() == focus
                    &&& final(self).events_view() == old(self).events_view()
                } else {
                    let switched = focus.len() > 0 && focus.last() != id;
                    let prev = focus.last();
                    let deactivated = if switched && comps.contains_key(prev) {
                        comps.insert(prev, ComponentInfo { is_active: false, ..comps[prev] })
                    } else {
                        comps
                    };
                    &&& r is Ok
                    &&& final(self).components() == deactivated.insert(id, ComponentInfo { is_active: true, ..deactivated[id] })
                    &&& final(self).focus_view() == focus.filter(other_than(id)).push(id)
                    &&& final(self).events_view().len() == old(self).events_view().len() + (if switched { 2int } else { 1int })
                    &&& final(self).events_view().take(old(self).events_view().len() as int) == old(self).events_view()
                    &&& switched ==> is_focus_lost(final(self).events_view()[old(self).events_view().len() as int], prev)
                    &&& is_focus_gained(final(self).events_view().last(), id)
                }
            }),
    {
        match self.registry.get(component_id) {
            None => {
                return Err(ComponentError::NotFound { id: component_id.duplicate() });
            },
            Some(info) => {
                if !info.is_mounted {
                    let mut message = "Cannot activate unmounted component: ".to_owned();
                    message.append(component_id.0.as_str());
                    return Err(ComponentError::StateError { message });
                }
            },
        }
        let ghost events0 = self.events@;
        let ghost comps0 = self.registry.components_view();
        match self.get_current_focus() {
            Some(current) => {
                if !current.same_as(component_id) {
                    let _ = self.deactivate_component(&current);
                }
            },
            None => {},
        }
        let ghost comps1 = self.registry.components_view();
        let ghost events1 = self.events@;
        proof {
            let focus = self.registry.focus_stack_view();
            let switched = focus.len() > 0 && focus.last() != component_id@;
            let prev = focus.last();
            if switched {
                assert(events1.len() == events0.len() + 1);
                assert(is_focus_lost(events1[events0.len() as int], prev));
                assert(comps1 == (if comps0.contains_key(prev) {
                    comps0.insert(prev, ComponentInfo { is_active: false, ..comps0[prev] })
                } else {
                    comps0
                }));
            } else {
                assert(events1 == events0);
                assert(comps1 == comps0);
            }
        }
        self.registry.update_info(component_id, None, Some(true));
        self.registry.push_focus(component_id.duplicate());
        assert forall|k: Seq<char>| #[trigger] self.registry.components_view().contains_key(k)
            implies self.registry.components_view()[k].id@ == k
                && self.registry.components_view()[k].children@.len() == 0 by {
            assert(comps1.contains_key(k));
        }
        assert(self.registry.components_view() =~= comps1.insert(component_id@, ComponentInfo { is_active: true, ..comps1[component_id@] }));
        self.events.push(ComponentEvent::FocusGained { component_id: component_id.duplicate() });
        assert(self.events@.drop_last() =~= events1);
        assert(self.events@.take(events0.len() as int) =~= events0);
        assert(events1.len() >= events0.len() ==> self.events@[events0.len() as int] == events1[events0.len() as int] || events1.len() == events0.len());
        Ok(())
    }

    /// Get all mounted components.
    pub fn get_mounted_components(&self) -> (r: Vec<ComponentId>)
        requires
            self.wf(),
        ensures
            ids_view(r@).no_duplicates(),
            forall|k: Seq<char>| #[trigger] ids_view(r@).contains(k)
                <==> self.components().contains_key(k) && self.components()[k].is_mounted,
    {
        let ghost s = entries_view(self.registry.components@);
        let mut r: Vec<ComponentId> = Vec::new();
        let mut i: usize = 0;
        while i < self.registry.components.len()
            invariant
                self.wf(),
                s == entries_view(self.registry.components@),
                i <= s.len(),
                ids_view(r@).no_duplicates(),
                forall|k: Seq<char>| #[trigger] ids_view(r@).contains(k)
                    <==> exists|j: int| 0 <= j < i && s[j].0 == k && s[j].1.is_mounted,
            decreases s.len() - i,
        {
            let info = &self.registry.components[i].1;
            proof {
                lemma_fold_lookup(s, i as int);
            }
            if info.is_mounted {
                let ghost before = r@;
                assert(info.id@ == s[i as int].0);
                assert(!ids_view(before).contains(s[i as int].0));
                r.push(info.id.duplicate());
                assert(ids_view(r@) =~= ids_view(before).push(s[i as int].0));
                assert forall|k: Seq<char>| #[trigger] ids_view(r@).contains(k)
                    <==> exists|j: int| 0 <= j < i + 1 && s[j].0 == k && s[j].1.is_mounted by {
                    let rv = ids_view(r@);
                    let bv = ids_view(before);
                    if rv.contains(k) && k != s[i as int].0 {
                        let idx = choose|idx: int| 0 <= idx < rv.len() && rv[idx] == k;
                        assert(idx < bv.len() && bv[idx] == k);
                        assert(bv.contains(k));
                        let j = choose|j: int| 0 <= j < i && s[j].0 == k && s[j].1.is_mounted;
                        assert(0 <= j < i + 1 && s[j].0 == k && s[j].1.is_mounted);
                    }
                    if k == s[i as int].0 {
                        assert(s[i as int].1.is_mounted);
                        assert(rv[rv.len() - 1] == k);
                        assert(rv.contains(k));
                    }
                    if exists|j: int| 0 <= j < i + 1 && s[j].0 == k && s[j].1.is_mounted {
                        let j = choose|j: int| 0 <= j < i + 1 && s[j].0 == k && s[j].1.is_mounted;
                        if j < i {
                            assert(bv.contains(k));
                            let idx = choose|idx: int| 0 <= idx < bv.len() && bv[idx] == k;
                            assert(rv[idx] == k);
                        } else {
                            assert(rv[rv.len() - 1] == k);
                        }
                    }
                }
            } else {
                assert forall|k: Seq<char>| #[trigger] ids_view(r@).contains(k)
                    <==> exists|j: int| 0 <= j < i + 1 && s[j].0 == k && s[j].1.is_mounted by {
                    if ids_view(r@).contains(k) {
                        let j = choose|j: int| 0 <= j < i && s[j].0 == k && s[j].1.is_mounted;
                        assert(0 <= j < i + 1 && s[j].0 == k && s[j].1.is_mounted);
                    }
                    if exists|j: int| 0 <= j < i + 1 && s[j].0 == k && s[j].1.is_mounted {
                        let j = choose|j: int| 0 <= j < i + 1 && s[j].0 == k && s[j].1.is_mounted;
                        assert(j < i);
                    }
                }
            }
            i += 1;
        }
        proof {
            assert forall|k: Seq<char>| #[trigger] ids_view(r@).contains(k)
                <==> self.components().contains_key(k) && self.components()[k].is_mounted by {
                lemma_fold_dom(s, k);
                if exists|j: int| 0 <= j < s.len() && s[j].0 == k {
                    let j = choose|j: int| 0 <= j < s.len() && s[j].0 == k;
                    lemma_fold_lookup(s, j);
                }
            }
        }
        r
    }

    /// Emit a component event.
    pub fn emit_event(&mut self, event: ComponentEvent)
        ensures
            final(self).events_view() == old(self).events_view().push(event),
            final(self).components() == old(self).components(),
            final(self).wf() == old(self).wf(),
            final(self).mount_order_view() == old(self).mount_order_view(),
            final(self).focus_view() == old(self).focus_view(),
            final(self).shutdown_view() == old(self).shutdown_view(),
    {
        self.events.push(event);
    }

    /// Take the emitted events, oldest first, for broadcasting.
    pub fn take_events(&mut self) -> (r: Vec<ComponentEvent>)
        ensures
            r@ == old(self).events_view(),
            final(self).events_view().len() == 0,
            final(self).components() == old(self).components(),
            final(self).wf() == old(self).wf(),
            final(self).mount_order_view() == old(self).mount_order_view(),
            final(self).focus_view() == old(self).focus_view(),
            final(self).shutdown_view() == old(self).shutdown_view(),
    {
        let mut taken: Vec<ComponentEvent> = Vec::new();
        std::mem::swap(&mut taken, &mut self.events);
        taken
    }

    /// Shut the manager down: the shutdown flag is set and every component
    /// is unmounted, in reverse mount order. Failures to unmount are passed
    /// over.
    pub fn shutdown(&mut self) -> (r: ComponentResult<()>)
        requires
            old(self).wf(),
        ensures
            final(self).wf(),
            r is Ok,
            final(self).shutdown_view(),
            final(self).components().dom() == old(self).components().dom(),
            forall|k: Seq<char>| #[trigger] old(self).components().contains_key(k) ==>
                final(self).components()[k] == (if old(self).mount_order_view().contains(k) && old(self).components()[k].is_mounted {
                    unmounted_info(old(self).components()[k])
                } else {
                    old(self).components()[k]
                }),
            forall|k: Seq<char>| #[trigger] final(self).mount_order_view().contains(k) <==>
                old(self).mount_order_view().contains(k)
                && !(old(self).components().contains_key(k) && old(self).components()[k].is_mounted),
            final(self).focus_view().len() <= old(self).focus_view().len(),
            final(self).focus_view() == old(self).focus_view().take(final(self).focus_view().len() as int),
            final(self).events_view().take(old(self).events_view().len() as int) == old(self).events_view(),
    {
        self.shutdown_signal = true;
        let ghost comps0 = self.registry.components_view();
        let ghost focus0 = self.registry.focus_stack_view();
        let ghost events0 = self.events@;
        let ghost o = self.registry.mount_order_view();
        let mut order: Vec<ComponentId> = Vec::new();
        let mut j: usize = 0;
        while j < self.registry.mount_order.len()
            invariant
                j <= self.registry.mount_order@.len(),
                ids_view(order@) == ids_view(self.registry.mount_order@).take(j as int),
            decreases self.registry.mount_order@.len() - j,
        {
            let ghost before = order@;
            order.push(self.registry.mount_order[j].duplicate());
            assert(ids_view(order@) =~= ids_view(before).push(self.registry.mount_order@[j as int]@));
            assert(ids_view(self.registry.mount_order@).take(j + 1) =~= ids_view(self.registry.mount_order@).take(j as int).push(self.registry.mount_order@[j as int]@));
            j += 1;
        }
        assert(ids_view(order@) =~= o);
        let n = order.len();
        let mut i: usize = n;
        while i > 0
            invariant
                self.wf(),
                self.shutdown_signal,
                i <= n,
                n == o.len(),
                ids_view(order@) == o,
                self.components().dom() == comps0.dom(),
                forall|k: Seq<char>| #[trigger] comps0.contains_key(k) ==>
                    self.components()[k] == (if o.subrange(i as int, n as int).contains(k) && comps0[k].is_mounted {
                        unmounted_info(comps0[k])
                    } else {
                        comps0[k]
                    }),
                forall|k: Seq<char>| #[trigger] self.mount_order_view().contains(k) <==>
                    o.contains(k) && !(o.subrange(i as int, n as int).contains(k) && comps0.contains_key(k) && comps0[k].is_mounted),
                self.focus_view().len() <= focus0.len(),
                self.focus_view() == focus0.take(self.focus_view().len() as int),
                self.events@.take(events0.len() as int) == events0,
                self.events@.len() >= events0.len(),
            decreases i,
        {
            i -= 1;
            let ghost comps1 = self.components();
            let ghost mo1 = self.mount_order_view();
            let ghost focus1 = self.focus_view();
            let ghost events1 = self.events@;
            let ghost id = o[i as int];
            assert(order@[i as int]@ == id);
            let _ = self.unmount_component(&order[i]);
            proof {
                assert forall|k: Seq<char>| o.subrange(i as int, n as int).contains(k)
                    <==> (k == id || o.subrange(i + 1, n as int).contains(k)) by {
                    let full = o.subrange(i as int, n as int);
                    let rest = o.subrange(i + 1, n as int);
                    if full.contains(k) {
                        let x = choose|x: int| 0 <= x < full.len() && full[x] == k;
                        if x > 0 {
                            assert(rest[x - 1] == k);
                        }
                    }
                    if k == id {
                        assert(full[0] == k);
                    }
                    if rest.contains(k) {
                        let x = choose|x: int| 0 <= x < rest.len() && rest[x] == k;
                        assert(full[x + 1] == k);
                    }
                }
                assert forall|k: Seq<char>| #[trigger] comps0.contains_key(k) implies
                    self.components()[k] == (if o.subrange(i as int, n as int).contains(k) && comps0[k].is_mounted {
                        unmounted_info(comps0[k])
                    } else {
                        comps0[k]
                    }) by {
                    if k == id {
                        assert(o.subrange(i as int, n as int).contains(k));
                    }
                }
                assert forall|k: Seq<char>| #[trigger] self.mount_order_view().contains(k) <==>
                    o.contains(k) && !(o.subrange(i as int, n as int).contains(k) && comps0.contains_key(k) && comps0[k].is_mounted) by {
                    if comps1.contains_key(id) && comps1[id].is_mounted {
                        lemma_filter_other_than(mo1, id, k);
                    }
                    if k == id {
                        assert(o.subrange(i as int, n as int).contains(k));
                    }
                }
                if focus1.len() > 0 && focus1.last() == id && comps1.contains_key(id) && comps1[id].is_mounted {
                    assert(self.focus_view() =~= focus0.take(self.focus_view().len() as int));
                }
                assert(self.events@.take(events0.len() as int) =~= events0);
            }
        }
        assert(o.subrange(0, n as int) =~= o);
        Ok(())
    }

    /// Check if shutdown has been requested.
    pub fn is_shutdown_requested(&self) -> (r: bool)
        ensures
            r == self.shutdown_view(),
    {
        self.shutdown_signal
    }
}

/// The predicate that holds of every identifier but `id`.
pub open spec fn other_than(id: Seq<char>) -> spec_fn(Seq<char>) -> bool {
    |x: Seq<char>| x != id
}

/// An identifier is in `s` without those equal to `id` when it is in `s` and
/// is not `id`.
pub proof fn lemma_filter_other_than(s: Seq<Seq<char>>, id: Seq<char>, k: Seq<char>)
    ensures
        s.filter(other_than(id)).contains(k) <==> s.contains(k) && k != id,
{
    broadcast use vstd::seq_lib::group_filter_ensures;
    let f = s.filter(other_than(id));
    if f.contains(k) {
        s.lemma_filter_contains_rev(other_than(id), k);
        let x = choose|x: int| 0 <= x < f.len() && f[x] == k;
        assert(other_than(id)(f[x]));
    }
    if s.contains(k) && k != id {
        let x = choose|x: int| 0 <= x < s.len() && s[x] == k;
        assert(other_than(id)(s[x]));
    }
}

/// The information of a component after it is unmounted.
pub open spec fn unmounted_info(o: ComponentInfo) -> ComponentInfo {
    ComponentInfo { is_mounted: false, mount_time: None, ..o }
}

/// The focus stack after unmounting `id`: its top leaves when it is `id`.
pub open spec fn focus_after_unmount(focus: Seq<Seq<char>>, id: Seq<char>) -> Seq<Seq<char>> {
    if focus.len() > 0 && focus.last() == id {
        focus.drop_last()
    } else {
        focus
    }
}

} // verus!
