//! The retained state tree of widgets, and how it is reconciled with a new
//! widget tree.
use vstd::prelude::*;

verus! {

/// The state type a tree is viewed with when its widget's state type is not
/// known.
pub struct UnknownState;

/// A widget as the state tree sees it: the type of its state, the state a
/// fresh instance starts with, and its children.
pub struct WidgetDesc<S> {
    pub state_type: u64,
    pub state: S,
    pub children: Vec<WidgetDesc<S>>,
}

/// The state of a tree node: its type and value, both absent for the null
/// tree.
pub struct TreeState<S> {
    pub state_type: Option<u64>,
    pub state: Option<S>,
}

impl<S> TreeState<S> {
    /// The state of the node; there is none in the null tree.
    pub fn get(&self) -> (r: &S)
        requires
            self.state is Some,
        ensures
            *r == self.state->0,
    {
        self.state.as_ref().unwrap()
    }

    /// The state of the node, to change in place.
    pub fn get_mut(&mut self) -> (r: &mut S)
        requires
            old(self).state is Some,
        ensures
            *r == old(self).state->0,
            final(self).state == Some(*final(r)),
            final(self).state_type == old(self).state_type,
    {
        self.state.as_mut().unwrap()
    }

    /// The type of the state held; none for the null tree.
    pub fn state_type_id(&self) -> (t: Option<u64>)
        ensures
            t == self.state_type,
    {
        self.state_type
    }

    /// Whether the state may be viewed as the state type `new_type`: a view
    /// as the unknown state type (`None`) is always allowed, any other only
    /// when it is the type of the state held.
    pub fn may_view_as(&self, new_type: Option<u64>) -> (b: bool)
        ensures
            b == (new_type is None || new_type == self.state_type),
    {
        type_check(new_type, self.state_type_id())
    }
}

/// The check made before a state is viewed as another type: the unknown
/// state type (`None`) always passes, any other must be `state_type_id`.
pub fn type_check(new_type: Option<u64>, state_type_id: Option<u64>) -> (b: bool)
    ensures
        b == (new_type is None || new_type == state_type_id),
{
    match new_type {
        None => true,
        Some(t) => match state_type_id {
            Some(u) => t == u,
            None => false,
        },
    }
}

/// The retained states of a widget tree.
pub struct Tree<S> {
    pub state: TreeState<S>,
    pub children: Vec<Tree<S>>,
}

/// `t` has the shape of `w`: the same state types, node by node.
pub open spec fn same_shape<S>(t: Tree<S>, w: WidgetDesc<S>) -> bool
    decreases w,
{
    &&& t.state.state_type == Some(w.state_type)
    &&& t.children.len() == w.children.len()
    &&& forall|i: int|
        0 <= i < w.children.len() ==> same_shape(#[trigger] t.children@[i], w.children@[i])
}

/// `t` holds the fresh states of `w`.
pub open spec fn is_fresh<S>(t: Tree<S>, w: WidgetDesc<S>) -> bool
    decreases w,
{
    &&& t.state.state_type == Some(w.state_type)
    &&& t.state.state == Some(w.state)
    &&& t.children.len() == w.children.len()
    &&& forall|i: int| 0 <= i < w.children.len() ==> is_fresh(#[trigger] t.children@[i], w.children@[i])
}


/// Whether `t` is what reconciling `old` with the widget `w` leaves: where
/// the state types agree the old state is kept and the children are
/// reconciled pairwise (extra old children dropped, missing ones fresh);
/// where they differ the node is rebuilt fresh.
pub open spec fn reconciled<S>(old: Tree<S>, t: Tree<S>, w: WidgetDesc<S>) -> bool
    decreases w,
{
    if old.state.state_type == Some(w.state_type) {
        &&& t.state == old.state
        &&& t.children.len() == w.children.len()
        &&& forall|i: int|
            0 <= i < w.children.len() ==> (if i < old.children.len() {
                reconciled(old.children@[i], #[trigger] t.children@[i], w.children@[i])
            } else {
                is_fresh(t.children@[i], w.children@[i])
            })
    } else {
        is_fresh(t, w)
    }
}

impl<S: Copy> Tree<S> {
    /// The tree of the null widget: no state and no children.
    pub fn null() -> (t: Self)
        ensures
            t.state.state_type is None,
            t.state.state is None,
            t.children.len() == 0,
    {
        Tree { state: TreeState { state_type: None, state: None }, children: Vec::new() }
    }

    /// The fresh state tree of a widget.
    pub fn new(widget: &WidgetDesc<S>) -> (t: Self)
        ensures
            is_fresh(t, *widget),
        decreases widget,
    {
        let mut children: Vec<Tree<S>> = Vec::new();
        let mut i: usize = 0;
        while i < widget.children.len()
            invariant
                i <= widget.children.len(),
                children.len() == i,
                forall|j: int| 0 <= j < i ==> is_fresh(#[trigger] children@[j], widget.children@[j]),
            decreases widget.children.len() - i,
        {
            let child = Tree::new(&widget.children[i]);
            children.push(child);
            i = i + 1;
        }
        Tree { state: TreeState { state_type: Some(widget.state_type), state: Some(widget.state) }, children }
    }

    /// Reconciles the tree with a new widget: keeps the states of the nodes
    /// whose state types still agree, rebuilds the others.
    pub fn diff(&mut self, new: &WidgetDesc<S>)
        ensures
            reconciled(*old(self), *final(self), *new),
        decreases new,
    {
        if self.state.state_type == Some(new.state_type) {
            self.diff_children(new);
        } else {
            *self = Self::new(new);
        }
    }

    fn diff_children(&mut self, new: &WidgetDesc<S>)
        requires
            old(self).state.state_type == Some(new.state_type),
        ensures
            reconciled(*old(self), *final(self), *new),
        decreases new, 0nat,
    {
        let ghost old_children = self.children@;
        let n = new.children.len();
        if self.children.len() > n {
            self.children.truncate(n);
        }
        let kept = self.children.len();
        let mut i: usize = 0;
        while i < kept
            invariant
                kept <= n,
                n == new.children.len(),
                kept == self.children.len(),
                self.state == old(self).state,
                old_children == old(self).children@,
                kept == (if old_children.len() < n { old_children.len() } else { n as nat }),
                kept <= old_children.len(),
                i <= kept,
                forall|j: int| i <= j < kept ==> #[trigger] self.children@[j] == old_children[j],
                forall|j: int|
                    0 <= j < i ==> reconciled(old_children[j], #[trigger] self.children@[j], new.children@[j]),
            decreases kept - i,
        {
            self.children[i].diff(&new.children[i]);
            i = i + 1;
        }
        while self.children.len() < n
            invariant
                kept <= self.children.len() <= n,
                n == new.children.len(),
                self.state == old(self).state,
                old_children == old(self).children@,
                kept == (if old_children.len() < n { old_children.len() } else { n as nat }),
                forall|j: int|
                    0 <= j < kept ==> reconciled(old_children[j], #[trigger] self.children@[j], new.children@[j]),
                forall|j: int|
                    kept <= j < self.children.len() ==> is_fresh(#[trigger] self.children@[j], new.children@[j]),
            decreases n - self.children.len(),
        {
            let child = Tree::new(&new.children[self.children.len()]);
            self.children.push(child);
        }
    }
}


/// A fresh tree has the shape of its widget.
pub proof fn lemma_fresh_has_shape<S>(t: Tree<S>, w: WidgetDesc<S>)
    requires
        is_fresh(t, w),
    ensures
        same_shape(t, w),
    decreases w,
{
    assert forall|i: int| 0 <= i < w.children.len() implies same_shape(#[trigger] t.children@[i], w.children@[i]) by {
        lemma_fresh_has_shape(t.children@[i], w.children@[i]);
    }
}

/// Reconciling a state tree with a widget leaves a tree of the widget's
/// shape, whatever the tree was before.
pub proof fn law_diff_gives_the_widget_shape<S>(old: Tree<S>, t: Tree<S>, w: WidgetDesc<S>)
    requires
        reconciled(old, t, w),
    ensures
        same_shape(t, w),
    decreases w,
{
    if old.state.state_type == Some(w.state_type) {
        assert(old.state.state_type is Some);
        assert forall|i: int| 0 <= i < w.children.len() implies same_shape(#[trigger] t.children@[i], w.children@[i]) by {
            if i < old.children.len() {
                law_diff_gives_the_widget_shape(old.children@[i], t.children@[i], w.children@[i]);
            } else {
                lemma_fresh_has_shape(t.children@[i], w.children@[i]);
            }
        }
    } else {
        lemma_fresh_has_shape(t, w);
    }
}

/// Every node of `t` holds the same state as the node at its place in `old`.
pub open spec fn keeps_states<S>(old: Tree<S>, t: Tree<S>) -> bool
    decreases t,
{
    &&& t.state == old.state
    &&& t.children.len() <= old.children.len()
    &&& forall|i: int| 0 <= i < t.children.len() ==> keeps_states(old.children@[i], #[trigger] t.children@[i])
}

/// Reconciling a tree with a widget of its own shape changes no state.
pub proof fn law_diff_with_same_shape_keeps_states<S>(old: Tree<S>, t: Tree<S>, w: WidgetDesc<S>)
    requires
        same_shape(old, w),
        reconciled(old, t, w),
    ensures
        keeps_states(old, t),
    decreases w,
{
    assert forall|i: int| 0 <= i < t.children.len() implies keeps_states(old.children@[i], #[trigger] t.children@[i]) by {
        law_diff_with_same_shape_keeps_states(old.children@[i], t.children@[i], w.children@[i]);
    }
}


/// Reconciling a node whose state type differs from the widget's throws
/// the whole old subtree away: the result is the widget's fresh tree, so its
/// root and each child hold the widget's own states, never an old one.
pub proof fn law_changed_type_rebuilds_the_subtree<S>(old: Tree<S>, t: Tree<S>, w: WidgetDesc<S>)
    requires
        old.state.state_type != Some(w.state_type),
        reconciled(old, t, w),
    ensures
        is_fresh(t, w),
        t.state.state == Some(w.state),
        t.children.len() == w.children.len(),
        forall|i: int|
            0 <= i < w.children.len() ==> (#[trigger] t.children@[i]).state.state == Some(
                w.children@[i].state,
            ),
{
    assert forall|i: int| 0 <= i < w.children.len() implies (#[trigger] t.children@[i]).state.state
        == Some(w.children@[i].state) by {
        assert(is_fresh(t.children@[i], w.children@[i]));
    }
}

} // verus!
