//! The stack of drawing layers of a UI frame: regular layers in drawing
//! order, overlay layers drawn above them, and the history of the layers
//! entered.
use vstd::prelude::*;

verus! {

/// A layer: the n-th regular layer or the n-th overlay layer.
#[derive(Debug, Clone, Copy, PartialEq, Eq, Structural)]
pub enum LayerId {
    Regular(usize),
    Overlay(usize),
}

/// The layers of a frame, over a layer content type `L`.
#[derive(Debug)]
pub struct LayerStack<L> {
    layers: Vec<L>,
    overlay_layers: Vec<L>,
    history_stack: Vec<LayerId>,
    curr: LayerId,
}

/// The abstract state of a layer stack: the regular and overlay layers, the
/// layers entered before the current one (most recent last), and the
/// current layer.
pub struct LayerStackView<L> {
    pub layers: Seq<L>,
    pub overlay_layers: Seq<L>,
    pub history: Seq<LayerId>,
    pub curr: LayerId,
}

/// Whether `id` names a layer of the stack.
pub open spec fn layer_exists<L>(v: LayerStackView<L>, id: LayerId) -> bool {
    match id {
        LayerId::Regular(i) => i < v.layers.len(),
        LayerId::Overlay(i) => i < v.overlay_layers.len(),
    }
}

/// The content of the layer `id`.
pub open spec fn layer_of<L>(v: LayerStackView<L>, id: LayerId) -> L {
    match id {
        LayerId::Regular(i) => v.layers[i as int],
        LayerId::Overlay(i) => v.overlay_layers[i as int],
    }
}

/// Entering a new layer after the last one of the current kind.
pub open spec fn push_step<L>(v: LayerStackView<L>, fresh: L) -> LayerStackView<L> {
    match v.curr {
        LayerId::Regular(_) => LayerStackView {
            layers: v.layers.push(fresh),
            history: v.history.push(v.curr),
            curr: LayerId::Regular(v.layers.len() as usize),
            ..v
        },
        LayerId::Overlay(_) => LayerStackView {
            overlay_layers: v.overlay_layers.push(fresh),
            history: v.history.push(v.curr),
            curr: LayerId::Overlay(v.overlay_layers.len() as usize),
            ..v
        },
    }
}

/// Leaving the current layer for the one entered before it, if any.
pub open spec fn pop_step<L>(v: LayerStackView<L>) -> LayerStackView<L> {
    if v.history.len() > 0 {
        LayerStackView { history: v.history.drop_last(), curr: v.history.last(), ..v }
    } else {
        v
    }
}

impl<L> View for LayerStack<L> {
    type V = LayerStackView<L>;

    closed spec fn view(&self) -> LayerStackView<L> {
        LayerStackView {
            layers: self.layers@,
            overlay_layers: self.overlay_layers@,
            history: self.history_stack@,
            curr: self.curr,
        }
    }
}

impl<L> LayerStack<L> {
    /// There is a first regular layer, which a new frame starts from.
    pub closed spec fn well_formed(&self) -> bool {
        self.layers.len() >= 1
    }

    /// A stack of one regular layer, which is current.
    pub fn new(base: L) -> (s: Self)
        ensures
            s@.layers == seq![base],
            s@.overlay_layers.len() == 0,
            s@.history.len() == 0,
            s@.curr == LayerId::Regular(0),
            s.well_formed(),
    {
        let mut layers: Vec<L> = Vec::new();
        layers.push(base);
        LayerStack { layers, overlay_layers: Vec::new(), history_stack: Vec::new(), curr: LayerId::Regular(0) }
    }

    pub fn len(&self) -> (n: usize)
        requires
            self@.layers.len() + self@.overlay_layers.len() <= usize::MAX,
        ensures
            n == self@.layers.len() + self@.overlay_layers.len(),
    {
        self.layers.len() + self.overlay_layers.len()
    }

    pub fn is_empty(&self) -> (b: bool)
        requires
            self@.layers.len() + self@.overlay_layers.len() <= usize::MAX,
        ensures
            b == (self@.layers.len() + self@.overlay_layers.len() == 0),
    {
        self.len() == 0
    }

    /// The current layer; it must be one of the stack's layers, which it
    /// is unless a layer entered before a `clear` was gone back to.
    pub fn current(&self) -> (l: &L)
        requires
            layer_exists(self@, self@.curr),
        ensures
            *l == layer_of(self@, self@.curr),
    {
        match self.curr {
            LayerId::Regular(id) => &self.layers[id],
            LayerId::Overlay(id) => &self.overlay_layers[id],
        }
    }

    /// The current layer, to draw into.
    pub fn current_mut(&mut self) -> (l: &mut L)
        requires
            old(self).well_formed(),
            layer_exists(old(self)@, old(self)@.curr),
        ensures
            *l == layer_of(old(self)@, old(self)@.curr),
            final(self).well_formed(),
            final(self)@.curr == old(self)@.curr,
            final(self)@.history == old(self)@.history,
            old(self)@.curr matches LayerId::Regular(i) ==> final(self)@.layers == old(self)@.layers.update(
                i as int,
                *final(l),
            ) && final(self)@.overlay_layers == old(self)@.overlay_layers,
            old(self)@.curr matches LayerId::Overlay(i) ==> final(self)@.overlay_layers
                == old(self)@.overlay_layers.update(i as int, *final(l)) && final(self)@.layers == old(
            self)@.layers,
    {
        match self.curr {
            LayerId::Regular(id) => &mut self.layers[id],
            LayerId::Overlay(id) => &mut self.overlay_layers[id],
        }
    }

    /// The regular layers, in drawing order.
    pub fn regular_layers(&self) -> (ls: &[L])
        ensures
            ls@ == self@.layers,
    {
        self.layers.as_slice()
    }

    /// The overlay layers, in drawing order.
    pub fn overlay_layers(&self) -> (ls: &[L])
        ensures
            ls@ == self@.overlay_layers,
    {
        self.overlay_layers.as_slice()
    }

    /// Enters a new layer after the last one of the current kind.
    pub fn push(&mut self, fresh: L)
        requires
            old(self).well_formed(),
        ensures
            final(self).well_formed(),
            final(self)@ == push_step(old(self)@, fresh),
    {
        self.history_stack.push(self.curr);
        match self.curr {
            LayerId::Regular(_) => {
                self.curr = LayerId::Regular(self.layers.len());
                self.layers.push(fresh);
            },
            LayerId::Overlay(_) => {
                self.curr = LayerId::Overlay(self.overlay_layers.len());
                self.overlay_layers.push(fresh);
            },
        }
    }

    /// Enters a new overlay layer.
    pub fn push_overlay(&mut self, fresh: L)
        requires
            old(self).well_formed(),
        ensures
            final(self).well_formed(),
            final(self)@.history == old(self)@.history.push(old(self)@.curr),
            final(self)@.overlay_layers == old(self)@.overlay_layers.push(fresh),
            final(self)@.layers == old(self)@.layers,
            final(self)@.curr == LayerId::Overlay(old(self)@.overlay_layers.len() as usize),
    {
        self.history_stack.push(self.curr);
        self.curr = LayerId::Overlay(self.overlay_layers.len());
        self.overlay_layers.push(fresh);
    }

    /// Goes back to the layer entered before the current one; with none, the
    /// current layer stays.
    pub fn pop(&mut self)
        requires
            old(self).well_formed(),
        ensures
            final(self).well_formed(),
            final(self)@ == pop_step(old(self)@),
    {
        if let Some(prev) = self.history_stack.pop() {
            self.curr = prev;
        }
    }

    /// Starts the next frame: keeps only the first regular layer, replaced by
    /// `base`, drops the overlay layers and makes the first layer current.
    /// The history of entered layers stays as it is.
    pub fn clear(&mut self, base: L)
        requires
            old(self).well_formed(),
        ensures
            final(self).well_formed(),
            final(self)@.layers == seq![base],
            final(self)@.overlay_layers.len() == 0,
            final(self)@.history == old(self)@.history,
            final(self)@.curr == LayerId::Regular(0),
    {
        self.layers.truncate(1);
        self.layers.set(0, base);
        self.overlay_layers.clear();
        self.curr = LayerId::Regular(0);
        proof {
            assert(self.layers@ =~= seq![base]);
        }
    }
}

/// Entering a layer and leaving it returns to the layer that was current,
/// with the entered layer kept in the stack for drawing.
pub proof fn law_push_then_pop_returns<L>(v: LayerStackView<L>, fresh: L)
    ensures
        pop_step(push_step(v, fresh)).curr == v.curr,
        pop_step(push_step(v, fresh)).history == v.history,
        pop_step(push_step(v, fresh)).layers.len() + pop_step(push_step(v, fresh)).overlay_layers.len()
            == v.layers.len() + v.overlay_layers.len() + 1,
{
    assert(push_step(v, fresh).history.drop_last() =~= v.history);
}

} // verus!
