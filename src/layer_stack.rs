use vstd::prelude::*;

use crate::layer::{Layer, WindowEvent};
use crate::stack::Stack;

verus! {

/// The abstract state of a [`LayerStack`]: its elements, bottom first, and the index
/// at which the overlay region begins.
pub struct LayerStackView<L> {
    pub elements: Seq<L>,
    pub overlay_start: nat,
}

impl<L> LayerStackView<L> {
    pub open spec fn wf(self) -> bool {
        self.overlay_start <= self.elements.len()
    }

    /// The layer region, bottom first.
    pub open spec fn layers(self) -> Seq<L> {
        self.elements.take(self.overlay_start as int)
    }

    /// The overlay region, bottom first.
    pub open spec fn overlays(self) -> Seq<L> {
        self.elements.skip(self.overlay_start as int)
    }

    pub open spec fn with_layer(self, layer: L) -> LayerStackView<L> {
        LayerStackView {
            elements: self.elements.insert(self.overlay_start as int, layer),
            overlay_start: self.overlay_start + 1,
        }
    }

    pub open spec fn with_overlay(self, overlay: L) -> LayerStackView<L> {
        LayerStackView { elements: self.elements.push(overlay), overlay_start: self.overlay_start }
    }

    /// The state after the top layer is taken out; only meaningful when one exists.
    pub open spec fn without_top_layer(self) -> LayerStackView<L> {
        LayerStackView {
            elements: self.elements.remove(self.overlay_start - 1),
            overlay_start: (self.overlay_start - 1) as nat,
        }
    }

    /// The state after the top overlay is taken out; only meaningful when one exists.
    pub open spec fn without_top_overlay(self) -> LayerStackView<L> {
        LayerStackView { elements: self.elements.drop_last(), overlay_start: self.overlay_start }
    }
}

/// One call that the stack made on one of its elements, with the element's index.
pub enum Dispatch {
    Init(nat),
    Update(nat),
    Event(nat),
    Cleanup(nat),
}

/// An ordered stack of layers split in two regions: layers, kept in push order, and
/// overlays above them, also kept in push order. Every dispatch walks it from the
/// bottom layer to the top overlay; teardown walks it the other way.
pub struct LayerStack<L> {
    stack: Stack<L>,
    overlay_start: usize,
    calls: Ghost<Seq<Dispatch>>,
}

impl<L> View for LayerStack<L> {
    type V = LayerStackView<L>;

    closed spec fn view(&self) -> LayerStackView<L> {
        LayerStackView { elements: self.stack@, overlay_start: self.overlay_start as nat }
    }
}

impl<L> LayerStack<L> {
    pub open spec fn wf(&self) -> bool {
        self@.wf()
    }

    /// Every call made on an element so far, oldest first.
    pub closed spec fn dispatched(&self) -> Seq<Dispatch> {
        self.calls@
    }

    pub fn new() -> (r: LayerStack<L>)
        ensures
            r@.elements == Seq::<L>::empty(),
            r@.overlay_start == 0,
            r.wf(),
            r.dispatched() == Seq::<Dispatch>::empty(),
    {
        LayerStack { stack: Stack::new(), overlay_start: 0, calls: Ghost(Seq::empty()) }
    }

    pub fn len(&self) -> (r: usize)
        ensures
            r == self@.elements.len(),
    {
        self.stack.len()
    }

    /// Places `layer` just above every earlier layer and just below every overlay.
    pub fn push_layer(&mut self, layer: L)
        requires
            old(self).wf(),
            old(self)@.elements.len() < usize::MAX,
        ensures
            final(self)@ == old(self)@.with_layer(layer),
            final(self).wf(),
            final(self).dispatched() == old(self).dispatched(),
            final(self)@.layers() == old(self)@.layers().push(layer),
            final(self)@.overlays() == old(self)@.overlays(),
    {
        let ghost pre = self@;
        let _ = self.stack.insert(self.overlay_start, layer);
        self.overlay_start = self.overlay_start + 1;
        proof {
            assert(self@.layers() =~= pre.layers().push(layer));
            assert(self@.overlays() =~= pre.overlays());
        }
    }

    /// Places `overlay` on top of everything.
    pub fn push_overlay(&mut self, overlay: L)
        requires
            old(self).wf(),
        ensures
            final(self)@ == old(self)@.with_overlay(overlay),
            final(self).wf(),
            final(self).dispatched() == old(self).dispatched(),
            final(self)@.layers() == old(self)@.layers(),
            final(self)@.overlays() == old(self)@.overlays().push(overlay),
    {
        let ghost pre = self@;
        self.stack.push(overlay);
        proof {
            assert(self@.layers() =~= pre.layers());
            assert(self@.overlays() =~= pre.overlays().push(overlay));
        }
    }

    /// Takes out the most recently pushed layer; `None` when the layer region is empty.
    pub fn pop_layer(&mut self) -> (r: Option<L>)
        requires
            old(self).wf(),
        ensures
            final(self).wf(),
            final(self).dispatched() == old(self).dispatched(),
            old(self)@.overlay_start == 0 ==> r.is_none() && final(self)@ == old(self)@,
            old(self)@.overlay_start > 0 ==> r == Some(
                old(self)@.elements[old(self)@.overlay_start - 1],
            ) && final(self)@ == old(self)@.without_top_layer(),
            old(self)@.overlay_start > 0 ==> final(self)@.layers() == old(self)@.layers().drop_last()
                && final(self)@.overlays() == old(self)@.overlays(),
    {
        if self.overlay_start > 0 {
            let ghost pre = self@;
            self.overlay_start = self.overlay_start - 1;
            let r = self.stack.remove(self.overlay_start);
            proof {
                assert(self@.layers() =~= pre.layers().drop_last());
                assert(self@.overlays() =~= pre.overlays());
            }
            r
        } else {
            None
        }
    }

    /// Takes out the top overlay; `None`, with nothing removed, when the overlay region
    /// is empty, so a layer is never taken out here.
    pub fn pop_overlay(&mut self) -> (r: Option<L>)
        requires
            old(self).wf(),
        ensures
            final(self).wf(),
            final(self).dispatched() == old(self).dispatched(),
            old(self)@.elements.len() == old(self)@.overlay_start ==> r.is_none() && final(self)@
                == old(self)@,
            old(self)@.elements.len() > old(self)@.overlay_start ==> r == Some(
                old(self)@.elements.last(),
            ) && final(self)@ == old(self)@.without_top_overlay(),
            final(self)@.layers() == old(self)@.layers(),
    {
        if self.stack.len() > self.overlay_start {
            let ghost pre = self@;
            let r = self.stack.pop();
            proof {
                assert(self@.layers() =~= pre.layers());
            }
            r
        } else {
            None
        }
    }

    pub fn overlay_start(&self) -> (r: usize)
        ensures
            r == self@.overlay_start,
    {
        self.overlay_start
    }

    pub fn stack(&self) -> (r: &Stack<L>)
        ensures
            r@ == self@.elements,
    {
        &self.stack
    }

    /// Direct access to the elements. The region boundary is left as it is: a caller
    /// that changes the number of elements must keep it within range.
    pub fn stack_mut(&mut self) -> (r: &mut Stack<L>)
        ensures
            r@ == old(self)@.elements,
            final(self)@.elements == final(r)@,
            final(self)@.overlay_start == old(self)@.overlay_start,
            final(self).dispatched() == old(self).dispatched(),
    {
        &mut self.stack
    }
}

/// `n` calls of one kind, on the elements `0..n` in index order.
pub open spec fn bottom_up(n: nat, call: spec_fn(nat) -> Dispatch) -> Seq<Dispatch> {
    Seq::new(n, |k: int| call(k as nat))
}

/// `n` calls of one kind, on the elements `n - 1` down to `0`.
pub open spec fn top_down(n: nat, call: spec_fn(nat) -> Dispatch) -> Seq<Dispatch> {
    Seq::new(n, |k: int| call((n - 1 - k) as nat))
}

impl<L: Layer> LayerStack<L> {
    /// Calls `init` on the element at `index` alone.
    pub fn init_at(&mut self, index: usize)
        requires
            old(self).wf(),
            index < old(self)@.elements.len(),
        ensures
            final(self).wf(),
            final(self)@.elements.len() == old(self)@.elements.len(),
            final(self)@.overlay_start == old(self)@.overlay_start,
            forall|k: int|
                0 <= k < old(self)@.elements.len() && k != index
                    ==> #[trigger] final(self)@.elements[k] == old(self)@.elements[k],
            final(self).dispatched() == old(self).dispatched().push(Dispatch::Init(index as nat)),
    {
        match self.stack.get_mut(index) {
            Some(layer) => layer.init(),
            None => {},
        }
        self.calls = Ghost(self.calls@.push(Dispatch::Init(index as nat)));
    }

    /// Calls `init` once on every element, from the bottom layer to the top overlay.
    pub fn init_all(&mut self)
        requires
            old(self).wf(),
        ensures
            final(self).wf(),
            final(self)@.elements.len() == old(self)@.elements.len(),
            final(self)@.overlay_start == old(self)@.overlay_start,
            final(self).dispatched() == old(self).dispatched() + bottom_up(
                old(self)@.elements.len(),
                |k: nat| Dispatch::Init(k),
            ),
    {
        let n = self.stack.len();
        let mut i: usize = 0;
        while i < n
            invariant
                i <= n,
                n == old(self)@.elements.len(),
                self@.elements.len() == n,
                self@.overlay_start == old(self)@.overlay_start,
                self.wf(),
                self.dispatched() == old(self).dispatched() + bottom_up(
                    i as nat,
                    |k: nat| Dispatch::Init(k),
                ),
            decreases n - i,
        {
            match self.stack.get_mut(i) {
                Some(layer) => layer.init(),
                None => {},
            }
            self.calls = Ghost(self.calls@.push(Dispatch::Init(i as nat)));
            assert(bottom_up((i + 1) as nat, |k: nat| Dispatch::Init(k)) =~= bottom_up(
                i as nat,
                |k: nat| Dispatch::Init(k),
            ).push(Dispatch::Init(i as nat)));
            i = i + 1;
        }
    }

    /// Calls `update` once on every element, from the bottom layer to the top overlay.
    pub fn update_all(&mut self)
        requires
            old(self).wf(),
        ensures
            final(self).wf(),
            final(self)@.elements.len() == old(self)@.elements.len(),
            final(self)@.overlay_start == old(self)@.overlay_start,
            final(self).dispatched() == old(self).dispatched() + bottom_up(
                old(self)@.elements.len(),
                |k: nat| Dispatch::Update(k),
            ),
    {
        let n = self.stack.len();
        let mut i: usize = 0;
        while i < n
            invariant
                i <= n,
                n == old(self)@.elements.len(),
                self@.elements.len() == n,
                self@.overlay_start == old(self)@.overlay_start,
                self.wf(),
                self.dispatched() == old(self).dispatched() + bottom_up(
                    i as nat,
                    |k: nat| Dispatch::Update(k),
                ),
            decreases n - i,
        {
            match self.stack.get_mut(i) {
                Some(layer) => layer.update(),
                None => {},
            }
            self.calls = Ghost(self.calls@.push(Dispatch::Update(i as nat)));
            assert(bottom_up((i + 1) as nat, |k: nat| Dispatch::Update(k)) =~= bottom_up(
                i as nat,
                |k: nat| Dispatch::Update(k),
            ).push(Dispatch::Update(i as nat)));
            i = i + 1;
        }
    }

    /// Hands `event` once to every element, from the bottom layer to the top overlay.
    pub fn event_all(&mut self, event: &WindowEvent)
        requires
            old(self).wf(),
        ensures
            final(self).wf(),
            final(self)@.elements.len() == old(self)@.elements.len(),
            final(self)@.overlay_start == old(self)@.overlay_start,
            final(self).dispatched() == old(self).dispatched() + bottom_up(
                old(self)@.elements.len(),
                |k: nat| Dispatch::Event(k),
            ),
    {
        let n = self.stack.len();
        let mut i: usize = 0;
        while i < n
            invariant
                i <= n,
                n == old(self)@.elements.len(),
                self@.elements.len() == n,
                self@.overlay_start == old(self)@.overlay_start,
                self.wf(),
                self.dispatched() == old(self).dispatched() + bottom_up(
                    i as nat,
                    |k: nat| Dispatch::Event(k),
                ),
            decreases n - i,
        {
            match self.stack.get_mut(i) {
                Some(layer) => layer.event(event),
                None => {},
            }
            self.calls = Ghost(self.calls@.push(Dispatch::Event(i as nat)));
            assert(bottom_up((i + 1) as nat, |k: nat| Dispatch::Event(k)) =~= bottom_up(
                i as nat,
                |k: nat| Dispatch::Event(k),
            ).push(Dispatch::Event(i as nat)));
            i = i + 1;
        }
    }

    /// Calls `cleanup` once on every element, from the top overlay down to the bottom
    /// layer, so that overlays release what they hold before the layers beneath them.
    pub fn cleanup_all(&mut self)
        requires
            old(self).wf(),
        ensures
            final(self).wf(),
            final(self)@.elements.len() == old(self)@.elements.len(),
            final(self)@.overlay_start == old(self)@.overlay_start,
            final(self).dispatched() == old(self).dispatched() + top_down(
                old(self)@.elements.len(),
                |k: nat| Dispatch::Cleanup(k),
            ),
    {
        let n = self.stack.len();
        let mut i: usize = n;
        while i > 0
            invariant
                i <= n,
                n == old(self)@.elements.len(),
                self@.elements.len() == n,
                self@.overlay_start == old(self)@.overlay_start,
                self.wf(),
                self.dispatched() =~= old(self).dispatched() + Seq::new(
                    (n - i) as nat,
                    |k: int| Dispatch::Cleanup((n - 1 - k) as nat),
                ),
            decreases i,
        {
            i = i - 1;
            match self.stack.get_mut(i) {
                Some(layer) => layer.cleanup(),
                None => {},
            }
            self.calls = Ghost(self.calls@.push(Dispatch::Cleanup(i as nat)));
            assert(Seq::new((n - i) as nat, |k: int| Dispatch::Cleanup((n - 1 - k) as nat))
                =~= Seq::new((n - i - 1) as nat, |k: int| Dispatch::Cleanup((n - 1 - k) as nat)).push(
                Dispatch::Cleanup(i as nat),
            ));
        }
        assert(Seq::new(n as nat, |k: int| Dispatch::Cleanup((n - 1 - k) as nat)) =~= top_down(
            n as nat,
            |k: nat| Dispatch::Cleanup(k),
        ));
    }
}

/// One push onto a layer stack, as a value: the element and the region it goes to.
pub enum Push<L> {
    Layer(L),
    Overlay(L),
}

/// The state after `ops` are applied to `s`, first to last.
pub open spec fn apply_pushes<L>(s: LayerStackView<L>, ops: Seq<Push<L>>) -> LayerStackView<L>
    decreases ops.len(),
{
    if ops.len() == 0 {
        s
    } else {
        let before = apply_pushes(s, ops.drop_last());
        match ops.last() {
            Push::Layer(x) => before.with_layer(x),
            Push::Overlay(x) => before.with_overlay(x),
        }
    }
}

/// The elements of `ops` that go to the layer region, in push order.
pub open spec fn pushed_layers<L>(ops: Seq<Push<L>>) -> Seq<L>
    decreases ops.len(),
{
    if ops.len() == 0 {
        Seq::empty()
    } else {
        match ops.last() {
            Push::Layer(x) => pushed_layers(ops.drop_last()).push(x),
            Push::Overlay(_) => pushed_layers(ops.drop_last()),
        }
    }
}

/// The elements of `ops` that go to the overlay region, in push order.
pub open spec fn pushed_overlays<L>(ops: Seq<Push<L>>) -> Seq<L>
    decreases ops.len(),
{
    if ops.len() == 0 {
        Seq::empty()
    } else {
        match ops.last() {
            Push::Layer(_) => pushed_overlays(ops.drop_last()),
            Push::Overlay(x) => pushed_overlays(ops.drop_last()).push(x),
        }
    }
}

/// Whatever sequence of layer and overlay pushes is applied, the elements are the
/// layer region followed by the overlay region, so every layer sits below every
/// overlay, and each region holds its elements in the order they were pushed.
pub proof fn lemma_pushes_keep_regions<L>(s: LayerStackView<L>, ops: Seq<Push<L>>)
    requires
        s.wf(),
    ensures
        apply_pushes(s, ops).wf(),
        apply_pushes(s, ops).elements == apply_pushes(s, ops).layers() + apply_pushes(
            s,
            ops,
        ).overlays(),
        apply_pushes(s, ops).layers() == s.layers() + pushed_layers(ops),
        apply_pushes(s, ops).overlays() == s.overlays() + pushed_overlays(ops),
    decreases ops.len(),
{
    if ops.len() == 0 {
        assert(s.elements =~= s.layers() + s.overlays());
        assert(s.layers() + pushed_layers(ops) =~= s.layers());
        assert(s.overlays() + pushed_overlays(ops) =~= s.overlays());
    } else {
        let rest = ops.drop_last();
        lemma_pushes_keep_regions(s, rest);
        let t = apply_pushes(s, rest);
        let u = apply_pushes(s, ops);
        match ops.last() {
            Push::Layer(x) => {
                assert(u.layers() =~= t.layers().push(x));
                assert(u.overlays() =~= t.overlays());
                assert(s.layers() + pushed_layers(ops) =~= (s.layers() + pushed_layers(rest)).push(
                    x,
                ));
            },
            Push::Overlay(x) => {
                assert(u.layers() =~= t.layers());
                assert(u.overlays() =~= t.overlays().push(x));
                assert(s.overlays() + pushed_overlays(ops) =~= (s.overlays() + pushed_overlays(
                    rest,
                )).push(x));
            },
        }
        assert(u.elements =~= u.layers() + u.overlays());
    }
}

/// Taking out the top layer and pushing `x` as a layer puts the region boundary back
/// where it was, with `x` just below it in the place of the layer taken out.
pub proof fn lemma_pop_then_push_layer<L>(s: LayerStackView<L>, x: L)
    requires
        s.wf(),
        s.overlay_start > 0,
    ensures
        s.without_top_layer().with_layer(x).overlay_start == s.overlay_start,
        s.without_top_layer().with_layer(x).elements == s.elements.update(
            s.overlay_start - 1,
            x,
        ),
        s.without_top_layer().with_layer(x).wf(),
{
    assert(s.without_top_layer().with_layer(x).elements =~= s.elements.update(
        s.overlay_start - 1,
        x,
    ));
}

} // verus!
