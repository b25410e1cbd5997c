//! The frame context: what the interface remembers while everything else is
//! declared anew. At most one widget holds focus and at most one is hovered;
//! the style register holds the overrides in force; the layers are the
//! finished paint accumulators of this frame, in the order in which their
//! builders finished, which is the order in which they are drawn.

use vstd::prelude::*;
use crate::id::Id;
use crate::input_state::InputState;
use crate::painter::{Painter, PainterView, Shape, ShapeView};
use crate::style::{no_styles, StyleCategory, StyleMap, StyleValue};

verus! {

/// The finished paint of one widget.
#[derive(Debug, PartialEq, Eq)]
pub struct Layer {
    pub id: Id,
    pub painter: Painter,
}

/// What a layer holds.
pub struct LayerView {
    pub id: Id,
    pub painter: PainterView,
}

impl View for Layer {
    type V = LayerView;

    open spec fn view(&self) -> LayerView {
        LayerView { id: self.id, painter: self.painter@ }
    }
}

/// The primitives of a sequence of layers as one stream: those of the first
/// layer first, each layer's primitives in the order in which they were
/// issued.
pub open spec fn stream_of(layers: Seq<LayerView>) -> Seq<ShapeView>
    decreases layers.len(),
{
    if layers.len() == 0 {
        Seq::empty()
    } else {
        stream_of(layers.drop_last()) + layers.last().painter.shapes
    }
}

/// The place in the stream of the primitive `shape` of the layer `layer`:
/// behind all primitives of the layers before it, and behind the primitives
/// issued before it in its own layer.
pub open spec fn place_in_stream(layers: Seq<LayerView>, layer: int, shape: int) -> int {
    stream_of(layers.take(layer)).len() + shape
}

/// What a stream of borrowed primitives holds.
pub open spec fn shapes_of(stream: Seq<&Shape>) -> Seq<ShapeView> {
    Seq::new(stream.len(), |at: int| stream[at]@)
}

/// The state of the interface in one frame.
pub struct Context {
    /// The widget that holds focus, if any does.
    pub focused: Option<Id>,
    /// The widget that the pointer is over, if it is over any.
    pub hovered: Option<Id>,
    /// The style overrides in force.
    pub style: StyleMap,
    /// The input sampled for this frame.
    pub input: InputState,
    /// The layers finished so far, the first finished first.
    pub layers: Vec<Layer>,
}

/// What a frame context holds.
pub struct ContextView {
    pub focused: Option<Id>,
    pub hovered: Option<Id>,
    pub style: Map<StyleCategory, Seq<StyleValue>>,
    pub input: InputState,
    pub layers: Seq<LayerView>,
}

impl View for Context {
    type V = ContextView;

    open spec fn view(&self) -> ContextView {
        ContextView {
            focused: self.focused,
            hovered: self.hovered,
            style: self.style@,
            input: self.input,
            layers: Seq::new(self.layers@.len(), |at: int| self.layers@[at]@),
        }
    }
}

impl ContextView {
    /// The context at the start of the first frame: no widget focused or
    /// hovered, no style pushed, no layer.
    pub open spec fn fresh(input: InputState) -> ContextView {
        ContextView {
            focused: None,
            hovered: None,
            style: no_styles(),
            input,
            layers: Seq::empty(),
        }
    }

    /// The context at the start of the frame after this one: focus and hover
    /// are carried over together, everything else starts anew.
    pub open spec fn carried(self, input: InputState) -> ContextView {
        ContextView { focused: self.focused, hovered: self.hovered, ..ContextView::fresh(input) }
    }

    /// Whether `id` holds focus.
    pub open spec fn is_focused(self, id: Id) -> bool {
        self.focused == Some(id)
    }

    /// Whether `id` is the hovered widget.
    pub open spec fn is_hovered(self, id: Id) -> bool {
        self.hovered == Some(id)
    }

    /// Whether a claim of focus succeeds: only while no widget holds it.
    pub open spec fn focus_is_free(self) -> bool {
        self.focused is None
    }

    /// The context after `id` has claimed focus: `id` holds it if it was
    /// free, and nothing has changed if it was not.
    pub open spec fn focus(self, id: Id) -> ContextView {
        if self.focus_is_free() {
            ContextView { focused: Some(id), ..self }
        } else {
            self
        }
    }

    /// The context after focus has been handed to `id` without a claim.
    pub open spec fn force_focus(self, id: Id) -> ContextView {
        ContextView { focused: Some(id), ..self }
    }

    /// The context after `id` has given up focus: free if `id` held it, and
    /// unchanged if it did not.
    pub open spec fn unfocus(self, id: Id) -> ContextView {
        if self.is_focused(id) {
            ContextView { focused: None, ..self }
        } else {
            self
        }
    }

    /// The context after the pointer has come over `id`.
    pub open spec fn hover(self, id: Id) -> ContextView {
        ContextView { hovered: Some(id), ..self }
    }

    /// The context after the pointer has left `id`: no widget hovered if
    /// `id` was, and unchanged if it was not.
    pub open spec fn unhover(self, id: Id) -> ContextView {
        if self.is_hovered(id) {
            ContextView { hovered: None, ..self }
        } else {
            self
        }
    }

    /// The context after one more layer has been finished.
    pub open spec fn push_layer(self, id: Id, painter: PainterView) -> ContextView {
        ContextView { layers: self.layers.push(LayerView { id, painter }), ..self }
    }

    /// Everything that the frame draws, in the order in which it is drawn.
    pub open spec fn draw_stream(self) -> Seq<ShapeView> {
        stream_of(self.layers)
    }
}

impl Context {
    /// The context of the first frame.
    pub fn new(input: InputState) -> (context: Context)
        ensures
            context@ == ContextView::fresh(input),
    {
        let context = Context {
            focused: None,
            hovered: None,
            style: StyleMap::new(),
            input,
            layers: Vec::new(),
        };
        assert(context@.layers =~= Seq::empty());
        context
    }

    /// The context of the next frame. Focus and hover pass from the old
    /// frame to the new one together; styles and layers do not pass.
    pub fn next_frame(&self, input: InputState) -> (context: Context)
        ensures
            context@ == self@.carried(input),
    {
        let context = Context {
            focused: self.focused,
            hovered: self.hovered,
            style: StyleMap::new(),
            input,
            layers: Vec::new(),
        };
        assert(context@.layers =~= Seq::empty());
        context
    }

    /// Tests whether `id` holds focus.
    pub fn is_focused(&self, id: Id) -> (focused: bool)
        ensures
            focused == self@.is_focused(id),
    {
        match &self.focused {
            Some(holder) => *holder == id,
            None => false,
        }
    }

    /// Tests whether `id` is the hovered widget.
    pub fn is_hovered(&self, id: Id) -> (hovered: bool)
        ensures
            hovered == self@.is_hovered(id),
    {
        match &self.hovered {
            Some(holder) => *holder == id,
            None => false,
        }
    }

    /// Claims focus for `id`. The first claim wins: the claim succeeds, and
    /// returns `true`, exactly when no widget held focus; otherwise nothing
    /// changes.
    pub fn focus(&mut self, id: Id) -> (claimed: bool)
        ensures
            claimed == old(self)@.focus_is_free(),
            final(self)@ == old(self)@.focus(id),
    {
        if self.focused.is_none() {
            self.focused = Some(id);
            return true;
        }
        false
    }

    /// Hands focus to `id`, whoever held it.
    pub fn force_focus(&mut self, id: Id)
        ensures
            final(self)@ == old(self)@.force_focus(id),
    {
        self.focused = Some(id);
    }

    /// Gives up focus on behalf of `id`. Focus is released, and `true`
    /// returned, exactly when `id` held it; otherwise nothing changes.
    pub fn unfocus(&mut self, id: Id) -> (released: bool)
        ensures
            released == old(self)@.is_focused(id),
            final(self)@ == old(self)@.unfocus(id),
    {
        if self.is_focused(id) {
            self.focused = None;
            return true;
        }
        false
    }

    /// Marks `id` as the hovered widget, whichever was before: the last
    /// call in a frame wins.
    pub fn hover(&mut self, id: Id)
        ensures
            final(self)@ == old(self)@.hover(id),
    {
        self.hovered = Some(id);
    }

    /// Takes the hover mark off `id`. The mark is removed, and `true`
    /// returned, exactly when `id` was hovered; otherwise nothing changes.
    pub fn unhover(&mut self, id: Id) -> (released: bool)
        ensures
            released == old(self)@.is_hovered(id),
            final(self)@ == old(self)@.unhover(id),
    {
        if self.is_hovered(id) {
            self.hovered = None;
            return true;
        }
        false
    }

    /// Appends a finished layer: it is drawn after, and so over, every layer
    /// finished before it.
    pub fn push_layer(&mut self, id: Id, painter: Painter)
        ensures
            final(self)@ == old(self)@.push_layer(id, painter@),
    {
        self.layers.push(Layer { id, painter });
        assert(self@.layers =~= old(self)@.layers.push(LayerView { id, painter: painter@ }));
    }
}

impl Context {
    /// Everything that the frame draws, in the order in which a back end has
    /// to draw it: layer by layer as the layers were finished, and in each
    /// layer primitive by primitive as they were issued.
    pub fn draw_stream(&self) -> (stream: Vec<&Shape>)
        ensures
            shapes_of(stream@) == self@.draw_stream(),
    {
        let mut stream: Vec<&Shape> = Vec::new();
        let mut layer: usize = 0;
        assert(shapes_of(stream@) =~= stream_of(self@.layers.take(0)));
        while layer < self.layers.len()
            invariant
                layer <= self.layers@.len(),
                shapes_of(stream@) == stream_of(self@.layers.take(layer as int)),
            decreases self.layers@.len() - layer,
        {
            let shapes = &self.layers[layer].painter.shapes;
            let ghost before = stream_of(self@.layers.take(layer as int));
            let ghost issued = self@.layers[layer as int].painter.shapes;
            let mut shape: usize = 0;
            assert(shapes_of(stream@) =~= before + issued.take(0));
            while shape < shapes.len()
                invariant
                    layer < self.layers@.len(),
                    shapes == &self.layers@[layer as int].painter.shapes,
                    issued == self@.layers[layer as int].painter.shapes,
                    shape <= shapes@.len(),
                    shapes_of(stream@) == before + issued.take(shape as int),
                decreases shapes@.len() - shape,
            {
                let ghost drawn = stream@;
                stream.push(&shapes[shape]);
                proof {
                    assert(shapes@[shape as int]@ == issued[shape as int]);
                    assert(shapes_of(stream@) =~= shapes_of(drawn).push(issued[shape as int]));
                    assert(issued.take(shape + 1) =~= issued.take(shape as int).push(
                        issued[shape as int],
                    ));
                    assert(before + issued.take(shape + 1) =~= (before + issued.take(
                        shape as int,
                    )).push(issued[shape as int]));
                }
                shape = shape + 1;
            }
            proof {
                let next = self@.layers.take(layer + 1);
                assert(next.drop_last() =~= self@.layers.take(layer as int));
                assert(issued.take(shape as int) =~= issued);
            }
            layer = layer + 1;
        }
        assert(self@.layers.take(layer as int) =~= self@.layers);
        stream
    }
}

/// One call that touches focus.
pub enum FocusCall {
    Focus(Id),
    ForceFocus(Id),
    Unfocus(Id),
}

/// One call that touches hover.
pub enum HoverCall {
    Hover(Id),
    Unhover(Id),
}

impl ContextView {
    /// The context after one call that touches focus.
    pub open spec fn after_focus_call(self, call: FocusCall) -> ContextView {
        match call {
            FocusCall::Focus(id) => self.focus(id),
            FocusCall::ForceFocus(id) => self.force_focus(id),
            FocusCall::Unfocus(id) => self.unfocus(id),
        }
    }

    /// The context after a sequence of calls that touch focus, made first to
    /// last.
    pub open spec fn after_focus_calls(self, calls: Seq<FocusCall>) -> ContextView
        decreases calls.len(),
    {
        if calls.len() == 0 {
            self
        } else {
            self.after_focus_calls(calls.drop_last()).after_focus_call(calls.last())
        }
    }

    /// The context after one call that touches hover.
    pub open spec fn after_hover_call(self, call: HoverCall) -> ContextView {
        match call {
            HoverCall::Hover(id) => self.hover(id),
            HoverCall::Unhover(id) => self.unhover(id),
        }
    }

    /// The context after a sequence of calls that touch hover, made first to
    /// last.
    pub open spec fn after_hover_calls(self, calls: Seq<HoverCall>) -> ContextView
        decreases calls.len(),
    {
        if calls.len() == 0 {
            self
        } else {
            self.after_hover_calls(calls.drop_last()).after_hover_call(calls.last())
        }
    }

    /// The context after a sequence of layers has been finished, first to
    /// last.
    pub open spec fn after_layers(self, finished: Seq<LayerView>) -> ContextView
        decreases finished.len(),
    {
        if finished.len() == 0 {
            self
        } else {
            self.after_layers(finished.drop_last()).push_layer(
                finished.last().id,
                finished.last().painter,
            )
        }
    }
}

/// Focus is exclusive: at every point of every sequence of `focus`,
/// `force_focus` and `unfocus` calls, from whatever context it starts, at
/// most one identity holds focus.
pub proof fn law_focus_exclusive(
    start: ContextView,
    calls: Seq<FocusCall>,
    point: int,
    first: Id,
    second: Id,
)
    requires
        0 <= point <= calls.len(),
        start.after_focus_calls(calls.take(point)).is_focused(first),
        start.after_focus_calls(calls.take(point)).is_focused(second),
    ensures
        first == second,
{
}

/// Hover is exclusive: at every point of every sequence of `hover` and
/// `unhover` calls, from whatever context it starts, at most one identity is
/// hovered.
pub proof fn law_hover_exclusive(
    start: ContextView,
    calls: Seq<HoverCall>,
    point: int,
    first: Id,
    second: Id,
)
    requires
        0 <= point <= calls.len(),
        start.after_hover_calls(calls.take(point)).is_hovered(first),
        start.after_hover_calls(calls.take(point)).is_hovered(second),
    ensures
        first == second,
{
}

/// The first claim wins. While no identity holds focus, the claim of
/// `first` succeeds; the claim of another identity after it is refused and
/// leaves `first` in place; and once `first` has released focus, the other
/// identity's claim succeeds.
pub proof fn law_first_claim_wins(start: ContextView, first: Id, second: Id)
    requires
        first != second,
        start.focus_is_free(),
    ensures
        start.focus(first).is_focused(first),
        !start.focus(first).focus_is_free(),
        start.focus(first).focus(second) == start.focus(first),
        start.focus(first).focus(second).is_focused(first),
        start.focus(first).focus(second).unfocus(first).focus_is_free(),
        start.focus(first).focus(second).unfocus(first).focus(second).is_focused(second),
{
}

/// Layers keep the order in which they were finished: after any sequence
/// of finished builders, the layer list is the list from before, unchanged,
/// followed by the new layers in the order in which they were finished, and
/// nothing else in the context has changed. The layer of the builder that
/// finished as the `nth` stands `nth` places behind the old list's end, so of
/// two builders the one that finished first has the earlier layer.
pub proof fn law_layers_in_finish_order(start: ContextView, finished: Seq<LayerView>)
    ensures
        start.after_layers(finished) == (ContextView {
            layers: start.layers + finished,
            ..start
        }),
        forall|nth: int|
            0 <= nth < finished.len() ==> start.after_layers(finished).layers[start.layers.len()
                + nth] == finished[nth],
    decreases finished.len(),
{
    if finished.len() == 0 {
        assert(start.layers + finished =~= start.layers);
    } else {
        law_layers_in_finish_order(start, finished.drop_last());
        assert(start.layers + finished =~= (start.layers + finished.drop_last()).push(
            finished.last(),
        ));
    }
}

/// A layer that is finished adds its primitives to the end of the stream
/// and leaves the rest of the stream as it was.
pub proof fn law_layer_extends_stream(start: ContextView, id: Id, painter: PainterView)
    ensures
        start.push_layer(id, painter).draw_stream() == start.draw_stream() + painter.shapes,
{
    let layers = start.layers.push(LayerView { id, painter });
    assert(layers.drop_last() =~= start.layers);
}

/// The stream of the first layers of a frame is the start of the stream of
/// all of them: what is drawn first never depends on what is finished later.
pub proof fn lemma_stream_of_first_layers(layers: Seq<LayerView>, count: int)
    requires
        0 <= count <= layers.len(),
    ensures
        stream_of(layers.take(count)).len() <= stream_of(layers).len(),
        stream_of(layers.take(count)) == stream_of(layers).take(
            stream_of(layers.take(count)).len() as int,
        ),
    decreases layers.len(),
{
    if count == layers.len() {
        assert(layers.take(count) =~= layers);
        assert(stream_of(layers).take(stream_of(layers).len() as int) =~= stream_of(layers));
    } else {
        lemma_stream_of_first_layers(layers.drop_last(), count);
        assert(layers.drop_last().take(count) =~= layers.take(count));
        let first = stream_of(layers.take(count));
        let most = stream_of(layers.drop_last());
        assert((most + layers.last().painter.shapes).take(first.len() as int) =~= most.take(
            first.len() as int,
        ));
    }
}

/// The stream keeps both orders. Every primitive of every layer is in the
/// stream at its place; and of two primitives the one in the earlier layer,
/// or the one issued earlier in the same layer, has the earlier place.
pub proof fn law_stream_keeps_order(
    layers: Seq<LayerView>,
    layer: int,
    shape: int,
    later_layer: int,
    later_shape: int,
)
    requires
        0 <= layer <= later_layer < layers.len(),
        0 <= shape < layers[layer].painter.shapes.len(),
        0 <= later_shape < layers[later_layer].painter.shapes.len(),
        layer < later_layer || shape < later_shape,
    ensures
        0 <= place_in_stream(layers, layer, shape) < place_in_stream(
            layers,
            later_layer,
            later_shape,
        ) < stream_of(layers).len(),
        stream_of(layers)[place_in_stream(layers, layer, shape)]
            == layers[layer].painter.shapes[shape],
        stream_of(layers)[place_in_stream(layers, later_layer, later_shape)]
            == layers[later_layer].painter.shapes[later_shape],
{
    lemma_place_in_stream(layers, layer, shape);
    lemma_place_in_stream(layers, later_layer, later_shape);
    if layer < later_layer {
        let upto = layers.take(later_layer);
        lemma_stream_of_first_layers(upto, layer + 1);
        assert(upto.take(layer + 1) =~= layers.take(layer + 1));
        assert(layers.take(layer + 1).drop_last() =~= layers.take(layer));
    }
}

/// Every primitive of every layer is in the stream at its place.
pub proof fn lemma_place_in_stream(layers: Seq<LayerView>, layer: int, shape: int)
    requires
        0 <= layer < layers.len(),
        0 <= shape < layers[layer].painter.shapes.len(),
    ensures
        0 <= place_in_stream(layers, layer, shape) < stream_of(layers).len(),
        stream_of(layers)[place_in_stream(layers, layer, shape)]
            == layers[layer].painter.shapes[shape],
{
    let with_layer = layers.take(layer + 1);
    let place = place_in_stream(layers, layer, shape);
    assert(with_layer.drop_last() =~= layers.take(layer));
    assert(with_layer.last() == layers[layer]);
    assert(stream_of(with_layer)[place] == layers[layer].painter.shapes[shape]);
    lemma_stream_of_first_layers(layers, layer + 1);
    assert(stream_of(layers).take(stream_of(with_layer).len() as int)[place] == stream_of(
        layers,
    )[place]);
}

} // verus!
