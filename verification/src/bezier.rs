//! Points, curves and the click sequence that builds them.
//!
//! A coordinate is a single-precision number. It is held as its IEEE 754
//! bit pattern in a `u32`: the library never computes with coordinates, it
//! only carries them from a click into a curve and from a curve into a file,
//! and two coordinates are the same exactly when their bit patterns are.

use crate::markup::{
    new_path, no_attributes, number_text, number_to_text, path_attributes, set_path_attribute,
};
use vstd::prelude::*;

verus! {

/// A position in the canvas' own coordinate space.
#[derive(Clone, Copy, Debug, PartialEq, Eq, Structural)]
pub struct Point {
    pub x: u32,
    pub y: u32,
}

/// A quadratic Bézier curve: it runs from `from` to `to` and is bent
/// towards `control`.
#[derive(Clone, Copy, Debug, PartialEq, Eq, Structural)]
pub struct Curve {
    pub from: Point,
    pub to: Point,
    pub control: Point,
}

/// The extent of a drawing surface.
#[derive(Clone, Copy, Debug, PartialEq, Eq, Structural)]
pub struct Size {
    pub width: u32,
    pub height: u32,
}

/// The curves of a document, in the order in which they were added.
#[derive(Debug)]
pub struct Curves(Vec<Curve>);

impl View for Curves {
    type V = Seq<Curve>;

    closed spec fn view(&self) -> Seq<Curve> {
        self.0@
    }
}

impl Curves {
    /// Adds `c` behind the curves that are there.
    pub fn push(&mut self, c: Curve)
        ensures
            final(self)@ == old(self)@.push(c),
    {
        self.0.push(c)
    }

    /// Removes every curve.
    pub fn clear(&mut self)
        ensures
            final(self)@ == Seq::<Curve>::empty(),
    {
        self.0.clear()
    }

    /// Walks the curves from the oldest to the newest. Every call starts
    /// again at the oldest, and the curves stay as they are.
    pub fn iter(&self) -> (walk: core::slice::Iter<'_, Curve>)
        ensures
            vstd::std_specs::iter::IteratorSpec::remaining(&walk).unref() == self@,
            vstd::std_specs::iter::IteratorSpec::decrease(&walk) is Some,
            vstd::std_specs::iter::IteratorSpec::initial_value_relation(&walk, &walk),
    {
        broadcast use vstd::std_specs::slice::axiom_spec_slice_iter;

        self.0.as_slice().iter()
    }
}

/// Adding a curve keeps the curves that were there, each at its place, and
/// puts the new curve behind them.
pub proof fn push_keeps_order(curves: Seq<Curve>, c: Curve)
    ensures
        curves.push(c).len() == curves.len() + 1,
        curves.push(c).last() == c,
        curves.push(c).drop_last() == curves,
        forall|i: int| 0 <= i < curves.len() ==> curves.push(c)[i] == curves[i],
{
    assert(curves.push(c).drop_last() =~= curves);
}

impl Default for Curves {
    /// No curves.
    fn default() -> (empty: Curves)
        ensures
            empty@ == Seq::<Curve>::empty(),
    {
        Curves(Vec::new())
    }
}

impl Clone for Curves {
    fn clone(&self) -> (copy: Curves)
        ensures
            copy@ == self@,
    {
        let mut items: Vec<Curve> = Vec::new();
        let mut i: usize = 0;
        while i < self.0.len()
            invariant
                i <= self.0.len(),
                items@ == self.0@.take(i as int),
            decreases self.0.len() - i,
        {
            items.push(self.0[i]);
            i += 1;
        }
        Curves(items)
    }
}

/// The clicks made so far towards the next curve.
#[derive(Clone, Copy, Debug, PartialEq, Eq, Structural)]
pub enum PendingState {
    /// No click yet.
    Idle,
    /// The start point is chosen.
    OneClicked { from: Point },
    /// Start and end point are chosen; the control point is missing.
    TwoClicked { from: Point, to: Point },
}

/// What the click sequence sees of one event.
#[derive(Clone, Copy, Debug, PartialEq, Eq, Structural)]
pub enum PointerEvent {
    /// The left button went down at a position inside the canvas.
    Click(Point),
    /// Anything else: movement, another button, a click outside the canvas.
    Other,
}

/// An event as the windowing layer reports it, reduced to what the canvas
/// distinguishes.
#[derive(Clone, Copy, Debug, PartialEq, Eq, Structural)]
pub enum Event {
    /// The left mouse button went down.
    LeftPress,
    /// Any other mouse event.
    Mouse,
    /// An event that does not come from the mouse.
    Other,
}

/// Whether the canvas has used an event.
#[derive(Clone, Copy, Debug, PartialEq, Eq, Structural)]
pub enum Status {
    Ignored,
    Captured,
}

/// The mouse cursor that the canvas asks for.
#[derive(Clone, Copy, Debug, PartialEq, Eq, Structural)]
pub enum Interaction {
    Idle,
    Crosshair,
}

/// The next state of the click sequence and the curve that the event
/// completes, if it completes one.
pub open spec fn transition_spec(state: PendingState, event: PointerEvent) -> (
    PendingState,
    Option<Curve>,
) {
    match event {
        PointerEvent::Other => (state, None),
        PointerEvent::Click(p) => match state {
            PendingState::Idle => (PendingState::OneClicked { from: p }, None),
            PendingState::OneClicked { from } => (PendingState::TwoClicked { from, to: p }, None),
            PendingState::TwoClicked { from, to } => (
                PendingState::Idle,
                Some(Curve { from, to, control: p }),
            ),
        },
    }
}

/// What the click sequence sees of `event` while the cursor is at `cursor`,
/// a position inside the canvas, or outside the canvas (`None`).
pub open spec fn resolve_spec(event: Event, cursor: Option<Point>) -> PointerEvent {
    match (event, cursor) {
        (Event::LeftPress, Some(p)) => PointerEvent::Click(p),
        _ => PointerEvent::Other,
    }
}

/// Whether the canvas uses `event`: it uses every mouse event that happens
/// while the cursor is inside it, and nothing else.
pub open spec fn status_spec(event: Event, cursor: Option<Point>) -> Status {
    if cursor is Some && event != Event::Other {
        Status::Captured
    } else {
        Status::Ignored
    }
}

/// Advances the click sequence by one event.
#[verifier::when_used_as_spec(transition_spec)]
pub fn transition(state: PendingState, event: PointerEvent) -> (next: (
    PendingState,
    Option<Curve>,
))
    ensures
        next == transition_spec(state, event),
{
    match event {
        PointerEvent::Other => (state, None),
        PointerEvent::Click(p) => match state {
            PendingState::Idle => (PendingState::OneClicked { from: p }, None),
            PendingState::OneClicked { from } => (PendingState::TwoClicked { from, to: p }, None),
            PendingState::TwoClicked { from, to } => (
                PendingState::Idle,
                Some(Curve { from, to, control: p }),
            ),
        },
    }
}

/// Reduces an event and the cursor's position to what the click sequence
/// sees: a click only where the left button went down inside the canvas.
#[verifier::when_used_as_spec(resolve_spec)]
pub fn resolve(event: Event, cursor: Option<Point>) -> (seen: PointerEvent)
    ensures
        seen == resolve_spec(event, cursor),
{
    match cursor {
        Some(p) => match event {
            Event::LeftPress => PointerEvent::Click(p),
            _ => PointerEvent::Other,
        },
        None => PointerEvent::Other,
    }
}

/// The top left corner of every drawing surface.
pub open spec fn origin_spec() -> Point {
    Point { x: 0, y: 0 }
}

/// The top left corner of every drawing surface.
#[verifier::when_used_as_spec(origin_spec)]
pub fn origin() -> (p: Point)
    ensures
        p == origin_spec(),
{
    Point { x: 0, y: 0 }
}

/// The width, in pixels, of the line that a curve is drawn with.
pub const CURVE_WIDTH: u16 = 2;

/// The width, in pixels, of the line around the canvas.
pub const BORDER_WIDTH: u16 = 1;

/// An outline that can be traced on a drawing surface.
#[derive(Clone, Copy, Debug, PartialEq, Eq, Structural)]
pub enum Shape {
    /// A straight line.
    Line { from: Point, to: Point },
    /// A quadratic Bézier curve.
    Bezier(Curve),
    /// A rectangle with its sides along the axes.
    Rectangle { top_left: Point, size: Size },
}

/// A shape traced with a line of the given width in pixels.
#[derive(Clone, Copy, Debug, PartialEq, Eq, Structural)]
pub struct Stroke {
    pub shape: Shape,
    pub width: u16,
}

/// A drawing surface of a fixed size and the strokes made on it, first
/// stroke first.
#[derive(Debug)]
pub struct Frame {
    pub size: Size,
    pub strokes: Vec<Stroke>,
}

/// What a frame shows.
pub struct Picture {
    pub size: Size,
    pub strokes: Seq<Stroke>,
}

impl View for Frame {
    type V = Picture;

    open spec fn view(&self) -> Picture {
        Picture { size: self.size, strokes: self.strokes@ }
    }
}

impl Frame {
    /// An empty surface of the given size.
    pub fn new(size: Size) -> (frame: Frame)
        ensures
            frame@ == (Picture { size, strokes: Seq::empty() }),
    {
        Frame { size, strokes: Vec::new() }
    }

    /// Traces `shape` on top of what is there.
    pub fn stroke(&mut self, shape: Shape, width: u16)
        ensures
            final(self)@ == (Picture {
                size: old(self)@.size,
                strokes: old(self)@.strokes.push(Stroke { shape, width }),
            }),
    {
        self.strokes.push(Stroke { shape, width });
    }
}

impl Clone for Frame {
    fn clone(&self) -> (copy: Frame)
        ensures
            copy@ == self@,
    {
        let mut strokes: Vec<Stroke> = Vec::new();
        let mut i: usize = 0;
        while i < self.strokes.len()
            invariant
                i <= self.strokes.len(),
                strokes@ == self.strokes@.take(i as int),
            decreases self.strokes.len() - i,
        {
            strokes.push(self.strokes[i]);
            i += 1;
        }
        assert(self.strokes@.take(self.strokes.len() as int) == self.strokes@);
        Frame { size: self.size, strokes }
    }
}

/// One stroke for each curve, in the curves' order.
pub open spec fn curve_strokes(curves: Seq<Curve>) -> Seq<Stroke> {
    curves.map_values(|c: Curve| Stroke { shape: Shape::Bezier(c), width: CURVE_WIDTH })
}

/// The picture of a document on a canvas of the given size: every curve,
/// oldest first, and the border of the canvas on top.
pub open spec fn content_picture(curves: Seq<Curve>, size: Size) -> Picture {
    Picture {
        size,
        strokes: curve_strokes(curves).push(
            Stroke { shape: Shape::Rectangle { top_left: origin(), size }, width: BORDER_WIDTH },
        ),
    }
}

/// The strokes that show a click sequence in progress while the cursor is
/// at `cursor`: nothing before the first click or while the cursor is
/// outside the canvas, a line from the start point to the cursor after one
/// click, and after two the curve that a click at the cursor would complete.
pub open spec fn preview_strokes(state: PendingState, cursor: Option<Point>) -> Seq<Stroke> {
    match (state, cursor) {
        (PendingState::OneClicked { from }, Some(p)) => seq![
            Stroke { shape: Shape::Line { from, to: p }, width: CURVE_WIDTH },
        ],
        (PendingState::TwoClicked { from, to }, Some(p)) => seq![
            Stroke { shape: Shape::Bezier(Curve { from, to, control: p }), width: CURVE_WIDTH },
        ],
        _ => Seq::empty(),
    }
}

/// The path data of a curve: a move to its start, then a quadratic curve
/// by its control point to its end.
pub open spec fn path_data_spec(c: Curve) -> Seq<char> {
    "M"@ + number_text(c.from.x) + ","@ + number_text(c.from.y) + " Q"@ + number_text(
        c.control.x,
    ) + ","@ + number_text(c.control.y) + " "@ + number_text(c.to.x) + ","@ + number_text(c.to.y)
}

/// The attributes of the path element that a curve is exported as: a black
/// line three units wide, nothing filled, along the curve's path data.
pub open spec fn exported_attributes(c: Curve) -> Map<Seq<char>, Seq<char>> {
    no_attributes().insert("fill"@, "none"@).insert(
        "stroke"@,
        "black"@,
    ).insert("stroke-width"@, "3"@).insert("d"@, path_data_spec(c))
}

impl Curve {
    /// The curve's path data.
    pub fn path_data(&self) -> (data: String)
        ensures
            data@ == path_data_spec(*self),
    {
        let mut data = "M".to_owned();
        data.append(number_to_text(self.from.x).as_str());
        data.append(",");
        data.append(number_to_text(self.from.y).as_str());
        data.append(" Q");
        data.append(number_to_text(self.control.x).as_str());
        data.append(",");
        data.append(number_to_text(self.control.y).as_str());
        data.append(" ");
        data.append(number_to_text(self.to.x).as_str());
        data.append(",");
        data.append(number_to_text(self.to.y).as_str());
        data
    }

    /// The path element that the curve is exported as.
    pub fn export(&self) -> (path: svg::node::element::Path)
        ensures
            path_attributes(path) == exported_attributes(*self),
    {
        let data = self.path_data();
        let path = new_path();
        let path = set_path_attribute(path, "fill", "none");
        let path = set_path_attribute(path, "stroke", "black");
        let path = set_path_attribute(path, "stroke-width", "3");
        set_path_attribute(path, "d", data.as_str())
    }

    /// Traces every curve of `curves` on `frame`, in their order.
    pub fn draw_all(curves: &[Curve], frame: &mut Frame)
        ensures
            final(frame)@ == (Picture {
                size: old(frame)@.size,
                strokes: old(frame)@.strokes + curve_strokes(curves@),
            }),
    {
        let mut i: usize = 0;
        while i < curves.len()
            invariant
                i <= curves.len(),
                frame@.size == old(frame)@.size,
                frame@.strokes == old(frame)@.strokes + curve_strokes(curves@.take(i as int)),
            decreases curves.len() - i,
        {
            frame.stroke(Shape::Bezier(curves[i]), CURVE_WIDTH);
            proof {
                assert(curves@.take(i + 1) == curves@.take(i as int).push(curves@[i as int]));
                assert(curve_strokes(curves@.take(i + 1)) == curve_strokes(
                    curves@.take(i as int),
                ).push(Stroke { shape: Shape::Bezier(curves@[i as int]), width: CURVE_WIDTH }));
            }
            i += 1;
        }
        proof {
            assert(curves@.take(curves.len() as int) == curves@);
        }
    }
}

impl PendingState {
    /// The preview of the click sequence on a surface of its own.
    pub fn draw(&self, size: Size, cursor: Option<Point>) -> (frame: Frame)
        ensures
            frame@ == (Picture { size, strokes: preview_strokes(*self, cursor) }),
    {
        let mut frame = Frame::new(size);
        if let Some(cursor_position) = cursor {
            match *self {
                PendingState::Idle => {},
                PendingState::OneClicked { from } => {
                    frame.stroke(Shape::Line { from, to: cursor_position }, CURVE_WIDTH);
                },
                PendingState::TwoClicked { from, to } => {
                    let curve = Curve { from, to, control: cursor_position };
                    let one = [curve];
                    Curve::draw_all(one.as_slice(), &mut frame);
                    assert(curve_strokes(one@) == seq![
                        Stroke { shape: Shape::Bezier(curve), width: CURVE_WIDTH },
                    ]);
                },
            };
        }
        frame
    }
}

/// What a draw request shows of the document: the remembered picture where
/// one is remembered for a canvas of this size, else the document's picture
/// drawn afresh.
pub open spec fn shown_content(remembered: Option<Picture>, curves: Seq<Curve>, size: Size)
    -> Picture {
    match remembered {
        Some(picture) if picture.size == size => picture,
        _ => content_picture(curves, size),
    }
}

/// The editing state of the canvas: the click sequence in progress, and the
/// picture of the document as it was last drawn, kept until a redraw is
/// requested.
#[derive(Debug)]
pub struct State {
    pending: PendingState,
    cache: Option<Frame>,
}

impl State {
    /// The click sequence in progress.
    pub closed spec fn pending(&self) -> PendingState {
        self.pending
    }

    /// The remembered picture of the document, if there is one.
    pub closed spec fn remembered(&self) -> Option<Picture> {
        match self.cache {
            Some(frame) => Some(frame@),
            None => None,
        }
    }

    /// The click sequence in progress.
    pub fn pending_state(&self) -> (state: PendingState)
        ensures
            state == self.pending(),
    {
        self.pending
    }

    /// Forgets the remembered picture, so that the next draw request draws
    /// the document afresh.
    pub fn request_redraw(&mut self)
        ensures
            final(self).remembered() is None,
            final(self).pending() == old(self).pending(),
    {
        self.cache = None;
    }

    /// Handles one event while the cursor is at `cursor`, a position inside
    /// the canvas, or outside the canvas (`None`). A left click inside the
    /// canvas advances the click sequence and may complete a curve, which is
    /// handed back; every other event leaves the click sequence as it is.
    pub fn update(&mut self, event: Event, cursor: Option<Point>) -> (outcome: (
        Status,
        Option<Curve>,
    ))
        ensures
            outcome.0 == status_spec(event, cursor),
            outcome.1 == transition(old(self).pending(), resolve(event, cursor)).1,
            final(self).pending() == transition(old(self).pending(), resolve(event, cursor)).0,
            final(self).remembered() == old(self).remembered(),
    {
        let cursor_position = if let Some(position) = cursor {
            position
        } else {
            return (Status::Ignored, None);
        };
        match event {
            Event::Other => (Status::Ignored, None),
            mouse_event => {
                let (next, message) = transition(
                    self.pending,
                    resolve(mouse_event, Some(cursor_position)),
                );
                self.pending = next;
                (Status::Captured, message)
            },
        }
    }

    /// Answers a draw request for a canvas of the given size while the
    /// cursor is at `cursor`. The first frame shows the document; it is
    /// drawn afresh only where no picture for this size is remembered, and
    /// is remembered from then on. While a click sequence is in progress a
    /// second frame shows its preview, which is never remembered.
    pub fn draw(&mut self, curves: &Curves, size: Size, cursor: Option<Point>) -> (frames: Vec<
        Frame,
    >)
        ensures
            final(self).pending() == old(self).pending(),
            final(self).remembered() == Some(shown_content(old(self).remembered(), curves@, size)),
            frames.len() == (if old(self).pending() is Idle { 1nat } else { 2nat }),
            frames[0]@ == shown_content(old(self).remembered(), curves@, size),
            !(old(self).pending() is Idle) ==> frames[1]@ == (Picture {
                size,
                strokes: preview_strokes(old(self).pending(), cursor),
            }),
    {
        let reuse = match &self.cache {
            Some(frame) => frame.size == size,
            None => false,
        };
        if !reuse {
            let mut frame = Frame::new(size);
            Curve::draw_all(curves.0.as_slice(), &mut frame);
            frame.stroke(Shape::Rectangle { top_left: origin(), size }, BORDER_WIDTH);
            self.cache = Some(frame);
        }
        let content = match &self.cache {
            Some(frame) => frame.clone(),
            None => Frame::new(size),
        };
        let mut frames: Vec<Frame> = Vec::new();
        frames.push(content);
        match self.pending {
            PendingState::Idle => {},
            pending => {
                frames.push(pending.draw(size, cursor));
            },
        }
        frames
    }

    /// The mouse cursor to show while the pointer is at `cursor`: a
    /// crosshair over the canvas, the ordinary one elsewhere.
    pub fn mouse_interaction(&self, cursor: Option<Point>) -> (interaction: Interaction)
        ensures
            interaction == (if cursor is Some {
                Interaction::Crosshair
            } else {
                Interaction::Idle
            }),
    {
        if cursor.is_some() {
            Interaction::Crosshair
        } else {
            Interaction::Idle
        }
    }
}

impl Default for State {
    /// No click made, nothing remembered.
    fn default() -> (state: State)
        ensures
            state.pending() is Idle,
            state.remembered() is None,
    {
        State { pending: PendingState::Idle, cache: None }
    }
}

} // verus!
