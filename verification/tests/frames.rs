use caliper::bezier::{
    origin, Curve, Curves, Event, Frame, PendingState, Point, Shape, Size, State, Stroke,
    BORDER_WIDTH, CURVE_WIDTH,
};
use caliper::session::{Message, Session};

fn pt(x: f32, y: f32) -> Point {
    Point { x: x.to_bits(), y: y.to_bits() }
}

fn size(width: f32, height: f32) -> Size {
    Size { width: width.to_bits(), height: height.to_bits() }
}

fn border(size: Size) -> Stroke {
    Stroke { shape: Shape::Rectangle { top_left: origin(), size }, width: BORDER_WIDTH }
}

fn curve(n: f32) -> Curve {
    Curve { from: pt(n, 0.0), to: pt(n, 1.0), control: pt(n, 2.0) }
}

#[test]
fn widths_and_origin() {
    assert_eq!(CURVE_WIDTH, 2);
    assert_eq!(BORDER_WIDTH, 1);
    assert_eq!(origin(), Point { x: 0, y: 0 });
    assert_eq!(origin(), pt(0.0, 0.0));
}

#[test]
fn empty_document_shows_only_the_border() {
    let mut state = State::default();
    let frames = state.draw(&Curves::default(), size(640.0, 480.0), None);
    assert_eq!(frames.len(), 1);
    assert_eq!(frames[0].size, size(640.0, 480.0));
    assert_eq!(frames[0].strokes, vec![border(size(640.0, 480.0))]);
}

#[test]
fn curves_are_stroked_in_order_below_the_border() {
    let mut curves = Curves::default();
    curves.push(curve(1.0));
    curves.push(curve(2.0));
    let mut state = State::default();
    let frames = state.draw(&curves, size(10.0, 20.0), Some(pt(1.0, 1.0)));
    assert_eq!(frames.len(), 1);
    assert_eq!(
        frames[0].strokes,
        vec![
            Stroke { shape: Shape::Bezier(curve(1.0)), width: 2 },
            Stroke { shape: Shape::Bezier(curve(2.0)), width: 2 },
            border(size(10.0, 20.0)),
        ]
    );
}

#[test]
fn one_click_previews_a_line_to_the_cursor() {
    let mut state = State::default();
    state.update(Event::LeftPress, Some(pt(3.0, 4.0)));
    let frames = state.draw(&Curves::default(), size(10.0, 10.0), Some(pt(7.0, 8.0)));
    assert_eq!(frames.len(), 2);
    assert_eq!(frames[0].strokes, vec![border(size(10.0, 10.0))]);
    assert_eq!(frames[1].size, size(10.0, 10.0));
    assert_eq!(
        frames[1].strokes,
        vec![Stroke { shape: Shape::Line { from: pt(3.0, 4.0), to: pt(7.0, 8.0) }, width: 2 }]
    );
}

#[test]
fn two_clicks_preview_the_curve_bent_to_the_cursor() {
    let mut state = State::default();
    state.update(Event::LeftPress, Some(pt(3.0, 4.0)));
    state.update(Event::LeftPress, Some(pt(5.0, 6.0)));
    let frames = state.draw(&Curves::default(), size(10.0, 10.0), Some(pt(7.0, 8.0)));
    assert_eq!(frames.len(), 2);
    assert_eq!(
        frames[1].strokes,
        vec![Stroke {
            shape: Shape::Bezier(Curve {
                from: pt(3.0, 4.0),
                to: pt(5.0, 6.0),
                control: pt(7.0, 8.0)
            }),
            width: 2
        }]
    );
}

#[test]
fn preview_is_empty_while_the_cursor_is_outside() {
    let mut state = State::default();
    state.update(Event::LeftPress, Some(pt(3.0, 4.0)));
    let frames = state.draw(&Curves::default(), size(10.0, 10.0), None);
    assert_eq!(frames.len(), 2);
    assert!(frames[1].strokes.is_empty());
    assert_eq!(PendingState::Idle.draw(size(1.0, 1.0), Some(pt(0.0, 0.0))).strokes, vec![]);
}

#[test]
fn preview_never_reaches_the_curves() {
    let mut session = Session::new(String::from("a.png"));
    session.on_event(Event::LeftPress, Some(pt(1.0, 1.0)));
    session.on_event(Event::LeftPress, Some(pt(2.0, 2.0)));
    let frames = session.draw(size(10.0, 10.0), Some(pt(3.0, 3.0)));
    assert_eq!(frames.len(), 2);
    assert_eq!(frames[0].strokes, vec![border(size(10.0, 10.0))]);
    assert_eq!(session.curves().iter().count(), 0);
    assert_eq!(
        session.pending(),
        PendingState::TwoClicked { from: pt(1.0, 1.0), to: pt(2.0, 2.0) }
    );
}

#[test]
fn picture_is_remembered_until_a_redraw_is_requested() {
    let mut curves = Curves::default();
    let mut state = State::default();
    let before = state.draw(&curves, size(10.0, 10.0), None);
    curves.push(curve(1.0));
    let remembered = state.draw(&curves, size(10.0, 10.0), None);
    assert_eq!(remembered[0].strokes, before[0].strokes);
    state.request_redraw();
    let fresh = state.draw(&curves, size(10.0, 10.0), None);
    assert_eq!(
        fresh[0].strokes,
        vec![Stroke { shape: Shape::Bezier(curve(1.0)), width: 2 }, border(size(10.0, 10.0))]
    );
}

#[test]
fn another_size_is_drawn_afresh() {
    let mut curves = Curves::default();
    let mut state = State::default();
    state.draw(&curves, size(10.0, 10.0), None);
    curves.push(curve(1.0));
    let resized = state.draw(&curves, size(20.0, 10.0), None);
    assert_eq!(resized[0].size, size(20.0, 10.0));
    assert_eq!(
        resized[0].strokes,
        vec![Stroke { shape: Shape::Bezier(curve(1.0)), width: 2 }, border(size(20.0, 10.0))]
    );
}

#[test]
fn session_never_shows_a_stale_picture() {
    let mut session = Session::new(String::from("a.png"));
    let empty = session.draw(size(10.0, 10.0), None);
    assert_eq!(empty[0].strokes, vec![border(size(10.0, 10.0))]);
    session.update(Message::AddCurve(curve(1.0)));
    let one = session.draw(size(10.0, 10.0), None);
    assert_eq!(
        one[0].strokes,
        vec![Stroke { shape: Shape::Bezier(curve(1.0)), width: 2 }, border(size(10.0, 10.0))]
    );
    session.on_event(Event::LeftPress, Some(pt(1.0, 1.0)));
    session.on_event(Event::LeftPress, Some(pt(2.0, 2.0)));
    session.on_event(Event::LeftPress, Some(pt(3.0, 3.0)));
    let two = session.draw(size(10.0, 10.0), None);
    assert_eq!(two[0].strokes.len(), 3);
    session.update(Message::FromMenu(caliper::menu::Message::Clear));
    let cleared = session.draw(size(10.0, 10.0), None);
    assert_eq!(cleared[0].strokes, vec![border(size(10.0, 10.0))]);
}

#[test]
fn draw_all_adds_to_what_is_on_the_frame() {
    let mut frame = Frame::new(size(5.0, 5.0));
    frame.stroke(Shape::Line { from: pt(0.0, 0.0), to: pt(1.0, 1.0) }, 7);
    Curve::draw_all(&[curve(1.0), curve(2.0)], &mut frame);
    assert_eq!(frame.size, size(5.0, 5.0));
    assert_eq!(
        frame.strokes,
        vec![
            Stroke { shape: Shape::Line { from: pt(0.0, 0.0), to: pt(1.0, 1.0) }, width: 7 },
            Stroke { shape: Shape::Bezier(curve(1.0)), width: 2 },
            Stroke { shape: Shape::Bezier(curve(2.0)), width: 2 },
        ]
    );
    let copy = frame.clone();
    assert_eq!(copy.size, frame.size);
    assert_eq!(copy.strokes, frame.strokes);
}
