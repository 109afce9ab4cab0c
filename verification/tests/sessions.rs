use caliper::bezier::{Curve, PendingState, Point};
use caliper::disk::load;
use caliper::menu;
use caliper::session::{
    is_document, Command, Message, Session, DOCUMENT_EXTENSION, EXPORT_EXTENSION,
};

fn pt(x: f32, y: f32) -> Point {
    Point { x: x.to_bits(), y: y.to_bits() }
}

fn curve(n: f32) -> Curve {
    Curve { from: pt(n, 0.0), to: pt(n, 1.0), control: pt(n, 2.0) }
}

#[test]
fn new_session_is_empty_and_at_rest() {
    let session = Session::new(String::from("/tmp/a.png"));
    assert_eq!(session.path(), "/tmp/a.png");
    assert_eq!(session.curves().iter().count(), 0);
    assert_eq!(session.pending(), PendingState::Idle);
    assert!(!session.sidebar());
}

#[test]
fn added_curves_keep_their_order() {
    let mut session = Session::new(String::from("/tmp/a.png"));
    assert!(session.update(Message::AddCurve(curve(1.0))).is_none());
    assert!(session.update(Message::AddCurve(curve(2.0))).is_none());
    assert!(session.update(Message::AddCurve(curve(1.0))).is_none());
    let curves: Vec<Curve> = session.curves().iter().copied().collect();
    assert_eq!(curves, vec![curve(1.0), curve(2.0), curve(1.0)]);
}

#[test]
fn sidebar_command_toggles_the_list() {
    let mut session = Session::new(String::from("/tmp/a.png"));
    assert!(session.update(Message::FromMenu(menu::Message::Sidebar)).is_none());
    assert!(session.sidebar());
    session.update(Message::FromMenu(menu::Message::Sidebar));
    assert!(!session.sidebar());
}

#[test]
fn save_command_hands_the_document_back() {
    let mut session = Session::new(String::from("/tmp/a.png"));
    session.update(Message::AddCurve(curve(1.0)));
    session.update(Message::AddCurve(curve(2.0)));
    session.on_event(caliper::bezier::Event::LeftPress, Some(pt(9.0, 9.0)));
    let command = session.update(Message::FromMenu(menu::Message::Save));
    let bytes = match command {
        Some(Command::Save(bytes)) => bytes,
        _ => panic!("no document"),
    };
    let loaded = load(&bytes).unwrap();
    assert_eq!(loaded.path(), "/tmp/a.png");
    let curves: Vec<Curve> = loaded.curves().iter().copied().collect();
    assert_eq!(curves, vec![curve(1.0), curve(2.0)]);
    assert_eq!(session.curves().iter().count(), 2);
    assert_eq!(session.pending(), PendingState::OneClicked { from: pt(9.0, 9.0) });
}

#[test]
fn only_the_document_extension_opens_a_document() {
    assert!(is_document(Some("clp")));
    assert!(!is_document(Some("png")));
    assert!(!is_document(Some("CLP")));
    assert!(!is_document(Some("svg")));
    assert!(!is_document(Some("")));
    assert!(!is_document(None));
    assert_eq!(DOCUMENT_EXTENSION, "clp");
    assert_eq!(EXPORT_EXTENSION, "clp.svg");
}
