//! An editing session: one document, the click sequence towards its next
//! curve, and what the command bar does to them.

use crate::bezier::{
    content_picture, preview_strokes, resolve_spec, status_spec, transition_spec, Curve, Curves,
    Event, Frame, Interaction, PendingState, Picture, Point, PointerEvent, Size, State, Status,
};
use crate::disk::{curves_of, records_of, save, saved_as, Serialized};
use crate::export::{drawing_text, run};
use crate::menu;
use vstd::prelude::*;

verus! {

/// What a session is told.
#[derive(Clone, Copy, Debug, PartialEq, Eq, Structural)]
pub enum Message {
    /// A click sequence has completed this curve.
    AddCurve(Curve),
    /// The command bar has issued this command.
    FromMenu(menu::Message),
}

/// What is left to do outside the session once a message is handled.
#[derive(Debug)]
pub enum Command {
    /// Write this drawing to the export file.
    Export(String),
    /// Write these bytes to the document file.
    Save(Vec<u8>),
}

/// A session at one moment.
pub struct SessionView {
    /// The path of the background image.
    pub path: Seq<char>,
    /// The document's curves, oldest first.
    pub curves: Seq<Curve>,
    /// The click sequence in progress.
    pub pending: PendingState,
    /// Whether the list of curves is shown.
    pub sidebar: bool,
    /// The picture of the document that is remembered from the last draw
    /// request, if any is.
    pub remembered: Option<Picture>,
}

impl SessionView {
    /// A remembered picture is the picture of the curves as they are now.
    pub open spec fn wf(self) -> bool {
        self.remembered matches Some(picture) ==> picture == content_picture(
            self.curves,
            picture.size,
        )
    }

    /// The session once `message` is handled. A new curve and a clear
    /// change the curves and so drop the remembered picture; a clear also
    /// abandons the click sequence; exporting and saving change nothing.
    pub open spec fn apply(self, message: Message) -> SessionView {
        match message {
            Message::AddCurve(curve) => SessionView {
                curves: self.curves.push(curve),
                remembered: None,
                ..self
            },
            Message::FromMenu(menu::Message::Clear) => SessionView {
                curves: Seq::empty(),
                pending: PendingState::Idle,
                remembered: None,
                ..self
            },
            Message::FromMenu(menu::Message::Sidebar) => SessionView {
                sidebar: !self.sidebar,
                ..self
            },
            Message::FromMenu(menu::Message::Export) => self,
            Message::FromMenu(menu::Message::Save) => self,
        }
    }

    /// The session once the click sequence has seen `event`: the sequence
    /// advances, and the curve that it completes, if any, is added.
    pub open spec fn react(self, event: PointerEvent) -> SessionView {
        let (pending, completed) = transition_spec(self.pending, event);
        let advanced = SessionView { pending, ..self };
        match completed {
            Some(curve) => advanced.apply(Message::AddCurve(curve)),
            None => advanced,
        }
    }
}

/// An editing session.
#[derive(Debug)]
pub struct Session {
    path: String,
    bezier: State,
    curves: Curves,
    sidebar: bool,
}

impl View for Session {
    type V = SessionView;

    closed spec fn view(&self) -> SessionView {
        SessionView {
            path: self.path@,
            curves: self.curves@,
            pending: self.bezier.pending(),
            sidebar: self.sidebar,
            remembered: self.bezier.remembered(),
        }
    }
}

impl Session {
    /// A remembered picture is the picture of the curves as they are now.
    pub open spec fn wf(&self) -> bool {
        self@.wf()
    }

    /// A session on a new document over the image at `path`.
    pub fn new(path: String) -> (session: Session)
        ensures
            session.wf(),
            session@ == (SessionView {
                path: path@,
                curves: Seq::empty(),
                pending: PendingState::Idle,
                sidebar: false,
                remembered: None,
            }),
    {
        Session { path, bezier: State::default(), curves: Curves::default(), sidebar: false }
    }

    /// A session on a loaded document.
    pub fn restore(document: &Serialized) -> (session: Session)
        ensures
            session.wf(),
            session@ == (SessionView {
                path: document.image_path(),
                curves: curves_of(document.records()),
                pending: PendingState::Idle,
                sidebar: false,
                remembered: None,
            }),
    {
        Session {
            path: document.path().clone(),
            bezier: State::default(),
            curves: document.curves(),
            sidebar: false,
        }
    }

    /// The session's document in the shape in which it is written.
    pub fn document(&self) -> (document: Serialized)
        ensures
            document.image_path() == self@.path,
            document.records() == records_of(self@.curves),
    {
        Serialized::new(self.path.clone(), &self.curves)
    }

    /// The path of the background image.
    pub fn path(&self) -> (path: &String)
        ensures
            path@ == self@.path,
    {
        &self.path
    }

    /// The document's curves, oldest first.
    pub fn curves(&self) -> (curves: &Curves)
        ensures
            curves@ == self@.curves,
    {
        &self.curves
    }

    /// The click sequence in progress.
    pub fn pending(&self) -> (pending: PendingState)
        ensures
            pending == self@.pending,
    {
        self.bezier.pending_state()
    }

    /// Whether the list of curves is shown.
    pub fn sidebar(&self) -> (shown: bool)
        ensures
            shown == self@.sidebar,
    {
        self.sidebar
    }

    /// Handles a message. A completed curve is added behind the others; the
    /// command bar clears the document, shows or hides the list of curves,
    /// or asks for the document's drawing or bytes, which are handed back
    /// for writing and leave the session as it is.
    pub fn update(&mut self, message: Message) -> (command: Option<Command>)
        requires
            old(self).wf(),
        ensures
            final(self).wf(),
            final(self)@ == old(self)@.apply(message),
            match message {
                Message::FromMenu(menu::Message::Export) => command matches Some(
                    Command::Export(text),
                ) && text@ == drawing_text(old(self)@.curves),
                Message::FromMenu(menu::Message::Save) => command matches Some(
                    Command::Save(bytes),
                ) && saved_as(old(self)@.path, records_of(old(self)@.curves), bytes@),
                _ => command is None,
            },
    {
        match message {
            Message::AddCurve(curve) => {
                self.curves.push(curve);
                self.bezier.request_redraw();
                None
            },
            Message::FromMenu(menu::Message::Clear) => {
                self.bezier = State::default();
                self.curves.clear();
                None
            },
            Message::FromMenu(menu::Message::Sidebar) => {
                self.sidebar = !self.sidebar;
                None
            },
            Message::FromMenu(menu::Message::Export) => Some(Command::Export(run(&self.curves))),
            Message::FromMenu(menu::Message::Save) => Some(Command::Save(save(self.document()))),
        }
    }

    /// Handles one event while the cursor is at `cursor`, a position inside
    /// the canvas, or outside the canvas (`None`). A left click inside the
    /// canvas advances the click sequence, and the curve that the third
    /// click completes is added to the document and handed back.
    pub fn on_event(&mut self, event: Event, cursor: Option<Point>) -> (outcome: (
        Status,
        Option<Curve>,
    ))
        requires
            old(self).wf(),
        ensures
            final(self).wf(),
            final(self)@ == old(self)@.react(resolve_spec(event, cursor)),
            outcome.0 == status_spec(event, cursor),
            outcome.1 == transition_spec(old(self)@.pending, resolve_spec(event, cursor)).1,
    {
        let (status, completed) = self.bezier.update(event, cursor);
        if let Some(curve) = completed {
            let _ = self.update(Message::AddCurve(curve));
        }
        (status, completed)
    }

    /// Answers a draw request for a canvas of the given size while the
    /// cursor is at `cursor`: a frame with the document's picture, which is
    /// remembered, and while a click sequence is in progress a second frame
    /// with its preview.
    pub fn draw(&mut self, size: Size, cursor: Option<Point>) -> (frames: Vec<Frame>)
        requires
            old(self).wf(),
        ensures
            final(self).wf(),
            final(self)@ == (SessionView {
                remembered: Some(content_picture(old(self)@.curves, size)),
                ..old(self)@
            }),
            frames.len() == (if old(self)@.pending is Idle { 1nat } else { 2nat }),
            frames[0]@ == content_picture(old(self)@.curves, size),
            !(old(self)@.pending is Idle) ==> frames[1]@ == (Picture {
                size,
                strokes: preview_strokes(old(self)@.pending, cursor),
            }),
    {
        self.bezier.draw(&self.curves, size, cursor)
    }

    /// The mouse cursor to show while the pointer is at `cursor`.
    pub fn mouse_interaction(&self, cursor: Option<Point>) -> (interaction: Interaction)
        ensures
            interaction == (if cursor is Some {
                Interaction::Crosshair
            } else {
                Interaction::Idle
            }),
    {
        self.bezier.mouse_interaction(cursor)
    }
}

/// The extension of a document file.
pub const DOCUMENT_EXTENSION: &'static str = "clp";

/// The extension of an export file.
pub const EXPORT_EXTENSION: &'static str = "clp.svg";

/// Whether a file with this extension, if it has one, is opened as a
/// document rather than as a background image.
pub fn is_document(extension: Option<&str>) -> (document: bool)
    ensures
        document == (extension matches Some(e) && e@ == DOCUMENT_EXTENSION@),
{
    match extension {
        Some(e) => e.to_owned() == DOCUMENT_EXTENSION.to_owned(),
        None => false,
    }
}

/// Three clicks from rest add exactly one curve, from the first point to
/// the second and bent towards the third, and leave the click sequence at
/// rest; the first two clicks add nothing.
pub proof fn three_clicks_add_one_curve(s: SessionView, first: Point, second: Point, third: Point)
    requires
        s.pending is Idle,
    ensures
        s.react(PointerEvent::Click(first)).curves == s.curves,
        s.react(PointerEvent::Click(first)).react(PointerEvent::Click(second)).curves == s.curves,
        s.react(PointerEvent::Click(first)).react(PointerEvent::Click(second)).react(
            PointerEvent::Click(third),
        ) == (SessionView {
            curves: s.curves.push(Curve { from: first, to: second, control: third }),
            pending: PendingState::Idle,
            remembered: None,
            ..s
        }),
{
}

/// An event that is not a left click inside the canvas changes nothing,
/// whatever the click sequence has reached. A click outside the canvas is
/// such an event.
pub proof fn other_events_change_nothing(s: SessionView, event: Event, cursor: Option<Point>)
    requires
        event != Event::LeftPress || cursor is None,
    ensures
        resolve_spec(event, cursor) == PointerEvent::Other,
        s.react(resolve_spec(event, cursor)) == s,
{
}

/// A clear empties the document and abandons the click sequence, whatever
/// the session held.
pub proof fn clear_resets(s: SessionView)
    ensures
        s.apply(Message::FromMenu(menu::Message::Clear)).curves == Seq::<Curve>::empty(),
        s.apply(Message::FromMenu(menu::Message::Clear)).pending is Idle,
        s.apply(Message::FromMenu(menu::Message::Clear)).path == s.path,
        s.apply(Message::FromMenu(menu::Message::Clear)).sidebar == s.sidebar,
{
}

/// No message and no event makes a remembered picture stale: whenever the
/// curves change, the picture is dropped.
pub proof fn remembered_picture_stays_true(s: SessionView, message: Message, event: PointerEvent)
    requires
        s.wf(),
    ensures
        s.apply(message).wf(),
        s.react(event).wf(),
{
}

} // verus!
