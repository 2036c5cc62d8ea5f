//! The editing session: the current file path, the live font size and
//! the Save-enabled flag, together with the state machine that the menu
//! drives.
//!
//! Each menu interaction is a [`MenuEvent`]; [`Session::handle`] moves
//! the session to its next state and returns the [`UiAction`] the shell
//! must carry out (replace the surface text, write a file, apply a
//! style rule, report an error, close the window). The whole transition
//! is pinned down by the spec functions [`step`] and [`decide`].

use vstd::prelude::*;

use crate::style::style_rule;
use crate::style::style_rule_chars;

verus! {

/// Font size the session starts with and returns to on Restore Default Zoom.
pub const DEFAULT_FONT_SIZE: i32 = 15;

/// Amount one Zoom In or Zoom Out changes the font size by.
pub const ZOOM_STEP: i32 = 2;

/// Failures the session reports instead of terminating.
#[derive(Clone, Copy, Debug, PartialEq, Eq, Structural)]
pub enum EditorError {
    /// A file could not be opened, read, created or written.
    IoError,
    /// The bundled logo image is absent.
    MissingAssetError,
    /// Save was invoked although no path has been established.
    NoActiveDocumentPathError,
}

/// User-visible description of `e`.
pub open spec fn error_message_chars(e: EditorError) -> Seq<char> {
    match e {
        EditorError::IoError => "The file could not be read or written."@,
        EditorError::MissingAssetError => "The logo image is missing."@,
        EditorError::NoActiveDocumentPathError => "No file path has been established."@,
    }
}

impl EditorError {
    /// The text an error dialog shows for this error.
    pub fn message(&self) -> (m: String)
        ensures
            m@ == error_message_chars(*self),
    {
        match self {
            EditorError::IoError => String::from_str("The file could not be read or written."),
            EditorError::MissingAssetError => String::from_str("The logo image is missing."),
            EditorError::NoActiveDocumentPathError => String::from_str(
                "No file path has been established.",
            ),
        }
    }
}

/// In-memory state of the single editing session.
pub struct Session {
    /// Path established by the last successful Open or Save As, if any.
    pub path: Option<String>,
    /// Live font size of the document surface.
    pub font_size: i32,
    /// Whether the Save menu entry is enabled.
    pub save_enabled: bool,
}

/// Mathematical model of a [`Session`].
#[verifier::ext_equal]
pub ghost struct SessionView {
    pub path: Option<Seq<char>>,
    pub font_size: int,
    pub save_enabled: bool,
}

impl View for Session {
    type V = SessionView;

    open spec fn view(&self) -> SessionView {
        SessionView {
            path: match self.path {
                Option::Some(p) => Option::Some(p@),
                Option::None => Option::None,
            },
            font_size: self.font_size as int,
            save_enabled: self.save_enabled,
        }
    }
}

/// One menu interaction, with everything the shell gathered for it.
pub enum MenuEvent {
    /// File / New.
    FileNew,
    /// File / Open, after the chooser was confirmed and the file was
    /// read: the chosen path and the file's full contents.
    OpenChosen { path: String, contents: String },
    /// File / Save, with the surface's current contents.
    SaveActivated { buffer: String },
    /// File / Save As, after the chooser was confirmed: the chosen
    /// destination path and the surface's current contents. The
    /// session adopts the path only once the shell reports the
    /// ordered write as successful.
    SaveAsChosen { path: String, buffer: String },
    /// The shell wrote the ordered contents to `path` successfully.
    WriteSucceeded { path: String },
    /// An Open or Save As chooser was dismissed without a choice.
    DialogCancelled,
    /// The shell failed to read the chosen file.
    ReadFailed,
    /// The shell failed to create or write the destination file.
    WriteFailed,
    /// View / Zoom In.
    ZoomIn,
    /// View / Zoom Out.
    ZoomOut,
    /// View / Restore Default Zoom.
    RestoreDefaultZoom,
    /// File / Exit.
    ExitActivated,
}

/// Mathematical model of a [`MenuEvent`].
#[verifier::ext_equal]
pub ghost enum EventView {
    FileNew,
    OpenChosen { path: Seq<char>, contents: Seq<char> },
    SaveActivated { buffer: Seq<char> },
    SaveAsChosen { path: Seq<char>, buffer: Seq<char> },
    WriteSucceeded { path: Seq<char> },
    DialogCancelled,
    ReadFailed,
    WriteFailed,
    ZoomIn,
    ZoomOut,
    RestoreDefaultZoom,
    ExitActivated,
}

impl View for MenuEvent {
    type V = EventView;

    open spec fn view(&self) -> EventView {
        match self {
            MenuEvent::FileNew => EventView::FileNew,
            MenuEvent::OpenChosen { path, contents } => EventView::OpenChosen {
                path: path@,
                contents: contents@,
            },
            MenuEvent::SaveActivated { buffer } => EventView::SaveActivated { buffer: buffer@ },
            MenuEvent::SaveAsChosen { path, buffer } => EventView::SaveAsChosen {
                path: path@,
                buffer: buffer@,
            },
            MenuEvent::WriteSucceeded { path } => EventView::WriteSucceeded { path: path@ },
            MenuEvent::DialogCancelled => EventView::DialogCancelled,
            MenuEvent::ReadFailed => EventView::ReadFailed,
            MenuEvent::WriteFailed => EventView::WriteFailed,
            MenuEvent::ZoomIn => EventView::ZoomIn,
            MenuEvent::ZoomOut => EventView::ZoomOut,
            MenuEvent::RestoreDefaultZoom => EventView::RestoreDefaultZoom,
            MenuEvent::ExitActivated => EventView::ExitActivated,
        }
    }
}

/// What the shell must do after an event was handled.
pub enum UiAction {
    /// Nothing: the event changed at most the session state.
    Nothing,
    /// Replace the document surface's whole text with `text`.
    ReplaceText { text: String },
    /// Write `contents` to the file at `path`, overwriting it.
    WriteFile { path: String, contents: String },
    /// Apply `rule` as the surface's style rule.
    ApplyStyle { rule: String },
    /// Show `error` to the user; the session state is unchanged.
    ReportError { error: EditorError },
    /// Close the application window.
    CloseWindow,
}

/// Mathematical model of a [`UiAction`].
#[verifier::ext_equal]
pub ghost enum ActionView {
    Nothing,
    ReplaceText { text: Seq<char> },
    WriteFile { path: Seq<char>, contents: Seq<char> },
    ApplyStyle { rule: Seq<char> },
    ReportError { error: EditorError },
    CloseWindow,
}

impl View for UiAction {
    type V = ActionView;

    open spec fn view(&self) -> ActionView {
        match self {
            UiAction::Nothing => ActionView::Nothing,
            UiAction::ReplaceText { text } => ActionView::ReplaceText { text: text@ },
            UiAction::WriteFile { path, contents } => ActionView::WriteFile {
                path: path@,
                contents: contents@,
            },
            UiAction::ApplyStyle { rule } => ActionView::ApplyStyle { rule: rule@ },
            UiAction::ReportError { error } => ActionView::ReportError { error: *error },
            UiAction::CloseWindow => ActionView::CloseWindow,
        }
    }
}

/// Save is enabled exactly while a path is established.
pub open spec fn wf(s: SessionView) -> bool {
    s.save_enabled <==> s.path is Some
}

/// The state a session starts in: no path, default font size, Save disabled.
pub open spec fn init_view() -> SessionView {
    SessionView { path: Option::None, font_size: DEFAULT_FONT_SIZE as int, save_enabled: false }
}

/// Next session state after `e` arrives in state `s`.
pub open spec fn step(s: SessionView, e: EventView) -> SessionView {
    match e {
        EventView::FileNew => SessionView {
            path: Option::None,
            font_size: s.font_size,
            save_enabled: false,
        },
        EventView::OpenChosen { path, .. } => SessionView {
            path: Option::Some(path),
            font_size: s.font_size,
            save_enabled: true,
        },
        EventView::SaveActivated { .. } => s,
        EventView::SaveAsChosen { .. } => s,
        EventView::WriteSucceeded { path } => SessionView {
            path: Option::Some(path),
            font_size: s.font_size,
            save_enabled: true,
        },
        EventView::DialogCancelled => s,
        EventView::ReadFailed => s,
        EventView::WriteFailed => s,
        EventView::ZoomIn => SessionView {
            path: s.path,
            font_size: s.font_size + ZOOM_STEP as int,
            save_enabled: s.save_enabled,
        },
        EventView::ZoomOut => SessionView {
            path: s.path,
            font_size: s.font_size - ZOOM_STEP as int,
            save_enabled: s.save_enabled,
        },
        EventView::RestoreDefaultZoom => SessionView {
            path: s.path,
            font_size: DEFAULT_FONT_SIZE as int,
            save_enabled: s.save_enabled,
        },
        EventView::ExitActivated => s,
    }
}

/// Action the shell is told to carry out when `e` arrives in state `s`.
pub open spec fn decide(s: SessionView, e: EventView) -> ActionView {
    match e {
        EventView::FileNew => ActionView::ReplaceText { text: Seq::<char>::empty() },
        EventView::OpenChosen { contents, .. } => ActionView::ReplaceText { text: contents },
        EventView::SaveActivated { buffer } => match s.path {
            Option::Some(p) => ActionView::WriteFile { path: p, contents: buffer },
            Option::None => ActionView::ReportError {
                error: EditorError::NoActiveDocumentPathError,
            },
        },
        EventView::SaveAsChosen { path, buffer } => ActionView::WriteFile {
            path,
            contents: buffer,
        },
        EventView::WriteSucceeded { .. } => ActionView::Nothing,
        EventView::DialogCancelled => ActionView::Nothing,
        EventView::ReadFailed => ActionView::ReportError { error: EditorError::IoError },
        EventView::WriteFailed => ActionView::ReportError { error: EditorError::IoError },
        EventView::ZoomIn => ActionView::ApplyStyle {
            rule: style_rule_chars(s.font_size + ZOOM_STEP as int),
        },
        EventView::ZoomOut => ActionView::ApplyStyle {
            rule: style_rule_chars(s.font_size - ZOOM_STEP as int),
        },
        EventView::RestoreDefaultZoom => ActionView::ApplyStyle {
            rule: style_rule_chars(DEFAULT_FONT_SIZE as int),
        },
        EventView::ExitActivated => ActionView::CloseWindow,
    }
}

impl Session {
    /// A fresh session, as built when the window is created.
    pub fn startup() -> (s: Session)
        ensures
            s@ == init_view(),
            wf(s@),
    {
        Session { path: Option::None, font_size: DEFAULT_FONT_SIZE, save_enabled: false }
    }

    /// Handle one menu event: move to the next session state and
    /// return the action the shell must carry out.
    ///
    /// The two `requires` clauses only keep the unbounded zoom steps
    /// inside the machine's integer range; no other event is restricted.
    pub fn handle(&mut self, event: MenuEvent) -> (action: UiAction)
        requires
            event@ is ZoomIn ==> old(self).font_size + ZOOM_STEP <= i32::MAX,
            event@ is ZoomOut ==> old(self).font_size - ZOOM_STEP >= i32::MIN,
        ensures
            final(self)@ == step(old(self)@, event@),
            action@ == decide(old(self)@, event@),
    {
        match event {
            MenuEvent::FileNew => {
                self.path = Option::None;
                self.save_enabled = false;
                UiAction::ReplaceText { text: String::new() }
            },
            MenuEvent::OpenChosen { path, contents } => {
                self.path = Option::Some(path);
                self.save_enabled = true;
                UiAction::ReplaceText { text: contents }
            },
            MenuEvent::SaveActivated { buffer } => match &self.path {
                Option::Some(p) => UiAction::WriteFile { path: p.clone(), contents: buffer },
                Option::None => UiAction::ReportError {
                    error: EditorError::NoActiveDocumentPathError,
                },
            },
            MenuEvent::SaveAsChosen { path, buffer } => UiAction::WriteFile {
                path,
                contents: buffer,
            },
            MenuEvent::WriteSucceeded { path } => {
                self.path = Option::Some(path);
                self.save_enabled = true;
                UiAction::Nothing
            },
            MenuEvent::DialogCancelled => UiAction::Nothing,
            MenuEvent::ReadFailed => UiAction::ReportError { error: EditorError::IoError },
            MenuEvent::WriteFailed => UiAction::ReportError { error: EditorError::IoError },
            MenuEvent::ZoomIn => {
                self.font_size = self.font_size + ZOOM_STEP;
                UiAction::ApplyStyle { rule: style_rule(self.font_size) }
            },
            MenuEvent::ZoomOut => {
                self.font_size = self.font_size - ZOOM_STEP;
                UiAction::ApplyStyle { rule: style_rule(self.font_size) }
            },
            MenuEvent::RestoreDefaultZoom => {
                self.font_size = DEFAULT_FONT_SIZE;
                UiAction::ApplyStyle { rule: style_rule(self.font_size) }
            },
            MenuEvent::ExitActivated => UiAction::CloseWindow,
        }
    }
}

/// New clears the document surface and disables Save, whatever the
/// prior state: it orders the surface emptied, drops the path and
/// leaves the session with Save disabled.
pub proof fn lemma_new_resets(s: SessionView)
    ensures
        step(s, EventView::FileNew).path is None,
        !step(s, EventView::FileNew).save_enabled,
        decide(s, EventView::FileNew) == (ActionView::ReplaceText { text: Seq::<char>::empty() }),
{
}

/// Open followed at once by Save writes exactly the opened contents
/// back to the opened path, whatever the prior state.
pub proof fn lemma_open_save_round_trip(s: SessionView, path: Seq<char>, contents: Seq<char>)
    ensures
        decide(
            step(s, EventView::OpenChosen { path, contents }),
            EventView::SaveActivated { buffer: contents },
        ) == (ActionView::WriteFile { path, contents }),
{
}

/// Every event preserves well-formedness: Save stays enabled exactly
/// while a path is established.
pub proof fn lemma_step_preserves_wf(s: SessionView, e: EventView)
    requires
        wf(s),
    ensures
        wf(step(s, e)),
{
}

/// Whether `e` establishes a document path: only a successful Open,
/// or a successful write reported back after Save or Save As, does.
/// A confirmed Save As alone establishes nothing: its write must
/// succeed first.
pub open spec fn establishes_path(e: EventView) -> bool {
    e is OpenChosen || e is WriteSucceeded
}

/// Session state after the events of `es` arrive in order in state `s`.
pub open spec fn run(s: SessionView, es: Seq<EventView>) -> SessionView
    decreases es.len(),
{
    if es.len() == 0 {
        s
    } else {
        run(step(s, es[0]), es.subrange(1, es.len() as int))
    }
}

/// Save stays disabled until an Open or a Save As succeeds: from any
/// state with Save disabled, no run of other events enables it.
pub proof fn lemma_save_disabled_until_established(s: SessionView, es: Seq<EventView>)
    requires
        !s.save_enabled,
        forall|i: int| 0 <= i < es.len() ==> !establishes_path(#[trigger] es[i]),
    ensures
        !run(s, es).save_enabled,
    decreases es.len(),
{
    if es.len() > 0 {
        let rest = es.subrange(1, es.len() as int);
        assert forall|i: int| 0 <= i < rest.len() implies !establishes_path(
            #[trigger] rest[i],
        ) by {
            assert(rest[i] == es[i + 1]);
        }
        lemma_save_disabled_until_established(step(s, es[0]), rest);
    }
}

/// A successful Open, or a successful write reported back, enables
/// Save and establishes a path.
pub proof fn lemma_establish_enables_save(s: SessionView, e: EventView)
    requires
        establishes_path(e),
    ensures
        step(s, e).save_enabled,
        step(s, e).path is Some,
{
}

/// A confirmed Save As orders the write of the buffer to the chosen
/// path but changes the session only once the write is reported to
/// have succeeded: if it fails instead, the session is exactly as it
/// was, whatever its prior state.
pub proof fn lemma_save_as_failure_leaves_state(s: SessionView, path: Seq<char>, buffer: Seq<char>)
    ensures
        decide(s, EventView::SaveAsChosen { path, buffer }) == (ActionView::WriteFile {
            path,
            contents: buffer,
        }),
        step(s, EventView::SaveAsChosen { path, buffer }) == s,
        step(step(s, EventView::SaveAsChosen { path, buffer }), EventView::WriteFailed) == s,
{
}

/// Once a Save As write succeeds, the chosen path is adopted and Save
/// is enabled, and an immediate Save with the unchanged buffer
/// rewrites exactly the same contents to that path.
pub proof fn lemma_save_as_then_save(s: SessionView, path: Seq<char>, buffer: Seq<char>)
    ensures
        ({
            let after = step(
                step(s, EventView::SaveAsChosen { path, buffer }),
                EventView::WriteSucceeded { path },
            );
            after.path == Option::Some(path) && after.save_enabled && decide(
                after,
                EventView::SaveActivated { buffer },
            ) == (ActionView::WriteFile { path, contents: buffer })
        }),
{
}

/// Zoom In then Zoom Out returns the session to its starting state,
/// for every starting font size: the two steps are symmetric.
pub proof fn lemma_zoom_round_trip(s: SessionView)
    ensures
        step(step(s, EventView::ZoomIn), EventView::ZoomOut) == s,
        step(step(s, EventView::ZoomOut), EventView::ZoomIn) == s,
{
    assert(step(step(s, EventView::ZoomIn), EventView::ZoomOut) =~= s);
    assert(step(step(s, EventView::ZoomOut), EventView::ZoomIn) =~= s);
}

/// Restore Default Zoom always yields the default font size,
/// whatever zooming happened before.
pub proof fn lemma_restore_default(s: SessionView)
    ensures
        step(s, EventView::RestoreDefaultZoom).font_size == DEFAULT_FONT_SIZE as int,
{
}

} // verus!
