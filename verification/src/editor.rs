//! The selectable, read-only text area that shows a runner's output.
use vstd::prelude::*;

verus! {

/// iced's action on a text editor: cursor moves, selections, clicks, drags,
/// scrolling and edits. Its variants are visible to the library.
#[verifier::external_type_specification]
pub struct ExEditorAction(iced_core::text::editor::Action);

/// iced's cursor movement, carried inside an editor action.
#[verifier::external_type_specification]
#[verifier::external_body]
pub struct ExEditorMotion(iced_core::text::editor::Motion);

/// iced's text edit, carried inside an editor action.
#[verifier::external_type_specification]
#[verifier::external_body]
pub struct ExEditorEdit(iced_core::text::editor::Edit);

/// iced's 2D point, where a click or a drag happens.
#[verifier::external_type_specification]
#[verifier::external_body]
#[verifier::reject_recursive_types(T)]
pub struct ExPoint<T>(iced_core::Point<T>);

/// Specifies `Clone::clone` of iced_core's editor action, a derived clone of
/// fields that are copied or shared (`Arc`), so the copy equals the action.
pub assume_specification[ <iced_core::text::editor::Action as Clone>::clone ](
    action: &iced_core::text::editor::Action,
) -> (copy: iced_core::text::editor::Action)
    ensures
        copy == *action,
;

/// Whether the action edits text (its `Edit` variant), as iced_core's
/// `Action::is_edit` tells.
pub fn is_edit_action(action: &iced_core::text::editor::Action) -> (edit: bool)
    ensures
        edit == (*action is Edit),
{
    match action {
        iced_core::text::editor::Action::Edit(_) => true,
        _ => false,
    }
}

/// iced's text editor state (`iced::widget::text_editor::Content`), which
/// holds the lines of text shown in the runner's output window. Its renderer
/// parameter is bound by an outside trait, which cannot be declared here,
/// so the state is held in this struct, whose inside stays hidden.
#[verifier::external_body]
#[derive(Debug)]
pub struct EditorContent {
    /// The iced editor state, which the output window's widget draws.
    pub content: iced::widget::text_editor::Content,
}

/// The text that an editor state holds, as `Content::text` gives it back:
/// its lines, each followed by its line ending.
pub uninterp spec fn editor_text(editor: EditorContent) -> Seq<char>;

impl EditorContent {
    /// Calls `Content::with_text` of iced: a text editor state loaded with
    /// `text`. Under the renderer this crate builds with, the editor is
    /// iced_graphics' cosmic-text editor, which splits the text into lines
    /// at each line ending and keeps each line with its ending, so the state
    /// holds `text` as it is.
    #[verifier::external_body]
    fn with_text(text: &str) -> (editor: EditorContent)
        ensures
            editor_text(editor) == text@,
    {
        EditorContent { content: iced::widget::text_editor::Content::with_text(text) }
    }

    /// Calls `Content::perform` of iced, which hands the action to the
    /// renderer's editor. An action that is not an edit only moves the
    /// cursor, changes the selection or scrolls, so the text stays as it
    /// was; what an edit does is not stated.
    #[verifier::external_body]
    fn perform(&mut self, action: iced_core::text::editor::Action)
        ensures
            !(action is Edit) ==> editor_text(*final(self)) == editor_text(*old(self)),
    {
        self.content.perform(action)
    }
}

impl Clone for EditorContent {
    /// Calls `Content::clone` of iced, which loads a new editor state with
    /// the text of this one.
    #[verifier::external_body]
    fn clone(&self) -> (editor: EditorContent)
        ensures
            editor_text(editor) == editor_text(*self),
    {
        EditorContent { content: self.content.clone() }
    }
}

/// The runner's output window: the editor state it draws, with a record of
/// the actions handed to it since it was last loaded.
#[derive(Clone)]
pub struct TextArea {
    /// The editor state that the window's widget draws.
    pub editor: EditorContent,
    performed: Ghost<Seq<iced_core::text::editor::Action>>,
}

/// A window: the text it shows, and the actions (selections, cursor moves,
/// clicks, drags, scrolls) handed to it since it was last loaded, in order.
pub struct TextAreaView {
    pub text: Seq<char>,
    pub performed: Seq<iced_core::text::editor::Action>,
}

impl TextAreaView {
    /// A window just loaded with `text`.
    pub open spec fn loaded_with(text: Seq<char>) -> TextAreaView {
        TextAreaView { text, performed: Seq::empty() }
    }

    /// The same window after `action` is handed to it.
    pub open spec fn with_action(self, action: iced_core::text::editor::Action) -> TextAreaView {
        TextAreaView { text: self.text, performed: self.performed.push(action) }
    }
}

impl View for TextArea {
    type V = TextAreaView;

    closed spec fn view(&self) -> TextAreaView {
        TextAreaView { text: editor_text(self.editor), performed: self.performed@ }
    }
}

impl TextArea {
    /// A window loaded with `text`.
    pub(crate) fn with_text(text: &str) -> (area: TextArea)
        ensures
            area@ == TextAreaView::loaded_with(text@),
    {
        TextArea { editor: EditorContent::with_text(text), performed: Ghost(Seq::empty()) }
    }

    /// Hands `action`, which is not an edit, to the window's editor.
    pub(crate) fn perform(&mut self, action: iced_core::text::editor::Action)
        requires
            !(action is Edit),
        ensures
            final(self)@ == old(self)@.with_action(action),
    {
        let ghost handed = action;
        self.editor.perform(action);
        self.performed = Ghost(self.performed@.push(handed));
    }
}

} // verus!
