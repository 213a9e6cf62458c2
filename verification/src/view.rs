//! The four widgets. Each owns what it edits and says how a key press
//! changes it and the application state, and where the cursor then belongs.

use vstd::prelude::*;
use vstd::string::StrSliceExecFns;
use crate::app::{AppMode, AppState, Snippet};
use crate::cursor::{
    column, cursor_cell, cursor_on_screen, input_cell, input_cursor, input_fits, input_on_screen,
    lemma_push, line_number, locate, place_fits, place_on_screen, project_cursor,
};
use crate::editor::{GapBuffer, Text, FILLER};
use crate::event::{Event, KeyCode, Rect};
use crate::selection::{next_index, previous_index, step_back, step_forward};

verus! {

/// Spare slots that the editor's buffer starts with.
pub const EDITOR_BUFFER_SIZE: usize = 1024;

/// Spare slots that a one-line input starts with.
pub const SEARCH_BUFFER_SIZE: usize = 256;

/// Number of spaces that the tab key types.
pub const TAB_SIZE: usize = 4;

/// Cells between the editor's border and its text.
pub const PADDING_SIZE: u16 = 1;

/// A widget that reacts to input events.
pub trait Component: Sized {
    /// What the widget needs of itself and of the state in order to take
    /// `event`.
    spec fn accepts(&self, state: &AppState, event: Event) -> bool;

    /// Whether `after` and `after_state` are what the widget and the state
    /// become when the widget takes `event`.
    spec fn handled(
        &self,
        state: AppState,
        event: Event,
        after: Self,
        after_state: AppState,
    ) -> bool;

    /// Applies `event` to the widget and to the state.
    fn handle_event(&mut self, event: &Event, state: &mut AppState)
        requires
            old(self).accepts(old(state), *event),
        ensures
            old(self).handled(*old(state), *event, *final(self), *final(state)),
    ;
}

/// The list of snippets that pass the search query.
pub struct SnippetListComponent {
    /// The entry that is drawn highlighted.
    pub highlighted: Option<usize>,
}

impl SnippetListComponent {
    /// A list in which nothing is highlighted yet.
    pub fn new() -> (list: SnippetListComponent)
        ensures
            list == (SnippetListComponent { highlighted: None }),
    {
        SnippetListComponent { highlighted: None }
    }

    /// Before drawing: the highlight follows the selection.
    pub fn prepare(&mut self, state: &AppState)
        ensures
            final(self).highlighted == Some(state.selected_index),
    {
        self.highlighted = Some(state.selected_index);
    }

    /// What a key press in the list does to the state: `j` selects the
    /// next entry, `k` the previous one, `a` opens the form for a new
    /// snippet.
    pub open spec fn reaction(state: AppState, event: Event) -> AppState {
        match event.pressed() {
            Some(KeyCode::Char('j')) => AppState {
                selected_index: next_index(
                    state.selected_index as int,
                    state.filtered().len() as int,
                ) as usize,
                ..state
            },
            Some(KeyCode::Char('k')) => AppState {
                selected_index: previous_index(
                    state.selected_index as int,
                    state.filtered().len() as int,
                ) as usize,
                ..state
            },
            Some(KeyCode::Char('a')) => AppState { mode: AppMode::Popup, ..state },
            _ => state,
        }
    }

    /// Selects the entry after the selected one, wrapping to the first.
    /// Nothing changes while the filtered list is empty.
    pub fn select_next(&self, state: &mut AppState)
        ensures
            *final(state) == (AppState {
                selected_index: next_index(
                    old(state).selected_index as int,
                    old(state).filtered().len() as int,
                ) as usize,
                ..*old(state)
            }),
            final(state).selected_index == next_index(
                old(state).selected_index as int,
                old(state).filtered().len() as int,
            ),
    {
        let length = state.filtered_snippets().len();
        state.selected_index = step_forward(state.selected_index, length);
    }

    /// Selects the entry before the selected one, wrapping to the last.
    /// Nothing changes while the filtered list is empty.
    pub fn select_previous(&self, state: &mut AppState)
        ensures
            *final(state) == (AppState {
                selected_index: previous_index(
                    old(state).selected_index as int,
                    old(state).filtered().len() as int,
                ) as usize,
                ..*old(state)
            }),
            final(state).selected_index == previous_index(
                old(state).selected_index as int,
                old(state).filtered().len() as int,
            ),
    {
        let length = state.filtered_snippets().len();
        state.selected_index = step_back(state.selected_index, length);
    }
}

impl Component for SnippetListComponent {
    /// The list takes every event.
    open spec fn accepts(&self, state: &AppState, event: Event) -> bool {
        true
    }

    /// What an event does to the list and the state: the list stays as it
    /// is, and the state reacts as `reaction` says.
    open spec fn handled(
        &self,
        state: AppState,
        event: Event,
        after: SnippetListComponent,
        after_state: AppState,
    ) -> bool {
        after == *self && after_state == Self::reaction(state, event)
    }

    fn handle_event(&mut self, event: &Event, state: &mut AppState) {
        match event.pressed_key() {
            Some(KeyCode::Char(c)) => {
                if c == 'j' {
                    self.select_next(state);
                } else if c == 'k' {
                    self.select_previous(state);
                } else if c == 'a' {
                    state.mode = AppMode::Popup;
                }
            },
            _ => {},
        }
    }
}

/// What a key press does to the editor's text. Printable keys are typed,
/// Enter types a line break and Tab four spaces, Backspace deletes, and the
/// arrows move the cursor by one character, stopping at either end.
pub open spec fn editor_key_effect(text: Text, code: KeyCode) -> Text {
    match code {
        KeyCode::Char(c) => text.insert(c),
        KeyCode::Enter => text.insert('\n'),
        KeyCode::Backspace => text.delete(),
        KeyCode::Left => if text.cursor() == 0 {
            text
        } else {
            text.relocate(text.cursor() - 1)
        },
        KeyCode::Right => if text.cursor() < text.content().len() {
            text.relocate(text.cursor() + 1)
        } else {
            text
        },
        KeyCode::Tab => text.insert(' ').insert(' ').insert(' ').insert(' '),
        _ => text,
    }
}

/// How many characters a key types into the editor.
pub open spec fn editor_key_types(code: KeyCode) -> nat {
    match code {
        KeyCode::Char(_) => 1,
        KeyCode::Enter => 1,
        KeyCode::Tab => TAB_SIZE as nat,
        _ => 0,
    }
}

/// Whether a key press leaves the editor's buffer untouched: Backspace and
/// Left at the start of the text, Right at its end, and the keys that the
/// editor does not listen to.
pub open spec fn editor_key_idle(text: Text, code: KeyCode) -> bool {
    match code {
        KeyCode::Char(_) => false,
        KeyCode::Enter => false,
        KeyCode::Tab => false,
        KeyCode::Backspace => text.cursor() == 0,
        KeyCode::Left => text.cursor() == 0,
        KeyCode::Right => text.cursor() == text.content().len(),
        _ => true,
    }
}

/// The surface on which the selected snippet's code is edited.
pub struct EditorComponent {
    /// The text being edited; `None` until a snippet has been loaded.
    pub gap_buffer: Option<GapBuffer>,
    /// Position in the snippet list of the snippet that was loaded.
    pub selected_index: Option<usize>,
    pub cursor_coordinates: (u16, u16),
}

impl EditorComponent {
    /// Whether nothing has been loaded into the editor yet: no text, no
    /// snippet, and the cursor at the origin.
    pub open spec fn is_fresh(&self) -> bool {
        *self == (EditorComponent {
            gap_buffer: None,
            selected_index: None,
            cursor_coordinates: (0u16, 0u16),
        })
    }

    /// An editor into which nothing has been loaded yet.
    pub fn new() -> (editor: EditorComponent)
        ensures
            editor.is_fresh(),
    {
        EditorComponent { gap_buffer: None, selected_index: None, cursor_coordinates: (0, 0) }
    }

    /// A text is loaded and its buffer is well formed.
    pub open spec fn loaded(&self) -> bool {
        self.gap_buffer matches Some(buffer) && buffer.wf()
    }

    /// Before drawing: when the selection has moved to another snippet, its
    /// code is loaded into a fresh buffer with the cursor at the end.
    /// Otherwise nothing changes.
    pub fn prepare(&mut self, state: &AppState)
        requires
            state.selected() is Some,
            old(self).selected_index == state.selected() ==> old(self).loaded(),
            old(self).selected_index != state.selected() ==> state.snippet_list@[state.selected()->0 as int].code@.len()
                + EDITOR_BUFFER_SIZE <= usize::MAX,
        ensures
            final(self).loaded(),
            final(self).selected_index == state.selected(),
            final(self).cursor_coordinates == old(self).cursor_coordinates,
            old(self).selected_index == state.selected() ==> *final(self) == *old(self),
            old(self).selected_index != state.selected() ==> {
                let buffer = final(self).gap_buffer->0;
                &&& buffer@.before == state.snippet_list@[state.selected()->0 as int].code@
                &&& buffer@.after == Seq::<char>::empty()
                &&& buffer.capacity == EDITOR_BUFFER_SIZE
                &&& buffer.gap_width() == EDITOR_BUFFER_SIZE
            },
    {
        let selected = state.get_selected_snippet_index();
        if !same_index(self.selected_index, selected) {
            match state.get_content() {
                Some(content) => {
                    self.gap_buffer = Some(GapBuffer::from_str(content.as_str(), EDITOR_BUFFER_SIZE));
                    self.selected_index = selected;
                },
                None => {},
            }
        }
    }

    /// Before drawing, where it is not known that a snippet is selected:
    /// does what `prepare` does if one is and its code can be loaded, and
    /// says so; otherwise leaves the editor as it is and returns `false`.
    pub fn try_prepare(&mut self, state: &AppState) -> (done: bool)
        requires
            old(self).selected_index is Some ==> old(self).loaded(),
        ensures
            done ==> final(self).loaded() && final(self).selected_index == state.selected(),
            !done ==> *final(self) == *old(self),
            done <==> state.selected() is Some && (old(self).selected_index != state.selected()
                ==> state.snippet_list@[state.selected()->0 as int].code@.len()
                + EDITOR_BUFFER_SIZE <= usize::MAX),
    {
        let selected = match state.get_selected_snippet_index() {
            Some(selected) => selected,
            None => {
                return false;
            },
        };
        if !same_index(self.selected_index, Some(selected)) {
            let chars: usize = state.snippet_list[selected].code.as_str().unicode_len();
            if chars > usize::MAX - EDITOR_BUFFER_SIZE {
                return false;
            }
        }
        self.prepare(state);
        true
    }

    /// Whether the editor can take `event`.
    pub fn accepts_event(&self, state: &AppState, event: &Event) -> (ok: bool)
        requires
            self.loaded(),
        ensures
            ok == self.accepts(state, *event),
    {
        let code = match event.pressed_key() {
            Some(code) => code,
            None => {
                return true;
            },
        };
        let buffer = match &self.gap_buffer {
            Some(buffer) => buffer,
            None => {
                return false;
            },
        };
        let typed: usize = match code {
            KeyCode::Char(_) => 1,
            KeyCode::Enter => 1,
            KeyCode::Tab => TAB_SIZE,
            _ => 0,
        };
        if !buffer.has_room(typed) {
            return false;
        }
        let ghost before = buffer@.before;
        let ghost after = editor_key_effect(buffer@, code).before;
        assert(buffer.gap_start < buffer.buffer.len());
        let upto: usize = match code {
            KeyCode::Backspace | KeyCode::Left => if buffer.gap_start > 0 {
                buffer.gap_start - 1
            } else {
                0
            },
            _ => buffer.gap_start,
        };
        let place: (usize, usize) = locate(buffer, upto);
        let ghost base = before.take(upto as int);
        let typed_char: Option<char> = match code {
            KeyCode::Char(c) => Some(c),
            KeyCode::Enter => Some('\n'),
            KeyCode::Right => if buffer.gap_end + 1 < buffer.buffer.len() {
                Some(buffer.buffer[buffer.gap_end + 1])
            } else {
                None
            },
            _ => None,
        };
        proof {
            assert(before.take(before.len() as int) =~= before);
            match code {
                KeyCode::Char(c) => {
                    assert(after == base.push(c));
                },
                KeyCode::Enter => {
                    assert(after == base.push('\n'));
                },
                KeyCode::Right => {
                    if buffer@.after.len() > 0 {
                        assert(after =~= base.push(buffer@.after[0]));
                    }
                },
                KeyCode::Backspace | KeyCode::Left => {
                    assert(after =~= base);
                },
                KeyCode::Tab => {
                    lemma_push(base, ' ');
                    lemma_push(base.push(' '), ' ');
                    lemma_push(base.push(' ').push(' '), ' ');
                    lemma_push(base.push(' ').push(' ').push(' '), ' ');
                },
                _ => {},
            }
            if typed_char is Some {
                lemma_push(base, typed_char->0);
            }
        }
        // Beyond the last screen coordinate the exact place no longer
        // matters, so the arithmetic below stays small.
        let limit: usize = 0x10000;
        let mut row: usize = if place.0 > limit {
            limit
        } else {
            place.0
        };
        let mut col: usize = if place.1 > limit {
            limit
        } else {
            place.1
        };
        match typed_char {
            Some(c) => {
                if c == '\n' {
                    row = row + 1;
                    col = 0;
                } else {
                    col = col + 1;
                }
            },
            None => {},
        }
        match code {
            KeyCode::Tab => {
                col = col + TAB_SIZE;
            },
            _ => {},
        }
        assert(place_on_screen(row as int, col as int, state.current_area, PADDING_SIZE as int)
            == place_on_screen(
            line_number(after),
            column(after),
            state.current_area,
            PADDING_SIZE as int,
        ));
        place_fits(row, col, state.current_area, PADDING_SIZE)
    }

    /// What writing `content` back does to the state: the selected snippet
    /// gets it as its code and nothing else changes. With nothing selected,
    /// nothing is written.
    pub open spec fn synced(content: Seq<char>, state: AppState, after: AppState) -> bool {
        &&& state.selected() is None ==> after == state
        &&& state.selected() matches Some(index) ==> {
            &&& after.snippet_list@.len() == state.snippet_list@.len()
            &&& after.snippet_list@[index as int].code@ == content
            &&& after.snippet_list@[index as int].title == state.snippet_list@[index as int].title
            &&& after.snippet_list@[index as int].language
                == state.snippet_list@[index as int].language
            &&& forall|i: int|
                0 <= i < state.snippet_list@.len() && i != index ==> after.snippet_list@[i]
                    == state.snippet_list@[i]
            &&& after == (AppState { snippet_list: after.snippet_list, ..state })
        }
    }

    /// Writes the edited text back into the snippet that is selected.
    pub fn sync_buffer_to_state(&mut self, state: &mut AppState)
        requires
            old(self).loaded(),
        ensures
            *final(self) == *old(self),
            Self::synced(old(self).gap_buffer->0@.content(), *old(state), *final(state)),
    {
        let new_code = match &self.gap_buffer {
            Some(buffer) => buffer.to_string(),
            None => {
                return ;
            },
        };
        match state.get_selected_snippet_index() {
            Some(actual_index) => {
                let snippet = Snippet {
                    language: state.snippet_list[actual_index].language.clone(),
                    code: new_code,
                    title: state.snippet_list[actual_index].title.clone(),
                };
                state.snippet_list.set(actual_index, snippet);
            },
            None => {},
        }
    }
}

impl Component for EditorComponent {
    /// What the editor needs in order to take an event: a loaded text and,
    /// for a key press, room for what the key types and a cursor position
    /// that fits the screen's coordinates.
    open spec fn accepts(&self, state: &AppState, event: Event) -> bool {
        &&& self.loaded()
        &&& event.pressed() matches Some(code) ==> {
            &&& self.gap_buffer->0.fits(editor_key_types(code))
            &&& cursor_on_screen(
                editor_key_effect(self.gap_buffer->0@, code).before,
                state.current_area,
                PADDING_SIZE as int,
            )
        }
    }

    /// What an event does to the editor and the state: a key press edits
    /// the text, puts the cursor where the edit left it and gives the
    /// editor the focus; any other event changes nothing.
    open spec fn handled(
        &self,
        state: AppState,
        event: Event,
        after: EditorComponent,
        after_state: AppState,
    ) -> bool {
        &&& after.loaded()
        &&& after.selected_index == self.selected_index
        &&& event.pressed() is None ==> after == *self && after_state == state
        &&& event.pressed() matches Some(code) ==> {
            &&& after.gap_buffer->0@ == editor_key_effect(self.gap_buffer->0@, code)
            &&& after.gap_buffer->0.spec_len() == after.gap_buffer->0@.content().len()
            &&& editor_key_idle(self.gap_buffer->0@, code) ==> after.gap_buffer
                == self.gap_buffer
            &&& (after.cursor_coordinates.0 as int, after.cursor_coordinates.1 as int)
                == cursor_cell(
                after.gap_buffer->0@.before,
                state.current_area,
                PADDING_SIZE as int,
            )
            &&& after_state == (AppState { focused_editor: true, ..state })
        }
    }

    /// Applies an event to the text being edited.
    fn handle_event(&mut self, event: &Event, state: &mut AppState) {
        let code = match event.pressed_key() {
            Some(code) => code,
            None => {
                return ;
            },
        };
        let mut buffer = match self.gap_buffer.take() {
            Some(buffer) => buffer,
            None => {
                return ;
            },
        };
        let ghost start = buffer@;
        match code {
            KeyCode::Char(c) => {
                buffer.insert_char(c);
            },
            KeyCode::Enter => {
                buffer.insert_char('\n');
            },
            KeyCode::Backspace => {
                buffer.delete_char();
            },
            KeyCode::Left => {
                if buffer.gap_start > 0 {
                    buffer.move_gap(buffer.gap_start - 1);
                }
            },
            KeyCode::Right => {
                assert(buffer.gap_start < buffer.buffer.len());
                buffer.move_gap(buffer.gap_start + 1);
            },
            KeyCode::Tab => {
                let mut typed: usize = 0;
                while typed < TAB_SIZE
                    invariant
                        typed <= TAB_SIZE,
                        buffer.wf(),
                        buffer.fits((TAB_SIZE - typed) as nat),
                        typed == 0 ==> buffer@ == start,
                        typed == 1 ==> buffer@ == start.insert(' '),
                        typed == 2 ==> buffer@ == start.insert(' ').insert(' '),
                        typed == 3 ==> buffer@ == start.insert(' ').insert(' ').insert(' '),
                        typed == 4 ==> buffer@ == start.insert(' ').insert(' ').insert(' ').insert(
                            ' ',
                        ),
                    decreases TAB_SIZE - typed,
                {
                    buffer.insert_char(' ');
                    typed = typed + 1;
                }
            },
            _ => {},
        }
        self.cursor_coordinates = project_cursor(&buffer, state.current_area, PADDING_SIZE);
        proof {
            buffer.lemma_spec_len();
        }
        self.gap_buffer = Some(buffer);
        state.focus_editor();
    }
}

/// Whether two optional positions are the same.
fn same_index(a: Option<usize>, b: Option<usize>) -> (same: bool)
    ensures
        same == (a == b),
{
    match (a, b) {
        (Some(x), Some(y)) => x == y,
        (None, None) => true,
        _ => false,
    }
}

/// What a key press does to the text of a one-line input: printable keys
/// are typed and Backspace deletes.
pub open spec fn input_key_effect(text: Text, code: KeyCode) -> Text {
    match code {
        KeyCode::Char(c) => text.insert(c),
        KeyCode::Backspace => text.delete(),
        _ => text,
    }
}

/// Whether a key press leaves a one-line input's buffer untouched:
/// Backspace at the start of the text, and every key but the printable
/// ones and Backspace.
pub open spec fn input_key_idle(text: Text, code: KeyCode) -> bool {
    match code {
        KeyCode::Char(_) => false,
        KeyCode::Backspace => text.cursor() == 0,
        _ => true,
    }
}

/// How many characters a key types into a one-line input.
pub open spec fn input_key_types(code: KeyCode) -> nat {
    match code {
        KeyCode::Char(_) => 1,
        _ => 0,
    }
}

/// The box in which the search query is typed.
pub struct SearchComponent {
    pub gap_buffer: GapBuffer,
    pub coordinates: (u16, u16),
}

impl SearchComponent {
    /// Whether nothing has been typed into the search box yet: an empty
    /// input, and the cursor at the origin.
    pub open spec fn is_fresh(&self) -> bool {
        is_empty_input(self.gap_buffer) && self.coordinates == (0u16, 0u16)
    }

    /// A search box with an empty query.
    pub fn new() -> (search: SearchComponent)
        ensures
            search.is_fresh(),
            search.gap_buffer@.content() == Seq::<char>::empty(),
            search.gap_buffer.gap_width() == SEARCH_BUFFER_SIZE,
    {
        SearchComponent { gap_buffer: empty_input(), coordinates: (0, 0) }
    }

    /// Whether the search box can take `event`.
    pub fn accepts_event(&self, state: &AppState, event: &Event) -> (ok: bool)
        requires
            self.gap_buffer.wf(),
        ensures
            ok == self.accepts(state, *event),
    {
        match event.pressed_key() {
            Some(code) => input_accepts(&self.gap_buffer, code, state.current_area),
            None => true,
        }
    }
}

impl Component for SearchComponent {
    /// What the search box needs in order to take an event: for a key
    /// press, room for a typed character and a cursor position that fits
    /// the screen's coordinates.
    open spec fn accepts(&self, state: &AppState, event: Event) -> bool {
        &&& self.gap_buffer.wf()
        &&& event.pressed() matches Some(code) ==> {
            &&& self.gap_buffer.fits(input_key_types(code))
            &&& input_on_screen(
                input_key_effect(self.gap_buffer@, code).cursor(),
                state.current_area,
            )
        }
    }

    /// What an event does to the search box and the state. A key press
    /// edits the query being typed; Enter makes it the query that filters
    /// the list and selects the first entry. The cursor goes behind the
    /// typed text and the box gets the focus. Any other event changes
    /// nothing.
    open spec fn handled(
        &self,
        state: AppState,
        event: Event,
        after: SearchComponent,
        after_state: AppState,
    ) -> bool {
        &&& after.gap_buffer.wf()
        &&& event.pressed() is None ==> after == *self && after_state == state
        &&& event.pressed() matches Some(code) ==> {
            &&& after.gap_buffer@ == input_key_effect(self.gap_buffer@, code)
            &&& after.gap_buffer.spec_len() == after.gap_buffer@.content().len()
            &&& input_key_idle(self.gap_buffer@, code) ==> after.gap_buffer == self.gap_buffer
            &&& (after.coordinates.0 as int, after.coordinates.1 as int) == input_cell(
                after.gap_buffer@.cursor(),
                state.current_area,
            )
            &&& code != KeyCode::Enter ==> after_state == (AppState {
                focused_search: true,
                ..state
            })
            &&& code == KeyCode::Enter ==> after_state.search_query@ == self.gap_buffer@.content()
                && after_state == (AppState {
                focused_search: true,
                selected_index: 0,
                search_query: after_state.search_query,
                ..state
            })
        }
    }

    /// Applies an event to the query being typed.
    fn handle_event(&mut self, event: &Event, state: &mut AppState) {
        let code = match event.pressed_key() {
            Some(code) => code,
            None => {
                return ;
            },
        };
        match code {
            KeyCode::Char(c) => {
                self.gap_buffer.insert_char(c);
            },
            KeyCode::Backspace => {
                self.gap_buffer.delete_char();
            },
            KeyCode::Enter => {
                state.search_query = self.gap_buffer.to_string();
                state.selected_index = 0;
            },
            _ => {},
        }
        self.coordinates = input_cursor(self.gap_buffer.gap_start, state.current_area);
        proof {
            self.gap_buffer.lemma_spec_len();
        }
        state.focus_search();
    }
}

/// Whether a one-line input drawn in `area` can take the key `code`: room
/// for a typed character, and a cursor that fits the screen's coordinates
/// afterwards.
pub fn input_accepts(buffer: &GapBuffer, code: KeyCode, area: Rect) -> (ok: bool)
    requires
        buffer.wf(),
    ensures
        ok == (buffer.fits(input_key_types(code)) && input_on_screen(
            input_key_effect(buffer@, code).cursor(),
            area,
        )),
{
    assert(buffer.gap_start < buffer.buffer.len());
    match code {
        KeyCode::Char(_) => buffer.has_room(1) && input_fits(buffer.gap_start + 1, area),
        KeyCode::Backspace => {
            let typed: usize = if buffer.gap_start > 0 {
                buffer.gap_start - 1
            } else {
                0
            };
            input_fits(typed, area)
        },
        _ => input_fits(buffer.gap_start, area),
    }
}

/// Whether `buffer` is a one-line input that nothing has been typed into:
/// no text, and `SEARCH_BUFFER_SIZE` unused slots behind the cursor.
pub open spec fn is_empty_input(buffer: GapBuffer) -> bool {
    &&& buffer.wf()
    &&& buffer.buffer@ == Seq::new(SEARCH_BUFFER_SIZE as nat, |i: int| FILLER)
    &&& buffer.gap_start == 0
    &&& buffer.gap_end == SEARCH_BUFFER_SIZE - 1
    &&& buffer.capacity == SEARCH_BUFFER_SIZE
}

/// An empty one-line input.
fn empty_input() -> (buffer: GapBuffer)
    ensures
        is_empty_input(buffer),
        buffer@.before == Seq::<char>::empty(),
        buffer@.after == Seq::<char>::empty(),
        buffer.gap_width() == SEARCH_BUFFER_SIZE,
{
    proof {
        reveal_strlit("");
    }
    let buffer = GapBuffer::from_str("", SEARCH_BUFFER_SIZE);
    assert(buffer.buffer@ =~= Seq::new(SEARCH_BUFFER_SIZE as nat, |i: int| FILLER));
    buffer
}

/// The two fields of the form for a new snippet.
#[derive(Clone, Copy, Debug, PartialEq, Eq, Structural)]
pub enum Input {
    Title,
    Language,
}

/// The form in which a new snippet gets its title and language.
pub struct AddSnippetPopupComponent {
    pub title_input: GapBuffer,
    pub language_input: GapBuffer,
    pub cursor_position: (u16, u16),
    pub focused_input: Input,
    /// The region of the field that has the focus.
    pub current_area: Rect,
    pub should_show_cursor: bool,
    pub title_area: Rect,
    pub language_area: Rect,
}

/// The region of the form on a screen of the given size: a third of the
/// screen each way, centred.
pub fn popup_area(screen: Rect) -> (area: Rect)
    ensures
        area.width == screen.width / 3,
        area.height == screen.height / 3,
        area.x == screen.width / 2 - area.width / 2,
        area.y == screen.height / 2 - area.height / 2,
{
    let width: u16 = screen.width / 3;
    let height: u16 = screen.height / 3;
    Rect { x: screen.width / 2 - width / 2, y: screen.height / 2 - height / 2, width, height }
}

impl AddSnippetPopupComponent {
    /// Whether the form is as it is before its first use: both inputs
    /// empty, the focus on the language, no cursor shown, and no region
    /// known yet.
    pub open spec fn is_fresh(&self) -> bool {
        &&& is_empty_input(self.title_input)
        &&& is_empty_input(self.language_input)
        &&& self.cursor_position == (0u16, 0u16)
        &&& self.focused_input == Input::Language
        &&& self.current_area == (Rect { x: 0, y: 0, width: 0, height: 0 })
        &&& self.title_area == (Rect { x: 0, y: 0, width: 0, height: 0 })
        &&& self.language_area == (Rect { x: 0, y: 0, width: 0, height: 0 })
        &&& !self.should_show_cursor
    }

    /// A form that nothing has been typed into, with the focus on the
    /// language.
    pub fn new() -> (popup: AddSnippetPopupComponent)
        ensures
            popup.is_fresh(),
            popup.wf(),
            popup.title_input@.content() == Seq::<char>::empty(),
            popup.language_input@.content() == Seq::<char>::empty(),
            popup.title_input.gap_width() == SEARCH_BUFFER_SIZE,
            popup.language_input.gap_width() == SEARCH_BUFFER_SIZE,
    {
        AddSnippetPopupComponent {
            title_input: empty_input(),
            language_input: empty_input(),
            cursor_position: (0, 0),
            focused_input: Input::Language,
            current_area: Rect::empty(),
            should_show_cursor: false,
            title_area: Rect::empty(),
            language_area: Rect::empty(),
        }
    }

    /// Both inputs are well formed.
    pub open spec fn wf(&self) -> bool {
        self.title_input.wf() && self.language_input.wf()
    }

    /// The input that has the focus.
    pub open spec fn active(&self) -> GapBuffer {
        match self.focused_input {
            Input::Title => self.title_input,
            Input::Language => self.language_input,
        }
    }

    /// The input that does not have the focus.
    pub open spec fn inactive(&self) -> GapBuffer {
        match self.focused_input {
            Input::Title => self.language_input,
            Input::Language => self.title_input,
        }
    }

    /// The region of the input that does not have the focus.
    pub open spec fn inactive_area(&self) -> Rect {
        match self.focused_input {
            Input::Title => self.language_area,
            Input::Language => self.title_area,
        }
    }

    /// After layout: the form learns where its two fields are drawn.
    pub fn prepare(&mut self, language_area: Rect, title_area: Rect)
        ensures
            *final(self) == (AddSnippetPopupComponent {
                current_area: match old(self).focused_input {
                    Input::Title => title_area,
                    Input::Language => language_area,
                },
                title_area,
                language_area,
                ..*old(self)
            }),
    {
        self.title_area = title_area;
        self.language_area = language_area;
        match self.focused_input {
            Input::Title => {
                self.current_area = title_area;
            },
            Input::Language => {
                self.current_area = language_area;
            },
        }
    }

    /// What a key press does to the form itself. `A` and keys that the form
    /// does not listen to leave it as it is; a typed character or Backspace
    /// edits the focused input and shows the cursor behind its text; Enter
    /// moves the focus, and the cursor, to the other input.
    pub open spec fn reaction(self, code: KeyCode, after: AddSnippetPopupComponent) -> bool {
        match code {
            KeyCode::Char('A') => after == self,
            KeyCode::Char(_) | KeyCode::Backspace => {
                &&& after.active()@ == input_key_effect(self.active()@, code)
                &&& after.active().spec_len() == after.active()@.content().len()
                &&& input_key_idle(self.active()@, code) ==> after.active() == self.active()
                &&& after.inactive() == self.inactive()
                &&& after.focused_input == self.focused_input
                &&& after.should_show_cursor
                &&& after.current_area == self.current_area
                &&& after.title_area == self.title_area
                &&& after.language_area == self.language_area
                &&& (after.cursor_position.0 as int, after.cursor_position.1 as int) == input_cell(
                    after.active()@.cursor(),
                    self.current_area,
                )
            },
            KeyCode::Enter => {
                &&& after.focused_input != self.focused_input
                &&& after.title_input == self.title_input
                &&& after.language_input == self.language_input
                &&& after.should_show_cursor == self.should_show_cursor
                &&& after.current_area == self.inactive_area()
                &&& after.title_area == self.title_area
                &&& after.language_area == self.language_area
                &&& (after.cursor_position.0 as int, after.cursor_position.1 as int) == input_cell(
                    self.inactive()@.cursor(),
                    self.inactive_area(),
                )
            },
            _ => after == self,
        }
    }

    /// What `A` does to the state: a snippet with the title and language
    /// typed so far, and no code, joins the end of the list, and the
    /// application returns to command mode.
    pub open spec fn added(self, state: AppState, after_state: AppState) -> bool {
        let added = after_state.snippet_list@.last();
        &&& after_state.snippet_list@.len() == state.snippet_list@.len() + 1
        &&& after_state.snippet_list@.drop_last() == state.snippet_list@
        &&& added.title@ == self.title_input@.content()
        &&& added.language@ == self.language_input@.content()
        &&& added.code@ == Seq::<char>::empty()
        &&& after_state == (AppState {
            snippet_list: after_state.snippet_list,
            mode: AppMode::Command,
            ..state
        })
    }

    /// Whether the form can take `event`.
    pub fn accepts_event(&self, state: &AppState, event: &Event) -> (ok: bool)
        requires
            self.wf(),
        ensures
            ok == self.accepts(state, *event),
    {
        let code = match event.pressed_key() {
            Some(code) => code,
            None => {
                return true;
            },
        };
        match code {
            KeyCode::Char(c) => {
                if c == 'A' {
                    true
                } else {
                    match self.focused_input {
                        Input::Title => input_accepts(&self.title_input, code, self.current_area),
                        Input::Language => input_accepts(
                            &self.language_input,
                            code,
                            self.current_area,
                        ),
                    }
                }
            },
            KeyCode::Backspace => {
                match self.focused_input {
                    Input::Title => input_accepts(&self.title_input, code, self.current_area),
                    Input::Language => input_accepts(&self.language_input, code, self.current_area),
                }
            },
            KeyCode::Enter => {
                match self.focused_input {
                    Input::Title => input_fits(self.language_input.gap_start, self.language_area),
                    Input::Language => input_fits(self.title_input.gap_start, self.title_area),
                }
            },
            _ => true,
        }
    }

    /// The input that has the focus, to be edited in place.
    pub fn active_buffer(&mut self) -> (buffer: &mut GapBuffer)
        ensures
            *buffer == old(self).active(),
            *final(self) == match old(self).focused_input {
                Input::Title => AddSnippetPopupComponent {
                    title_input: *final(buffer),
                    ..*old(self)
                },
                Input::Language => AddSnippetPopupComponent {
                    language_input: *final(buffer),
                    ..*old(self)
                },
            },
    {
        match self.focused_input {
            Input::Title => &mut self.title_input,
            Input::Language => &mut self.language_input,
        }
    }

    /// Types `c` into the focused input and moves the cursor behind it.
    pub fn insert_char(&mut self, c: char)
        requires
            old(self).wf(),
            old(self).active().fits(1),
            input_on_screen(old(self).active()@.cursor() + 1, old(self).current_area),
        ensures
            final(self).wf(),
            final(self).active()@ == old(self).active()@.insert(c),
            final(self).inactive() == old(self).inactive(),
            (final(self).cursor_position.0 as int, final(self).cursor_position.1 as int)
                == input_cell(final(self).active()@.cursor(), old(self).current_area),
            final(self).focused_input == old(self).focused_input,
            final(self).should_show_cursor == old(self).should_show_cursor,
            final(self).current_area == old(self).current_area,
            final(self).title_area == old(self).title_area,
            final(self).language_area == old(self).language_area,
    {
        let buffer = self.active_buffer();
        buffer.insert_char(c);
        let gap_start: usize = buffer.gap_start;
        self.update_cursor_position(gap_start);
    }

    /// Deletes the character before the cursor of the focused input and
    /// moves the cursor back.
    pub fn delete_char(&mut self)
        requires
            old(self).wf(),
            input_on_screen(old(self).active()@.delete().cursor(), old(self).current_area),
        ensures
            final(self).wf(),
            final(self).active()@ == old(self).active()@.delete(),
            old(self).active().gap_start == 0 ==> final(self).active() == old(self).active(),
            final(self).inactive() == old(self).inactive(),
            (final(self).cursor_position.0 as int, final(self).cursor_position.1 as int)
                == input_cell(final(self).active()@.cursor(), old(self).current_area),
            final(self).focused_input == old(self).focused_input,
            final(self).should_show_cursor == old(self).should_show_cursor,
            final(self).current_area == old(self).current_area,
            final(self).title_area == old(self).title_area,
            final(self).language_area == old(self).language_area,
    {
        let buffer = self.active_buffer();
        buffer.delete_char();
        let gap_start: usize = buffer.gap_start;
        self.update_cursor_position(gap_start);
    }

    /// Puts the cursor behind `gap_start` characters in the focused field.
    pub fn update_cursor_position(&mut self, gap_start: usize)
        requires
            input_on_screen(gap_start as int, old(self).current_area),
        ensures
            *final(self) == (AddSnippetPopupComponent {
                cursor_position: final(self).cursor_position,
                ..*old(self)
            }),
            (final(self).cursor_position.0 as int, final(self).cursor_position.1 as int)
                == input_cell(gap_start as int, old(self).current_area),
    {
        self.cursor_position = input_cursor(gap_start, self.current_area);
    }

    /// Moves the focus, and the cursor, to the other input.
    pub fn toggle_focused_input(&mut self)
        requires
            old(self).wf(),
            input_on_screen(old(self).inactive()@.cursor(), old(self).inactive_area()),
        ensures
            old(self).reaction(KeyCode::Enter, *final(self)),
            final(self).wf(),
    {
        match self.focused_input {
            Input::Title => {
                self.focused_input = Input::Language;
                self.current_area = self.language_area;
                self.update_cursor_position(self.language_input.gap_start);
            },
            Input::Language => {
                self.focused_input = Input::Title;
                self.current_area = self.title_area;
                self.update_cursor_position(self.title_input.gap_start);
            },
        }
    }
}

impl Component for AddSnippetPopupComponent {
    /// What the form needs in order to take an event: well-formed inputs
    /// and, for a key press, room for a typed character and a cursor
    /// position that fits the screen's coordinates.
    open spec fn accepts(&self, state: &AppState, event: Event) -> bool {
        &&& self.wf()
        &&& event.pressed() matches Some(code) ==> match code {
            KeyCode::Char('A') => true,
            KeyCode::Char(_) | KeyCode::Backspace => {
                &&& self.active().fits(input_key_types(code))
                &&& input_on_screen(
                    input_key_effect(self.active()@, code).cursor(),
                    self.current_area,
                )
            },
            KeyCode::Enter => input_on_screen(self.inactive()@.cursor(), self.inactive_area()),
            _ => true,
        }
    }

    /// What an event does to the form and the state. A key press fills in
    /// the form; `A` adds the snippet; nothing else touches the state.
    open spec fn handled(
        &self,
        state: AppState,
        event: Event,
        after: AddSnippetPopupComponent,
        after_state: AppState,
    ) -> bool {
        &&& after.wf()
        &&& event.pressed() is None ==> after == *self && after_state == state
        &&& event.pressed() matches Some(code) ==> self.reaction(code, after)
        &&& event.pressed() == Some(KeyCode::Char('A')) ==> self.added(state, after_state)
        &&& event.pressed() != Some(KeyCode::Char('A')) ==> after_state == state
    }

    /// Applies an event to the form.
    fn handle_event(&mut self, event: &Event, state: &mut AppState) {
        let code = match event.pressed_key() {
            Some(code) => code,
            None => {
                return ;
            },
        };
        match code {
            KeyCode::Char(c) => {
                if c == 'A' {
                    let snippet = Snippet {
                        title: self.title_input.to_string(),
                        language: self.language_input.to_string(),
                        code: String::new(),
                    };
                    state.snippet_list.push(snippet);
                    state.mode = AppMode::Command;
                    assert(state.snippet_list@.drop_last() =~= old(state).snippet_list@);
                } else {
                    self.insert_char(c);
                    self.should_show_cursor = true;
                }
            },
            KeyCode::Backspace => {
                self.delete_char();
                self.should_show_cursor = true;
            },
            KeyCode::Enter => {
                self.toggle_focused_input();
            },
            _ => {},
        }
    }
}

/// The four widgets of the application.
pub struct ViewManager {
    pub snippet_list_component: SnippetListComponent,
    pub editor_component: EditorComponent,
    pub search_component: SearchComponent,
    pub add_snippet_popup_component: AddSnippetPopupComponent,
}

impl ViewManager {
    /// Whether all four widgets are as they are before their first use:
    /// nothing highlighted in the list, nothing loaded into the editor, an
    /// empty search box, and an empty form with the focus on the language.
    pub open spec fn is_fresh(&self) -> bool {
        &&& self.snippet_list_component == (SnippetListComponent { highlighted: None })
        &&& self.editor_component.is_fresh()
        &&& self.search_component.is_fresh()
        &&& self.add_snippet_popup_component.is_fresh()
    }

    /// The four widgets, each as it is before its first use.
    pub fn new() -> (views: ViewManager)
        ensures
            views.is_fresh(),
            views.search_component.gap_buffer@.content() == Seq::<char>::empty(),
            views.add_snippet_popup_component.title_input@.content() == Seq::<char>::empty(),
            views.add_snippet_popup_component.language_input@.content() == Seq::<char>::empty(),
    {
        ViewManager {
            snippet_list_component: SnippetListComponent::new(),
            editor_component: EditorComponent::new(),
            search_component: SearchComponent::new(),
            add_snippet_popup_component: AddSnippetPopupComponent::new(),
        }
    }
}

} // verus!
