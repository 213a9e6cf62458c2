//! The application state: the snippets, the search query that filters them,
//! the selection within the filtered list, the interaction mode and the
//! focus flags.

use vstd::prelude::*;
use crate::event::{Event, KeyCode, Rect};
use crate::view::{Component, EditorComponent, SnippetListComponent, ViewManager};
use crate::filter::{containing, lemma_containing, lemma_containing_all, positions_containing, texts_of};
use crate::strings::{is_substring, lowercase, to_lowercase};

verus! {

/// A named piece of text with the language it is written in.
#[derive(Clone, Debug, PartialEq, Eq)]
pub struct Snippet {
    pub language: String,
    pub code: String,
    pub title: String,
}

/// What the keyboard currently acts on.
#[derive(Clone, Copy, Debug, PartialEq, Eq, Structural)]
pub enum AppMode {
    Select,
    Search,
    Edit,
    Command,
    Popup,
}

/// Whether a title passes a query: the query, lower-cased, occurs in the
/// lower-cased title.
pub open spec fn title_matches(title: Seq<char>, query: Seq<char>) -> bool {
    is_substring(lowercase(query), lowercase(title))
}

/// The lower-cased titles of `snippets`, in list order.
pub open spec fn folded_titles(snippets: Seq<Snippet>) -> Seq<Seq<char>> {
    Seq::new(snippets.len(), |i: int| lowercase(snippets[i].title@))
}

/// The positions of the snippets whose title passes `query`, in list order.
pub open spec fn matching(snippets: Seq<Snippet>, query: Seq<char>) -> Seq<int> {
    containing(folded_titles(snippets), lowercase(query))
}

/// `matching` lists exactly the positions whose title passes the query,
/// each once and in rising order.
pub proof fn lemma_matching(snippets: Seq<Snippet>, query: Seq<char>)
    ensures
        matching(snippets, query).len() <= snippets.len(),
        forall|k: int|
            0 <= k < matching(snippets, query).len() ==> {
                &&& 0 <= #[trigger] matching(snippets, query)[k] < snippets.len()
                &&& title_matches(snippets[matching(snippets, query)[k]].title@, query)
            },
        forall|j: int, k: int|
            0 <= j < k < matching(snippets, query).len() ==> matching(snippets, query)[j]
                < matching(snippets, query)[k],
        forall|i: int|
            0 <= i < snippets.len() && title_matches(#[trigger] snippets[i].title@, query)
                ==> matching(snippets, query).contains(i),
{
    let titles = folded_titles(snippets);
    let needle = lowercase(query);
    lemma_containing(titles, needle);
    assert forall|i: int|
        0 <= i < snippets.len() && title_matches(
            #[trigger] snippets[i].title@,
            query,
        ) implies matching(snippets, query).contains(i) by {
        assert(is_substring(needle, titles[i]));
    }
}

/// A query whose lower-case form is empty lets every snippet through, each
/// at its own position.
pub proof fn lemma_matching_all(snippets: Seq<Snippet>, query: Seq<char>)
    requires
        lowercase(query).len() == 0,
    ensures
        matching(snippets, query) == Seq::new(snippets.len(), |i: int| i),
{
    lemma_containing_all(folded_titles(snippets), lowercase(query));
}

/// Everything the widgets share.
pub struct AppState {
    pub snippet_list: Vec<Snippet>,
    pub selected_index: usize,
    pub mode: AppMode,
    pub should_exit: bool,
    pub current_area: Rect,
    pub focused_editor: bool,
    pub focused_search: bool,
    pub search_query: String,
}

impl AppState {
    /// The positions in `snippet_list` that the current query lets through.
    pub open spec fn filtered(&self) -> Seq<int> {
        matching(self.snippet_list@, self.search_query@)
    }

    /// The position in `snippet_list` of the selected snippet, if the
    /// selection points into the filtered list.
    pub open spec fn selected(&self) -> Option<usize> {
        if self.selected_index < self.filtered().len() {
            Some(self.filtered()[self.selected_index as int] as usize)
        } else {
            None
        }
    }

    /// The snippets that the query lets through, each with its position in
    /// `snippet_list`, in list order. An empty query lets all of them
    /// through.
    pub fn filtered_snippets(&self) -> (view: Vec<(usize, &Snippet)>)
        ensures
            view@.len() == self.filtered().len(),
            forall|k: int|
                0 <= k < view@.len() ==> {
                    &&& (#[trigger] view@[k]).0 == self.filtered()[k]
                    &&& view@[k].0 < self.snippet_list@.len()
                    &&& *view@[k].1 == self.snippet_list@[self.filtered()[k]]
                },
            forall|k: int|
                0 <= k < view@.len() ==> title_matches(
                    (#[trigger] view@[k]).1.title@,
                    self.search_query@,
                ),
            forall|j: int, k: int|
                0 <= j < k < view@.len() ==> (#[trigger] view@[j]).0 < (#[trigger] view@[k]).0,
            forall|i: int|
                0 <= i < self.snippet_list@.len() && title_matches(
                    #[trigger] self.snippet_list@[i].title@,
                    self.search_query@,
                ) ==> exists|k: int| 0 <= k < view@.len() && (#[trigger] view@[k]).0 == i,
            self.search_query@.len() == 0 ==> view@.len() == self.snippet_list@.len() && forall|
                k: int,
            |
                0 <= k < view@.len() ==> (#[trigger] view@[k]).0 == k,
    {
        let query = to_lowercase(self.search_query.as_str());
        let mut titles: Vec<String> = Vec::new();
        let mut i: usize = 0;
        while i < self.snippet_list.len()
            invariant
                i <= self.snippet_list@.len(),
                titles@.len() == i,
                forall|j: int|
                    0 <= j < i ==> (#[trigger] titles@[j])@ == lowercase(
                        self.snippet_list@[j].title@,
                    ),
            decreases self.snippet_list@.len() - i,
        {
            titles.push(to_lowercase(self.snippet_list[i].title.as_str()));
            i = i + 1;
        }
        assert(texts_of(titles@) =~= folded_titles(self.snippet_list@));
        let positions = positions_containing(&titles, query.as_str());
        let mut view: Vec<(usize, &Snippet)> = Vec::new();
        let mut k: usize = 0;
        while k < positions.len()
            invariant
                k <= positions@.len(),
                view@.len() == k,
                forall|m: int|
                    0 <= m < positions@.len() ==> #[trigger] positions@[m]
                        < self.snippet_list@.len(),
                forall|m: int|
                    0 <= m < k ==> {
                        &&& (#[trigger] view@[m]).0 == positions@[m]
                        &&& *view@[m].1 == self.snippet_list@[positions@[m] as int]
                    },
            decreases positions@.len() - k,
        {
            let position: usize = positions[k];
            view.push((position, &self.snippet_list[position]));
            k = k + 1;
        }
        proof {
            lemma_matching(self.snippet_list@, self.search_query@);
            assert forall|i: int|
                0 <= i < self.snippet_list@.len() && title_matches(
                    #[trigger] self.snippet_list@[i].title@,
                    self.search_query@,
                ) implies exists|k: int| 0 <= k < view@.len() && (#[trigger] view@[k]).0 == i by {
                let k = choose|k: int| 0 <= k < self.filtered().len() && self.filtered()[k] == i;
                assert(view@[k].0 == i);
            }
            if self.search_query@.len() == 0 {
                lemma_matching_all(self.snippet_list@, self.search_query@);
            }
        }
        view
    }

    /// The position in `snippet_list` of the selected snippet; `None` when
    /// the selection points past the filtered list, as it does whenever that
    /// list is empty.
    pub fn get_selected_snippet_index(&self) -> (index: Option<usize>)
        ensures
            index == self.selected(),
            index matches Some(i) ==> i < self.snippet_list@.len(),
    {
        let view = self.filtered_snippets();
        if self.selected_index < view.len() {
            Some(view[self.selected_index].0)
        } else {
            None
        }
    }

    /// The code of the selected snippet.
    pub fn get_content(&self) -> (content: Option<String>)
        ensures
            self.selected() is None <==> content is None,
            content matches Some(code) ==> code@ == self.snippet_list@[self.selected()->0 as int].code@,
    {
        match self.get_selected_snippet_index() {
            Some(actual_index) => Some(self.snippet_list[actual_index].code.clone()),
            None => None,
        }
    }

    /// The selected snippet.
    pub fn get_current_snippet(&self) -> (snippet: Option<&Snippet>)
        ensures
            self.selected() is None <==> snippet is None,
            snippet matches Some(s) ==> *s == self.snippet_list@[self.selected()->0 as int],
    {
        match self.get_selected_snippet_index() {
            Some(actual_index) => Some(&self.snippet_list[actual_index]),
            None => None,
        }
    }

    pub fn focus_editor(&mut self)
        ensures
            *final(self) == (AppState { focused_editor: true, ..*old(self) }),
    {
        self.focused_editor = true;
    }

    pub fn focus_search(&mut self)
        ensures
            *final(self) == (AppState { focused_search: true, ..*old(self) }),
    {
        self.focused_search = true;
    }

    pub fn blur_search(&mut self)
        ensures
            *final(self) == (AppState { focused_search: false, ..*old(self) }),
    {
        self.focused_search = false;
    }

    pub fn blur_editor(&mut self)
        ensures
            *final(self) == (AppState { focused_editor: false, ..*old(self) }),
    {
        self.focused_editor = false;
    }

    /// Takes the focus away from both inputs.
    pub fn blur(&mut self)
        ensures
            *final(self) == (AppState {
                focused_editor: false,
                focused_search: false,
                ..*old(self)
            }),
    {
        self.blur_search();
        self.blur_editor();
    }
}

/// What the run loop owes after an event has been handled.
#[derive(Clone, Copy, Debug, PartialEq, Eq, Structural)]
pub enum Action {
    /// Nothing: draw the next frame.
    Continue,
    /// The snippets are to be written to storage.
    Save,
}

/// What a key press does in command mode: `q` asks to leave, `e`, `s` and
/// `/` switch to editing, selecting and searching. Nothing else has a
/// meaning there.
pub open spec fn command_reaction(state: AppState, event: Event) -> AppState {
    match event.pressed() {
        Some(KeyCode::Char('q')) => AppState { should_exit: true, ..state },
        Some(KeyCode::Char('e')) => AppState { mode: AppMode::Edit, ..state },
        Some(KeyCode::Char('s')) => AppState { mode: AppMode::Select, ..state },
        Some(KeyCode::Char('/')) => AppState { mode: AppMode::Search, ..state },
        _ => state,
    }
}

/// The state in command mode with the focus taken from both inputs.
pub open spec fn at_rest(state: AppState) -> AppState {
    AppState { mode: AppMode::Command, focused_editor: false, focused_search: false, ..state }
}

/// Whether an event is about the Escape key, pressed or released.
pub open spec fn is_escape(event: Event) -> bool {
    event matches Event::Key(key) && key.code == KeyCode::Esc
}

/// Only the input that the mode acts on can have the focus: the editor in
/// edit mode, the search box in search mode, and neither anywhere else.
pub open spec fn focus_follows_mode(state: AppState) -> bool {
    &&& state.focused_editor ==> state.mode == AppMode::Edit
    &&& state.focused_search ==> state.mode == AppMode::Search
}

/// Whatever event the application takes, the focus stays with the input
/// that the mode acts on.
pub proof fn lemma_focus_follows_mode(app: App, event: Event, after: App)
    requires
        app.handled(event, after),
        focus_follows_mode(app.app_state),
    ensures
        focus_follows_mode(after.app_state),
{
}

/// The application: its state and its widgets.
pub struct App {
    pub app_state: AppState,
    pub view_manager: ViewManager,
}

impl App {
    /// An application over `snippet_list`, in command mode, with nothing
    /// focused, an empty query and the first snippet selected.
    pub fn new(snippet_list: Vec<Snippet>) -> (app: App)
        ensures
            app.app_state.snippet_list == snippet_list,
            app.app_state.search_query@ == Seq::<char>::empty(),
            app.app_state.selected_index == 0,
            app.app_state.mode == AppMode::Command,
            !app.app_state.should_exit,
            app.app_state.current_area == (Rect { x: 0, y: 0, width: 0, height: 0 }),
            !app.app_state.focused_editor,
            !app.app_state.focused_search,
            focus_follows_mode(app.app_state),
            app.view_manager.editor_component.gap_buffer is None,
            app.view_manager.search_component.gap_buffer.wf(),
            app.view_manager.add_snippet_popup_component.wf(),
    {
        let app_state = AppState {
            snippet_list,
            search_query: String::new(),
            selected_index: 0,
            mode: AppMode::Command,
            should_exit: false,
            current_area: Rect::empty(),
            focused_editor: false,
            focused_search: false,
        };
        App { app_state, view_manager: ViewManager::new() }
    }

    /// Applies a command-mode key.
    pub fn switch_mode(&mut self, event: &Event)
        ensures
            final(self).app_state == command_reaction(old(self).app_state, *event),
            final(self).view_manager == old(self).view_manager,
    {
        match event.pressed_key() {
            Some(KeyCode::Char(c)) => {
                if c == 'q' {
                    self.app_state.should_exit = true;
                } else if c == 'e' {
                    self.app_state.mode = AppMode::Edit;
                } else if c == 's' {
                    self.app_state.mode = AppMode::Select;
                } else if c == '/' {
                    self.app_state.mode = AppMode::Search;
                }
            },
            _ => {},
        }
    }

    /// After layout: the state learns the region of the widget that the
    /// mode acts on. Command and popup mode keep the region they had.
    pub fn update_current_area(&mut self, list_column: Rect, editor_area: Rect, search_area: Rect)
        ensures
            final(self).view_manager == old(self).view_manager,
            final(self).app_state == (AppState {
                current_area: match old(self).app_state.mode {
                    AppMode::Select => list_column,
                    AppMode::Edit => editor_area,
                    AppMode::Search => search_area,
                    _ => old(self).app_state.current_area,
                },
                ..old(self).app_state
            }),
    {
        match self.app_state.mode {
            AppMode::Select => {
                self.app_state.current_area = list_column;
            },
            AppMode::Edit => {
                self.app_state.current_area = editor_area;
            },
            AppMode::Search => {
                self.app_state.current_area = search_area;
            },
            _ => {},
        }
    }

    /// What the application needs in order to take an event: a text loaded
    /// in the editor, and what the widget of the current mode needs.
    pub open spec fn accepts(&self, event: Event) -> bool {
        &&& self.view_manager.editor_component.loaded()
        &&& self.view_manager.search_component.gap_buffer.wf()
        &&& self.view_manager.add_snippet_popup_component.wf()
        &&& event is Key && !is_escape(event) ==> match self.app_state.mode {
            AppMode::Edit => self.view_manager.editor_component.accepts(&self.app_state, event),
            AppMode::Search => self.view_manager.search_component.accepts(&self.app_state, event),
            AppMode::Popup => self.view_manager.add_snippet_popup_component.accepts(
                &self.app_state,
                event,
            ),
            _ => true,
        }
    }

    /// Whether the application can take `event`.
    pub fn accepts_event(&self, event: &Event) -> (ok: bool)
        requires
            self.view_manager.editor_component.loaded(),
            self.view_manager.search_component.gap_buffer.wf(),
            self.view_manager.add_snippet_popup_component.wf(),
        ensures
            ok == self.accepts(*event),
    {
        match event {
            Event::Key(key) => {
                match key.code {
                    KeyCode::Esc => true,
                    _ => {
                        match self.app_state.mode {
                            AppMode::Edit => self.view_manager.editor_component.accepts_event(
                                &self.app_state,
                                event,
                            ),
                            AppMode::Search => self.view_manager.search_component.accepts_event(
                                &self.app_state,
                                event,
                            ),
                            AppMode::Popup => self.view_manager.add_snippet_popup_component.accepts_event(
                            &self.app_state, event),
                            _ => true,
                        }
                    },
                }
            },
            Event::Other => true,
        }
    }

    /// What an event does to the application.
    ///
    /// Escape, from any mode, returns to command mode, takes the focus from
    /// both inputs and writes the editor's text back into the selected
    /// snippet. Any other key goes to the current mode alone: in command
    /// mode it may switch the mode or ask to leave, in the other modes it
    /// goes to that mode's widget. Events that are not about a key change
    /// nothing.
    pub open spec fn handled(&self, event: Event, after: App) -> bool {
        let views = self.view_manager;
        let after_views = after.view_manager;
        if !(event is Key) {
            after == *self
        } else if is_escape(event) {
            &&& after_views == views
            &&& EditorComponent::synced(
                views.editor_component.gap_buffer->0@.content(),
                at_rest(self.app_state),
                after.app_state,
            )
        } else {
            match self.app_state.mode {
                AppMode::Command => {
                    &&& after_views == views
                    &&& after.app_state == command_reaction(self.app_state, event)
                },
                AppMode::Select => {
                    &&& after_views == views
                    &&& after.app_state == SnippetListComponent::reaction(self.app_state, event)
                },
                AppMode::Edit => {
                    &&& after_views == (ViewManager {
                        editor_component: after_views.editor_component,
                        ..views
                    })
                    &&& views.editor_component.handled(
                        self.app_state,
                        event,
                        after_views.editor_component,
                        after.app_state,
                    )
                },
                AppMode::Search => {
                    &&& after_views == (ViewManager {
                        search_component: after_views.search_component,
                        ..views
                    })
                    &&& views.search_component.handled(
                        self.app_state,
                        event,
                        after_views.search_component,
                        after.app_state,
                    )
                },
                AppMode::Popup => {
                    &&& after_views == (ViewManager {
                        add_snippet_popup_component: after_views.add_snippet_popup_component,
                        ..views
                    })
                    &&& views.add_snippet_popup_component.handled(
                        self.app_state,
                        event,
                        after_views.add_snippet_popup_component,
                        after.app_state,
                    )
                },
            }
        }
    }

    /// Applies one event and says what the run loop owes afterwards: a
    /// save after Escape, nothing otherwise.
    pub fn handle_event(&mut self, event: &Event) -> (action: Action)
        requires
            old(self).accepts(*event),
        ensures
            old(self).handled(*event, *final(self)),
            action == if is_escape(*event) {
                Action::Save
            } else {
                Action::Continue
            },
            final(self).view_manager.editor_component.loaded(),
            final(self).view_manager.search_component.gap_buffer.wf(),
            final(self).view_manager.add_snippet_popup_component.wf(),
    {
        match event {
            Event::Key(key) => {
                match key.code {
                    KeyCode::Esc => {
                        self.app_state.mode = AppMode::Command;
                        self.app_state.blur();
                        self.view_manager.editor_component.sync_buffer_to_state(
                            &mut self.app_state,
                        );
                        Action::Save
                    },
                    _ => {
                        match self.app_state.mode {
                            AppMode::Command => {
                                self.switch_mode(event);
                            },
                            AppMode::Select => {
                                self.view_manager.snippet_list_component.handle_event(
                                    event,
                                    &mut self.app_state,
                                );
                            },
                            AppMode::Edit => {
                                self.view_manager.editor_component.handle_event(
                                    event,
                                    &mut self.app_state,
                                );
                            },
                            AppMode::Search => {
                                self.view_manager.search_component.handle_event(
                                    event,
                                    &mut self.app_state,
                                );
                            },
                            AppMode::Popup => {
                                self.view_manager.add_snippet_popup_component.handle_event(
                                    event,
                                    &mut self.app_state,
                                );
                            },
                        }
                        Action::Continue
                    },
                }
            },
            Event::Other => Action::Continue,
        }
    }
}

/// The snippet lists that a sequence of vectors stands for.
pub open spec fn lists_of(saved: Seq<Vec<Snippet>>) -> Seq<Seq<Snippet>> {
    Seq::new(saved.len(), |i: int| saved[i]@)
}

/// A copy of a snippet list, snippet for snippet.
pub fn copy_snippets(snippets: &Vec<Snippet>) -> (copy: Vec<Snippet>)
    ensures
        copy@ == snippets@,
{
    let mut copy: Vec<Snippet> = Vec::new();
    let mut i: usize = 0;
    while i < snippets.len()
        invariant
            i <= snippets@.len(),
            copy@ == snippets@.take(i as int),
        decreases snippets@.len() - i,
    {
        let snippet = &snippets[i];
        copy.push(
            Snippet {
                language: snippet.language.clone(),
                code: snippet.code.clone(),
                title: snippet.title.clone(),
            },
        );
        i = i + 1;
        assert(copy@ =~= snippets@.take(i as int));
    }
    assert(snippets@.take(i as int) =~= snippets@);
    copy
}

impl App {
    /// What one event of a run does to the application: nothing once
    /// leaving has been asked for, and what `handled` says before that.
    pub open spec fn stepped(&self, event: Event, after: App) -> bool {
        if self.app_state.should_exit {
            after == *self
        } else {
            self.handled(event, after)
        }
    }

    /// Whether a run owes a save for `event`: for Escape, as long as
    /// leaving has not been asked for.
    pub open spec fn saves(&self, event: Event) -> bool {
        !self.app_state.should_exit && is_escape(event)
    }

    /// Whether `states` are the states that a run over `events` goes
    /// through: it starts from this one, and every event leads from one
    /// state to the next.
    pub open spec fn traced(&self, events: Seq<Event>, states: Seq<App>) -> bool {
        &&& states.len() == events.len() + 1
        &&& states[0] == *self
        &&& forall|i: int|
            0 <= i < events.len() ==> (#[trigger] states[i]).stepped(events[i], states[i + 1])
    }

    /// Whether `after` and `saved` are what a run over `events` leaves: the
    /// application after the events were taken one by one, and, for every
    /// Escape among them, the snippet list as it was right after that
    /// Escape had been handled.
    pub open spec fn ran(&self, events: Seq<Event>, after: App, saved: Seq<Seq<Snippet>>) -> bool {
        exists|states: Seq<App>|
            {
                &&& #[trigger] self.traced(events, states)
                &&& states.last() == after
                &&& saved == saved_along(events, states)
            }
    }

    /// Whether the application can take `events` one after the other: it
    /// has a text loaded, and every state that the run can reach before
    /// leaving is asked for accepts the event that comes next.
    pub open spec fn can_run(&self, events: Seq<Event>) -> bool {
        &&& self.view_manager.editor_component.loaded()
        &&& self.view_manager.search_component.gap_buffer.wf()
        &&& self.view_manager.add_snippet_popup_component.wf()
        &&& forall|i: int, states: Seq<App>|
            0 <= i < events.len() && #[trigger] self.traced(events.take(i), states)
                && !states.last().app_state.should_exit ==> states.last().accepts(events[i])
    }

    /// Takes the events that were read, in order, until they run out or
    /// leaving is asked for. Returns what is to be written to storage: one
    /// copy of the snippet list for every Escape, taken right after the
    /// editor's text was written back.
    pub fn run(&mut self, events: &Vec<Event>) -> (saved: Vec<Vec<Snippet>>)
        requires
            old(self).can_run(events@),
        ensures
            old(self).ran(events@, *final(self), lists_of(saved@)),
            final(self).view_manager.editor_component.loaded(),
            final(self).view_manager.search_component.gap_buffer.wf(),
            final(self).view_manager.add_snippet_popup_component.wf(),
    {
        let mut saved: Vec<Vec<Snippet>> = Vec::new();
        let mut i: usize = 0;
        let ghost mut states: Seq<App> = seq![*self];
        assert(lists_of(saved@) =~= saved_along(events@.take(0), states));
        while i < events.len()
            invariant
                i <= events@.len(),
                old(self).can_run(events@),
                old(self).traced(events@.take(i as int), states),
                states.last() == *self,
                lists_of(saved@) == saved_along(events@.take(i as int), states),
                self.view_manager.editor_component.loaded(),
                self.view_manager.search_component.gap_buffer.wf(),
                self.view_manager.add_snippet_popup_component.wf(),
            decreases events@.len() - i,
        {
            let ghost mid = *self;
            let ghost earlier = lists_of(saved@);
            let ghost before = states;
            let event: Event = events[i];
            if !self.app_state.should_exit {
                match self.handle_event(&event) {
                    Action::Save => {
                        saved.push(copy_snippets(&self.app_state.snippet_list));
                        assert(lists_of(saved@) =~= earlier.push(self.app_state.snippet_list@));
                    },
                    Action::Continue => {},
                }
            }
            proof {
                let shorter = events@.take(i as int);
                let longer = events@.take(i + 1);
                states = before.push(*self);
                assert(longer.drop_last() =~= shorter);
                assert(states.drop_last() =~= before);
                assert(mid.stepped(event, *self));
                assert forall|j: int| 0 <= j < longer.len() implies (#[trigger] states[j]).stepped(
                    longer[j],
                    states[j + 1],
                ) by {
                    if j < i {
                        assert(before[j].stepped(shorter[j], before[j + 1]));
                    }
                }
                assert(lists_of(saved@) =~= saved_along(longer, states));
            }
            i = i + 1;
        }
        assert(events@.take(i as int) =~= events@);
        saved
    }
}

/// The snippet lists that a run over `events` through `states` owes to
/// storage: for every Escape that was handled, the list of the state that
/// the Escape led to.
pub open spec fn saved_along(events: Seq<Event>, states: Seq<App>) -> Seq<Seq<Snippet>>
    decreases events.len(),
{
    if events.len() == 0 || states.len() != events.len() + 1 {
        Seq::empty()
    } else {
        let earlier = saved_along(events.drop_last(), states.drop_last());
        if states[events.len() - 1].saves(events.last()) {
            earlier.push(states.last().app_state.snippet_list@)
        } else {
            earlier
        }
    }
}

/// A run over no events leaves the application as it is and owes no save.
pub proof fn lemma_ran_none(app: App, after: App, saved: Seq<Seq<Snippet>>)
    ensures
        app.ran(Seq::empty(), after, saved) <==> after == app && saved == Seq::<
            Seq<Snippet>,
        >::empty(),
{
    let none = Seq::<Event>::empty();
    if after == app && saved == Seq::<Seq<Snippet>>::empty() {
        assert(app.traced(none, seq![app]));
    }
}

/// A run over some events and one more is the run over those events,
/// followed by the step for the one more; a save is owed for that step if
/// it handled an Escape.
pub proof fn lemma_ran_more(
    app: App,
    events: Seq<Event>,
    event: Event,
    after: App,
    saved: Seq<Seq<Snippet>>,
)
    ensures
        app.ran(events.push(event), after, saved) <==> exists|
            mid: App,
            earlier: Seq<Seq<Snippet>>,
        |
            {
                &&& #[trigger] app.ran(events, mid, earlier)
                &&& mid.stepped(event, after)
                &&& saved == if mid.saves(event) {
                    earlier.push(after.app_state.snippet_list@)
                } else {
                    earlier
                }
            },
{
    let longer = events.push(event);
    assert(longer.drop_last() =~= events);
    if app.ran(longer, after, saved) {
        let states = choose|states: Seq<App>|
            #[trigger] app.traced(longer, states) && states.last() == after && saved
                == saved_along(longer, states);
        let shorter = states.drop_last();
        assert(app.traced(events, shorter)) by {
            assert forall|i: int| 0 <= i < events.len() implies (#[trigger] shorter[i]).stepped(
                events[i],
                shorter[i + 1],
            ) by {
                assert(states[i].stepped(longer[i], states[i + 1]));
            }
        }
        let mid = shorter.last();
        let n = events.len() as int;
        assert(states[n].stepped(longer[n], states[n + 1]));
        assert(app.ran(events, mid, saved_along(events, shorter)));
    }
    if exists|mid: App, earlier: Seq<Seq<Snippet>>|
        {
            &&& #[trigger] app.ran(events, mid, earlier)
            &&& mid.stepped(event, after)
            &&& saved == if mid.saves(event) {
                earlier.push(after.app_state.snippet_list@)
            } else {
                earlier
            }
        } {
        let (mid, earlier) = choose|mid: App, earlier: Seq<Seq<Snippet>>|
            {
                &&& #[trigger] app.ran(events, mid, earlier)
                &&& mid.stepped(event, after)
                &&& saved == if mid.saves(event) {
                    earlier.push(after.app_state.snippet_list@)
                } else {
                    earlier
                }
            };
        let shorter = choose|states: Seq<App>|
            #[trigger] app.traced(events, states) && states.last() == mid && earlier
                == saved_along(events, states);
        let states = shorter.push(after);
        assert(states.drop_last() =~= shorter);
        assert(app.traced(longer, states)) by {
            assert forall|i: int| 0 <= i < longer.len() implies (#[trigger] states[i]).stepped(
                longer[i],
                states[i + 1],
            ) by {
                if i < events.len() {
                    assert(shorter[i].stepped(events[i], shorter[i + 1]));
                }
            }
        }
    }
}

/// A run over a single event is the step for that event, and the
/// application can run it whenever it accepts the event.
pub proof fn lemma_ran_one(app: App, event: Event, after: App, saved: Seq<Seq<Snippet>>)
    ensures
        app.accepts(event) ==> app.can_run(seq![event]),
        app.ran(seq![event], after, saved) <==> app.stepped(event, after) && saved == if app.saves(
            event,
        ) {
            seq![after.app_state.snippet_list@]
        } else {
            Seq::<Seq<Snippet>>::empty()
        },
{
    let none = Seq::<Event>::empty();
    let nothing = Seq::<Seq<Snippet>>::empty();
    assert(none.push(event) =~= seq![event]);
    assert(nothing.push(after.app_state.snippet_list@) =~= seq![after.app_state.snippet_list@]);
    lemma_ran_more(app, none, event, after, saved);
    lemma_ran_none(app, app, nothing);
    if app.ran(seq![event], after, saved) {
        let (mid, earlier) = choose|mid: App, earlier: Seq<Seq<Snippet>>|
            {
                &&& #[trigger] app.ran(none, mid, earlier)
                &&& mid.stepped(event, after)
                &&& saved == if mid.saves(event) {
                    earlier.push(after.app_state.snippet_list@)
                } else {
                    earlier
                }
            };
        lemma_ran_none(app, mid, earlier);
    }
    if app.accepts(event) {
        assert forall|i: int, states: Seq<App>|
            0 <= i < seq![event].len() && #[trigger] app.traced(seq![event].take(i), states)
                && !states.last().app_state.should_exit implies states.last().accepts(
            seq![event][i],
        ) by {
            assert(states.last() == app);
        }
    }
}

/// From any mode, a run over one Escape ends in command mode with the
/// focus taken from both inputs and the editor's text written back into
/// the selected snippet. It owes exactly one save: the snippet list as it
/// is after the write-back. The widgets stay as they are.
pub proof fn lemma_escape_run(app: App, escape: Event, after: App, saved: Seq<Seq<Snippet>>)
    requires
        is_escape(escape),
        !app.app_state.should_exit,
        app.ran(seq![escape], after, saved),
    ensures
        after.app_state.mode == AppMode::Command,
        !after.app_state.focused_editor,
        !after.app_state.focused_search,
        EditorComponent::synced(
            app.view_manager.editor_component.gap_buffer->0@.content(),
            at_rest(app.app_state),
            after.app_state,
        ),
        after.view_manager == app.view_manager,
        saved == seq![after.app_state.snippet_list@],
{
    lemma_ran_one(app, escape, after, saved);
}

} // verus!
