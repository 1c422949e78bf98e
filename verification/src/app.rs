//! The session state machine: the input mode, the query buffer, the current
//! lookup result and the cascading selection lists, together with the legal
//! mode transitions and the recomputation rule that keeps dependent lists
//! consistent whenever upstream state changes.

use vstd::prelude::*;

use crate::client::WordInfo;
use crate::data::{Definition, Meaning, Thesaurus, DefinitionView, MeaningView, def_text, def_texts, pos_titles, pos_view};
use crate::data::ThesaurusView;
use crate::list::{StatefulList, StatefulListType, initial_sel, next_sel, prev_sel};

verus! {

/// Relies on `String::push`: appends the given character to the end of the
/// string.
pub assume_specification[ String::push ](s: &mut String, ch: char)
    ensures
        final(s)@ == old(s)@.push(ch),
;

/// Relies on `String::pop`: removes and returns the last character, or
/// returns nothing and leaves the string unchanged when it is empty.
pub assume_specification[ String::pop ](s: &mut String) -> (r: Option<char>)
    ensures
        old(s)@.len() == 0 ==> r is None && final(s)@ == old(s)@,
        old(s)@.len() > 0 ==> r == Some(old(s)@.last()) && final(s)@ == old(s)@.drop_last(),
;

/// The input mode of the session: which family of transitions a key event
/// is routed to.
#[derive(Clone, Copy, Debug, PartialEq, Eq, Structural)]
pub enum InputMode {
    Normal,
    Editing,
    SelectPartOfSpeech,
    SelectDefinition,
    Suggesting,
}

impl Default for InputMode {
    fn default() -> (r: Self)
        ensures
            r == InputMode::Normal,
    {
        InputMode::Normal
    }
}

/// One keyboard event, as the host hands it in. Character keys double as
/// commands outside of editing; the session decides which.
#[derive(Clone, Copy, Debug, PartialEq, Eq, Structural)]
pub enum Key {
    Esc,
    Enter,
    Backspace,
    Down,
    Up,
    Left,
    Right,
    Char(char),
    Other,
}

/// What the host must do after dispatching a key event: nothing, or run the
/// lookup pipeline for the committed query and hand the outcome back
/// through `App::apply_lookup`.
#[derive(Debug)]
pub enum Action {
    Nothing,
    Fetch(String),
}

/// The whole session state. It is created once at startup and mutated only
/// through the dispatch entry points below.
#[derive(Clone, Debug)]
pub struct App {
    pub should_quit: bool,
    pub input: String,
    pub input_mode: InputMode,
    pub results: Vec<Thesaurus>,
    pub part_of_speech_list: StatefulList<String>,
    pub definition_list: StatefulList<String>,
}

/// Whether `k` opens the query editor.
pub open spec fn is_edit_key(k: Key) -> bool {
    k == Key::Char('/')
}

/// Whether `k` steps a selection forward.
pub open spec fn is_down_key(k: Key) -> bool {
    k == Key::Down || k == Key::Char('j')
}

/// Whether `k` steps a selection backward.
pub open spec fn is_up_key(k: Key) -> bool {
    k == Key::Up || k == Key::Char('k')
}

/// Whether `k` steps a definition selection forward.
pub open spec fn is_right_key(k: Key) -> bool {
    k == Key::Right || k == Key::Char('l')
}

/// Whether `k` steps a definition selection backward.
pub open spec fn is_left_key(k: Key) -> bool {
    k == Key::Left || k == Key::Char('h')
}

/// The selected part-of-speech index the definition list is rebuilt from,
/// defaulting to the first meaning when nothing is selected.
pub open spec fn sel_or_zero(sel: Option<usize>) -> int {
    match sel {
        Some(i) => i as int,
        None => 0,
    }
}

/// Whether `l` is the part-of-speech list freshly recomputed from the
/// result `ts`: the titles of the first entry's meanings in source order,
/// with the first one selected.
pub open spec fn pos_list_recomputed(ts: Seq<ThesaurusView>, l: StatefulList<String>) -> bool {
    &&& l.items.deep_view() == pos_titles(ts)
    &&& l.selected == initial_sel(pos_titles(ts).len())
    &&& l.list_type == StatefulListType::PartOfSpeech
}

/// Whether `l` is the definition list freshly recomputed from the result
/// `ts` and the selected part-of-speech index `idx`: the texts of that
/// meaning's definitions in source order, with the first one selected.
pub open spec fn def_list_recomputed(ts: Seq<ThesaurusView>, idx: int, l: StatefulList<String>) -> bool {
    &&& l.items.deep_view() == def_texts(ts, idx)
    &&& l.selected == initial_sel(def_texts(ts, idx).len())
    &&& l.list_type == StatefulListType::Definition
}

/// Whether `post` is `pre` with both cascading lists recomputed from
/// `pre`'s result, the part-of-speech list first, so that the definition
/// list is built from the freshly selected first meaning.
pub open spec fn all_lists_recomputed(pre: App, post: App) -> bool {
    &&& post == (App {
        part_of_speech_list: post.part_of_speech_list,
        definition_list: post.definition_list,
        ..pre
    })
    &&& pos_list_recomputed(pre.results.deep_view(), post.part_of_speech_list)
    &&& def_list_recomputed(pre.results.deep_view(), 0, post.definition_list)
    &&& post.part_of_speech_list.wf()
    &&& post.definition_list.wf()
}

/// Whether `post` is `pre` with only the input mode changed.
pub open spec fn only_mode_changed(pre: App, post: App, m: InputMode) -> bool {
    post == (App { input_mode: m, ..pre })
}

/// Whether `post` is `pre` switched to editing with a cleared query buffer.
pub open spec fn buffer_cleared_to_editing(pre: App, post: App) -> bool {
    &&& post == (App { input_mode: InputMode::Editing, input: post.input, ..pre })
    &&& post.input@ == Seq::<char>::empty()
}

/// Whether `post` is `pre` with the part-of-speech selection moved to
/// `new_sel` and the definition list recomputed from that selection.
pub open spec fn pos_navigated(pre: App, post: App, new_sel: Option<usize>) -> bool {
    &&& post == (App {
        part_of_speech_list: post.part_of_speech_list,
        definition_list: post.definition_list,
        ..pre
    })
    &&& post.part_of_speech_list == (StatefulList {
        selected: new_sel,
        ..pre.part_of_speech_list
    })
    &&& def_list_recomputed(pre.results.deep_view(), sel_or_zero(new_sel), post.definition_list)
}

/// Whether `post` is `pre` with the definition selection moved to `new_sel`.
pub open spec fn def_navigated(pre: App, post: App, new_sel: Option<usize>) -> bool {
    &&& post == (App { definition_list: post.definition_list, ..pre })
    &&& post.definition_list == (StatefulList { selected: new_sel, ..pre.definition_list })
}

/// The transitions out of `Normal` mode: quit, open the editor, or enter a
/// selection mode when there is something to select.
pub open spec fn normal_transition(pre: App, key: Key, post: App, action: Action) -> bool {
    &&& action is Nothing
    &&& if key == Key::Esc {
        post == (App { should_quit: true, ..pre })
    } else if is_edit_key(key) {
        buffer_cleared_to_editing(pre, post)
    } else if is_down_key(key) || is_up_key(key) {
        if pre.results@.len() > 0 {
            only_mode_changed(pre, post, InputMode::SelectPartOfSpeech)
        } else {
            post == pre
        }
    } else if is_right_key(key) || is_left_key(key) {
        if pre.part_of_speech_list.items@.len() == 1 {
            only_mode_changed(pre, post, InputMode::SelectDefinition)
        } else {
            post == pre
        }
    } else {
        post == pre
    }
}

/// The transitions out of `Editing` mode: commit a non-empty query, cancel,
/// or edit the buffer. Committing an empty buffer is a no-op.
pub open spec fn editing_transition(pre: App, key: Key, post: App, action: Action) -> bool {
    match key {
        Key::Enter => post == pre && (if pre.input@.len() > 0 {
            action matches Action::Fetch(w) && w@ == pre.input@
        } else {
            action is Nothing
        }),
        Key::Esc => only_mode_changed(pre, post, InputMode::Normal) && action is Nothing,
        Key::Char(c) => {
            &&& post == (App { input: post.input, ..pre })
            &&& post.input@ == pre.input@.push(c)
            &&& action is Nothing
        },
        Key::Backspace => {
            &&& post == (App { input: post.input, ..pre })
            &&& post.input@ == (if pre.input@.len() > 0 {
                pre.input@.drop_last()
            } else {
                pre.input@
            })
            &&& action is Nothing
        },
        _ => post == pre && action is Nothing,
    }
}

/// The transitions out of `SelectPartOfSpeech` mode: navigate the
/// part-of-speech list (recomputing the definition list each time), commit
/// the selection, or fall back to `Normal`.
pub open spec fn select_pos_transition(pre: App, key: Key, post: App, action: Action) -> bool {
    &&& action is Nothing
    &&& if is_down_key(key) {
        pos_navigated(
            pre,
            post,
            next_sel(pre.part_of_speech_list.selected, pre.part_of_speech_list.items@.len()),
        )
    } else if is_up_key(key) {
        pos_navigated(
            pre,
            post,
            prev_sel(pre.part_of_speech_list.selected, pre.part_of_speech_list.items@.len()),
        )
    } else if key == Key::Enter {
        &&& post == (App {
            input_mode: InputMode::SelectDefinition,
            definition_list: post.definition_list,
            ..pre
        })
        &&& def_list_recomputed(
            pre.results.deep_view(),
            sel_or_zero(pre.part_of_speech_list.selected),
            post.definition_list,
        )
    } else if key == Key::Esc {
        only_mode_changed(pre, post, InputMode::Normal)
    } else {
        post == pre
    }
}

/// The transitions out of `SelectDefinition` mode: navigate the definition
/// list, leave it (resetting the selection to the first definition), or
/// open the editor.
pub open spec fn select_def_transition(pre: App, key: Key, post: App, action: Action) -> bool {
    &&& action is Nothing
    &&& if is_right_key(key) {
        def_navigated(
            pre,
            post,
            next_sel(pre.definition_list.selected, pre.definition_list.items@.len()),
        )
    } else if is_left_key(key) {
        def_navigated(
            pre,
            post,
            prev_sel(pre.definition_list.selected, pre.definition_list.items@.len()),
        )
    } else if key == Key::Esc {
        &&& post == (App {
            input_mode: InputMode::Normal,
            definition_list: post.definition_list,
            ..pre
        })
        &&& post.definition_list == (StatefulList {
            selected: initial_sel(pre.definition_list.items@.len()),
            ..pre.definition_list
        })
    } else if is_edit_key(key) {
        buffer_cleared_to_editing(pre, post)
    } else {
        post == pre
    }
}

/// The whole transition table: one key event in, the next session state and
/// the host's task out. A `Suggesting` overlay is dismissed by any key.
pub open spec fn key_transition(pre: App, key: Key, post: App, action: Action) -> bool {
    match pre.input_mode {
        InputMode::Normal => normal_transition(pre, key, post, action),
        InputMode::Editing => editing_transition(pre, key, post, action),
        InputMode::SelectPartOfSpeech => select_pos_transition(pre, key, post, action),
        InputMode::SelectDefinition => select_def_transition(pre, key, post, action),
        InputMode::Suggesting => only_mode_changed(pre, post, InputMode::Normal)
            && action is Nothing,
    }
}

/// Whether `post` is `pre` with the lookup outcome `info` applied: the
/// result replaced wholesale, both cascading lists recomputed from it, and
/// the mode showing either the suggestion overlay or the normal view.
pub open spec fn lookup_applied(pre: App, info: WordInfo, post: App) -> bool {
    &&& post == (App {
        input_mode: post.input_mode,
        results: post.results,
        part_of_speech_list: post.part_of_speech_list,
        definition_list: post.definition_list,
        ..pre
    })
    &&& post.results == info.t
    &&& post.input_mode == (if info.is_spelling_suggested {
        InputMode::Suggesting
    } else {
        InputMode::Normal
    })
    &&& pos_list_recomputed(info.t.deep_view(), post.part_of_speech_list)
    &&& def_list_recomputed(info.t.deep_view(), 0, post.definition_list)
}

/// Whether `a` is the state a session starts in: normal mode, nothing
/// looked up, every list empty.
pub open spec fn is_initial(a: App) -> bool {
    &&& a.should_quit == false
    &&& a.input@ == Seq::<char>::empty()
    &&& a.input_mode == InputMode::Normal
    &&& a.results@ == Seq::<Thesaurus>::empty()
    &&& a.part_of_speech_list.items@ == Seq::<String>::empty()
    &&& a.part_of_speech_list.selected is None
    &&& a.part_of_speech_list.list_type == StatefulListType::PartOfSpeech
    &&& a.definition_list.items@ == Seq::<String>::empty()
    &&& a.definition_list.selected is None
    &&& a.definition_list.list_type == StatefulListType::Definition
}

/// The footer instructions for a given mode, part-of-speech list length and
/// result count.
pub open spec fn instructions_view(mode: InputMode, pos_len: nat, n_results: nat) -> Seq<char> {
    if mode == InputMode::Normal && pos_len == 1 {
        "l, h: Change definition; /: Insert"@
    } else if mode == InputMode::Normal && n_results > 0 {
        "j, k: Change part of speech; /: Insert"@
    } else if mode == InputMode::Editing {
        "<ENTER>: Search"@
    } else if mode == InputMode::SelectPartOfSpeech {
        "<ENTER>: Select"@
    } else if mode == InputMode::SelectDefinition {
        "l, h: Change definition; /: Insert"@
    } else {
        "/: Insert"@
    }
}

/// The part-of-speech titles of `ms`, substituting the empty string for an
/// absent title.
fn part_of_speech_titles(ms: &Vec<Meaning>) -> (r: Vec<String>)
    ensures
        r.deep_view() == ms.deep_view().map_values(|m: MeaningView| pos_view(m)),
{
    let mut r: Vec<String> = Vec::new();
    let mut i: usize = 0;
    while i < ms.len()
        invariant
            i <= ms@.len(),
            r@.len() == i,
            forall|j: int| 0 <= j < i ==> #[trigger] r@[j]@ == pos_view(ms@[j].deep_view()),
        decreases ms@.len() - i,
    {
        let title = match &ms[i].part_of_speech {
            Some(p) => p.clone(),
            None => String::new(),
        };
        r.push(title);
        i = i + 1;
    }
    proof {
        assert(r.deep_view() =~= ms.deep_view().map_values(|m: MeaningView| pos_view(m)));
    }
    r
}

/// The display texts of `defs`, substituting the empty string for an absent
/// text.
fn definition_texts(defs: &Vec<Definition>) -> (r: Vec<String>)
    ensures
        r.deep_view() == defs.deep_view().map_values(|d: DefinitionView| def_text(d)),
{
    let mut r: Vec<String> = Vec::new();
    let mut i: usize = 0;
    while i < defs.len()
        invariant
            i <= defs@.len(),
            r@.len() == i,
            forall|j: int| 0 <= j < i ==> #[trigger] r@[j]@ == def_text(defs@[j].deep_view()),
        decreases defs@.len() - i,
    {
        let text = match &defs[i].definition {
            Some(t) => t.clone(),
            None => String::new(),
        };
        r.push(text);
        i = i + 1;
    }
    proof {
        assert(r.deep_view() =~= defs.deep_view().map_values(|d: DefinitionView| def_text(d)));
    }
    r
}

impl App {
    /// The session invariant: both cascading lists are well formed.
    pub open spec fn wf(self) -> bool {
        &&& self.part_of_speech_list.wf()
        &&& self.definition_list.wf()
    }

    /// A fresh session: normal mode, nothing looked up, every list empty.
    pub fn new() -> (r: Self)
        ensures
            is_initial(r),
            r.wf(),
    {
        App {
            should_quit: false,
            input: String::new(),
            input_mode: InputMode::Normal,
            results: Vec::new(),
            part_of_speech_list: StatefulList::with_items(
                Vec::new(),
                StatefulListType::PartOfSpeech,
            ),
            definition_list: StatefulList::with_items(Vec::new(), StatefulListType::Definition),
        }
    }

    /// Asks the host loop to terminate. Nothing else changes.
    pub fn quit(&mut self)
        ensures
            *final(self) == (App { should_quit: true, ..*old(self) }),
    {
        self.should_quit = true;
    }

    /// The footer instructions for the current state.
    pub fn update_instructions(&mut self) -> (r: &'static str)
        ensures
            *final(self) == *old(self),
            r@ == instructions_view(
                old(self).input_mode,
                old(self).part_of_speech_list.items@.len(),
                old(self).results@.len(),
            ),
    {
        match self.input_mode {
            InputMode::Normal => {
                if self.part_of_speech_list.items.len() == 1 {
                    "l, h: Change definition; /: Insert"
                } else if self.results.len() > 0 {
                    "j, k: Change part of speech; /: Insert"
                } else {
                    "/: Insert"
                }
            }
            InputMode::Editing => "<ENTER>: Search",
            InputMode::SelectPartOfSpeech => "<ENTER>: Select",
            InputMode::SelectDefinition => "l, h: Change definition; /: Insert",
            InputMode::Suggesting => "/: Insert",
        }
    }

    /// Rebuilds the part-of-speech list from the current result, selecting
    /// its first title; it becomes empty when there is no result or the
    /// first entry has no meanings. Nothing of a previous result survives.
    pub fn update_part_of_speech_list(&mut self)
        ensures
            *final(self) == (App {
                part_of_speech_list: final(self).part_of_speech_list,
                ..*old(self)
            }),
            pos_list_recomputed(old(self).results.deep_view(), final(self).part_of_speech_list),
            final(self).part_of_speech_list.wf(),
    {
        let titles: Vec<String> = if self.results.len() > 0 {
            match &self.results[0].meanings {
                Some(ms) => part_of_speech_titles(ms),
                None => Vec::new(),
            }
        } else {
            Vec::new()
        };
        proof {
            assert(titles.deep_view() =~= pos_titles(old(self).results.deep_view()));
        }
        self.part_of_speech_list = StatefulList::with_items(
            titles,
            StatefulListType::PartOfSpeech,
        );
    }

    /// Rebuilds the definition list from the current result and the
    /// currently selected part-of-speech index (defaulting to the first),
    /// selecting its first text; it becomes empty when there is nothing to
    /// show. Nothing of a previous result survives.
    pub fn update_definition_list(&mut self)
        ensures
            *final(self) == (App { definition_list: final(self).definition_list, ..*old(self) }),
            def_list_recomputed(
                old(self).results.deep_view(),
                sel_or_zero(old(self).part_of_speech_list.selected),
                final(self).definition_list,
            ),
            final(self).definition_list.wf(),
    {
        let idx: usize = match self.part_of_speech_list.selected {
            Some(i) => i,
            None => 0,
        };
        let texts: Vec<String> = if self.results.len() > 0 {
            let pair = Thesaurus::unwrap_meanings_at(idx, &self.results[0]);
            definition_texts(&pair.1)
        } else {
            Vec::new()
        };
        proof {
            assert(texts.deep_view() =~= def_texts(
                old(self).results.deep_view(),
                sel_or_zero(old(self).part_of_speech_list.selected),
            ));
        }
        self.definition_list = StatefulList::with_items(texts, StatefulListType::Definition);
    }

    /// Recomputes the stateful list `list_type` names, or both cascading
    /// lists in order (part of speech first, then the definitions of the
    /// freshly selected first meaning) for any other tag.
    pub fn update_stateful_lists(&mut self, list_type: StatefulListType)
        ensures
            list_type == StatefulListType::PartOfSpeech ==> (*final(self) == (App {
                part_of_speech_list: final(self).part_of_speech_list,
                ..*old(self)
            }) && pos_list_recomputed(
                old(self).results.deep_view(),
                final(self).part_of_speech_list,
            ) && final(self).part_of_speech_list.wf()),
            list_type == StatefulListType::Definition ==> (*final(self) == (App {
                definition_list: final(self).definition_list,
                ..*old(self)
            }) && def_list_recomputed(
                old(self).results.deep_view(),
                sel_or_zero(old(self).part_of_speech_list.selected),
                final(self).definition_list,
            ) && final(self).definition_list.wf()),
            (list_type != StatefulListType::PartOfSpeech && list_type
                != StatefulListType::Definition) ==> all_lists_recomputed(*old(self), *final(self)),
    {
        match list_type {
            StatefulListType::PartOfSpeech => {
                self.update_part_of_speech_list();
            }
            StatefulListType::Definition => {
                self.update_definition_list();
            }
            _ => {
                self.update_part_of_speech_list();
                self.update_definition_list();
            }
        }
    }

    /// Dispatches one key event according to the transition table and
    /// reports what the host must do next. This is the session's only entry
    /// point for input.
    pub fn handle_key(&mut self, key: Key) -> (action: Action)
        requires
            old(self).wf(),
        ensures
            final(self).wf(),
            key_transition(*old(self), key, *final(self), action),
    {
        match self.input_mode {
            InputMode::Normal => {
                match key {
                    Key::Esc => {
                        self.should_quit = true;
                    }
                    Key::Char(c) => {
                        if c == '/' {
                            self.input_mode = InputMode::Editing;
                            self.input = String::new();
                        } else if c == 'j' || c == 'k' {
                            if self.results.len() > 0 {
                                self.input_mode = InputMode::SelectPartOfSpeech;
                            }
                        } else if c == 'l' || c == 'h' {
                            if self.part_of_speech_list.items.len() == 1 {
                                self.input_mode = InputMode::SelectDefinition;
                            }
                        }
                    }
                    Key::Down | Key::Up => {
                        if self.results.len() > 0 {
                            self.input_mode = InputMode::SelectPartOfSpeech;
                        }
                    }
                    Key::Right | Key::Left => {
                        if self.part_of_speech_list.items.len() == 1 {
                            self.input_mode = InputMode::SelectDefinition;
                        }
                    }
                    _ => {}
                }
                Action::Nothing
            }
            InputMode::Editing => {
                match key {
                    Key::Enter => {
                        if !self.input.as_str().is_empty() {
                            Action::Fetch(self.input.clone())
                        } else {
                            Action::Nothing
                        }
                    }
                    Key::Esc => {
                        self.input_mode = InputMode::Normal;
                        Action::Nothing
                    }
                    Key::Char(c) => {
                        self.input.push(c);
                        Action::Nothing
                    }
                    Key::Backspace => {
                        let _ = self.input.pop();
                        Action::Nothing
                    }
                    _ => Action::Nothing,
                }
            }
            InputMode::SelectPartOfSpeech => {
                match key {
                    Key::Down => {
                        self.part_of_speech_list.down();
                        self.update_definition_list();
                    }
                    Key::Up => {
                        self.part_of_speech_list.up();
                        self.update_definition_list();
                    }
                    Key::Char(c) => {
                        if c == 'j' {
                            self.part_of_speech_list.down();
                            self.update_definition_list();
                        } else if c == 'k' {
                            self.part_of_speech_list.up();
                            self.update_definition_list();
                        }
                    }
                    Key::Enter => {
                        self.input_mode = InputMode::SelectDefinition;
                        self.update_definition_list();
                    }
                    Key::Esc => {
                        self.input_mode = InputMode::Normal;
                    }
                    _ => {}
                }
                Action::Nothing
            }
            InputMode::SelectDefinition => {
                match key {
                    Key::Right => {
                        self.definition_list.down();
                    }
                    Key::Left => {
                        self.definition_list.up();
                    }
                    Key::Char(c) => {
                        if c == 'l' {
                            self.definition_list.down();
                        } else if c == 'h' {
                            self.definition_list.up();
                        } else if c == '/' {
                            self.input_mode = InputMode::Editing;
                            self.input = String::new();
                        }
                    }
                    Key::Esc => {
                        self.input_mode = InputMode::Normal;
                        self.definition_list.select_first();
                    }
                    _ => {}
                }
                Action::Nothing
            }
            InputMode::Suggesting => {
                self.input_mode = InputMode::Normal;
                Action::Nothing
            }
        }
    }

    /// Stores the outcome of a committed query, replacing any prior result
    /// wholesale, recomputes both cascading lists from it, and leaves the
    /// suggestion overlay up when a spelling suggestion was substituted.
    pub fn apply_lookup(&mut self, info: WordInfo)
        ensures
            final(self).wf(),
            lookup_applied(*old(self), info, *final(self)),
    {
        let suggested = info.is_spelling_suggested;
        self.results = info.t;
        if suggested {
            self.input_mode = InputMode::Suggesting;
        } else {
            self.input_mode = InputMode::Normal;
        }
        self.update_stateful_lists(StatefulListType::All);
    }
}

impl Default for App {
    fn default() -> (r: Self)
        ensures
            is_initial(r),
            r.wf(),
    {
        App::new()
    }
}

/// Recomputing the definition list is idempotent: from the same result and
/// the same selected part-of-speech index it always rebuilds the same list,
/// so a repeated recomputation changes nothing.
pub proof fn lemma_recompute_idempotent(
    ts: Seq<ThesaurusView>,
    idx: int,
    once: StatefulList<String>,
    twice: StatefulList<String>,
)
    requires
        def_list_recomputed(ts, idx, once),
        def_list_recomputed(ts, idx, twice),
    ensures
        once.items.deep_view() == twice.items.deep_view(),
        once.selected == twice.selected,
        once.list_type == twice.list_type,
{
}

/// Recomputing both cascading lists twice in succession with an unchanged
/// result yields exactly the lists of the first recomputation.
pub proof fn lemma_recompute_all_idempotent(pre: App, once: App, twice: App)
    requires
        all_lists_recomputed(pre, once),
        all_lists_recomputed(once, twice),
    ensures
        twice.part_of_speech_list.items.deep_view() == once.part_of_speech_list.items.deep_view(),
        twice.part_of_speech_list.selected == once.part_of_speech_list.selected,
        twice.definition_list.items.deep_view() == once.definition_list.items.deep_view(),
        twice.definition_list.selected == once.definition_list.selected,
{
}

} // verus!
