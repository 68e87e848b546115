//! The decisions of the terminal interface: how a key press changes the
//! selection, the typing modes and the overlays, and what the interface
//! then asks its driver to do.

use vstd::prelude::*;
use crate::text::string_from_chars;
use crate::tui::app::InputMode;
use crate::tui::events::{action_of, handle_key_event, Action, Key, KeyPress};

verus! {

/// The interface's state beside the list of downloads: which item is
/// selected among `item_count`, what the keyboard types into, which
/// overlays are shown, and the text typed so far.
#[derive(Debug, Clone)]
pub struct TuiState {
    pub selected_index: usize,
    pub item_count: usize,
    pub input_mode: InputMode,
    pub show_help: bool,
    pub show_settings: bool,
    pub input_buffer: Vec<char>,
}

/// The state as a value.
pub struct TuiView {
    pub selected: nat,
    pub count: nat,
    pub mode: InputMode,
    pub help: bool,
    pub settings: bool,
    pub buffer: Seq<char>,
}

impl View for TuiState {
    type V = TuiView;

    open spec fn view(&self) -> TuiView {
        TuiView {
            selected: self.selected_index as nat,
            count: self.item_count as nat,
            mode: self.input_mode,
            help: self.show_help,
            settings: self.show_settings,
            buffer: self.input_buffer@,
        }
    }
}

/// What the interface asks its driver to do after a key press.
#[derive(Debug, Clone, PartialEq, Eq)]
pub enum TuiEffect {
    /// Nothing.
    Nothing,
    /// Leave the interface.
    Quit,
    /// Start downloading the URL that was typed.
    StartDownload(String),
    /// Search for the text that was typed.
    RunSearch(String),
    /// Remove the item at this position from the list.
    DeleteItem(usize),
    /// Copy the URL of the item at this position to the clipboard.
    CopyUrl(usize),
}

/// An effect as a value.
pub enum EffectView {
    Nothing,
    Quit,
    StartDownload(Seq<char>),
    RunSearch(Seq<char>),
    DeleteItem(nat),
    CopyUrl(nat),
}

impl View for TuiEffect {
    type V = EffectView;

    open spec fn view(&self) -> EffectView {
        match self {
            TuiEffect::Nothing => EffectView::Nothing,
            TuiEffect::Quit => EffectView::Quit,
            TuiEffect::StartDownload(u) => EffectView::StartDownload(u@),
            TuiEffect::RunSearch(q) => EffectView::RunSearch(q@),
            TuiEffect::DeleteItem(i) => EffectView::DeleteItem(*i as nat),
            TuiEffect::CopyUrl(i) => EffectView::CopyUrl(*i as nat),
        }
    }
}

/// Whether the selection stands on an item of the list (on the first
/// position when the list is empty).
pub open spec fn selection_ok(s: TuiView) -> bool {
    if s.count == 0 {
        s.selected == 0
    } else {
        s.selected < s.count
    }
}

/// The last position of a list of `count` items (0 when it is empty).
pub open spec fn last_position(count: nat) -> nat {
    if count > 0 {
        (count - 1) as nat
    } else {
        0
    }
}

/// The selection kept on a list that now has `count` items: the same
/// position if it is still there, else the last one.
pub open spec fn clamped(selected: nat, count: nat) -> nat {
    if selected < count {
        selected
    } else {
        last_position(count)
    }
}

/// What an action does while no text is being typed.
///
/// Quitting first closes an open overlay (help, then settings); adding a
/// URL or searching starts typing into an empty text; help and settings
/// toggle their overlays; the moves go one item down or up within the
/// list, or to its first or last item; confirming closes the overlays;
/// deleting removes the selected item; copying copies its URL; pausing and
/// cancelling change nothing.
pub open spec fn normal_step(s: TuiView, a: Option<Action>) -> (TuiView, EffectView) {
    match a {
        None => (s, EffectView::Nothing),
        Some(Action::Quit) => if s.help {
            (TuiView { help: false, ..s }, EffectView::Nothing)
        } else if s.settings {
            (TuiView { settings: false, ..s }, EffectView::Nothing)
        } else {
            (s, EffectView::Quit)
        },
        Some(Action::AddUrl) => (TuiView { mode: InputMode::Input, buffer: Seq::empty(), ..s }, EffectView::Nothing),
        Some(Action::Search) => (TuiView { mode: InputMode::Search, buffer: Seq::empty(), ..s }, EffectView::Nothing),
        Some(Action::Help) => (TuiView { help: !s.help, ..s }, EffectView::Nothing),
        Some(Action::Settings) => (TuiView { settings: !s.settings, ..s }, EffectView::Nothing),
        Some(Action::MoveDown) => if s.selected + 1 < s.count {
            (TuiView { selected: s.selected + 1, ..s }, EffectView::Nothing)
        } else {
            (s, EffectView::Nothing)
        },
        Some(Action::MoveUp) => if s.selected > 0 {
            (TuiView { selected: (s.selected - 1) as nat, ..s }, EffectView::Nothing)
        } else {
            (s, EffectView::Nothing)
        },
        Some(Action::MoveFirst) => (TuiView { selected: 0, ..s }, EffectView::Nothing),
        Some(Action::MoveLast) => (TuiView { selected: last_position(s.count), ..s }, EffectView::Nothing),
        Some(Action::Confirm) => (TuiView { help: false, settings: false, ..s }, EffectView::Nothing),
        Some(Action::Delete) => if s.selected < s.count {
            let count = (s.count - 1) as nat;
            (TuiView { count, selected: clamped(s.selected, count), ..s }, EffectView::DeleteItem(s.selected))
        } else {
            (s, EffectView::Nothing)
        },
        Some(Action::CopyUrl) => if s.selected < s.count {
            (s, EffectView::CopyUrl(s.selected))
        } else {
            (s, EffectView::Nothing)
        },
        Some(Action::Pause) | Some(Action::Cancel) => (s, EffectView::Nothing),
    }
}

/// What a key does while text is being typed: Esc drops the text and
/// stops typing; Enter hands a non-empty text on (a URL to download, or a
/// search) and stops typing, and does nothing on an empty text; Backspace
/// and Delete remove the last character; Ctrl-C quits; other characters
/// typed with Control do nothing, and the rest are added to the text.
pub open spec fn input_step(s: TuiView, k: KeyPress) -> (TuiView, EffectView) {
    match k.key {
        Key::Esc => (TuiView { mode: InputMode::Normal, buffer: Seq::empty(), ..s }, EffectView::Nothing),
        Key::Enter => if s.buffer.len() == 0 {
            (s, EffectView::Nothing)
        } else {
            (
                TuiView { mode: InputMode::Normal, buffer: Seq::empty(), ..s },
                if s.mode == InputMode::Input {
                    EffectView::StartDownload(s.buffer)
                } else {
                    EffectView::RunSearch(s.buffer)
                },
            )
        },
        Key::Backspace | Key::Delete => if s.buffer.len() > 0 {
            (TuiView { buffer: s.buffer.drop_last(), ..s }, EffectView::Nothing)
        } else {
            (s, EffectView::Nothing)
        },
        Key::Char(c) => if k.control {
            if c == 'c' {
                (s, EffectView::Quit)
            } else {
                (s, EffectView::Nothing)
            }
        } else {
            (TuiView { buffer: s.buffer.push(c), ..s }, EffectView::Nothing)
        },
        _ => (s, EffectView::Nothing),
    }
}

/// Whether a key press is Ctrl-C, which quits at once.
pub open spec fn is_force_quit(k: KeyPress) -> bool {
    k.key == Key::Char('c') && k.control
}

/// What a key press does: Ctrl-C quits at once; otherwise, while typing,
/// see [`input_step`], and else the key's action (see [`action_of`]) is
/// taken as [`normal_step`] says.
pub open spec fn key_step(s: TuiView, k: KeyPress) -> (TuiView, EffectView) {
    if is_force_quit(k) {
        (s, EffectView::Quit)
    } else if s.mode == InputMode::Normal {
        normal_step(s, action_of(k))
    } else {
        input_step(s, k)
    }
}

impl TuiState {
    /// The state the interface starts in: an empty list, nothing typed, no
    /// overlay.
    pub fn new() -> (s: TuiState)
        ensures
            s@ == (TuiView {
                selected: 0,
                count: 0,
                mode: InputMode::Normal,
                help: false,
                settings: false,
                buffer: Seq::empty(),
            }),
    {
        TuiState {
            selected_index: 0,
            item_count: 0,
            input_mode: InputMode::Normal,
            show_help: false,
            show_settings: false,
            input_buffer: Vec::new(),
        }
    }

    /// The state for a list that now has `count` items: the selection is
    /// kept where it is if that item is still there, else it goes to the
    /// last one.
    pub fn with_item_count(self, count: usize) -> (r: TuiState)
        ensures
            r@ == (TuiView { count: count as nat, selected: clamped(self@.selected, count as nat), ..self@ }),
            selection_ok(r@),
    {
        let selected = if self.selected_index < count {
            self.selected_index
        } else if count > 0 {
            count - 1
        } else {
            0
        };
        TuiState { selected_index: selected, item_count: count, ..self }
    }
}

/// What an action does while no text is being typed (see [`normal_step`]).
pub fn tui_step(s: TuiState, a: Option<Action>) -> (r: (TuiState, TuiEffect))
    ensures
        (r.0@, r.1@) == normal_step(s@, a),
        selection_ok(s@) ==> selection_ok(r.0@),
{
    match a {
        None => (s, TuiEffect::Nothing),
        Some(Action::Quit) => if s.show_help {
            (TuiState { show_help: false, ..s }, TuiEffect::Nothing)
        } else if s.show_settings {
            (TuiState { show_settings: false, ..s }, TuiEffect::Nothing)
        } else {
            (s, TuiEffect::Quit)
        },
        Some(Action::AddUrl) => (TuiState { input_mode: InputMode::Input, input_buffer: Vec::new(), ..s }, TuiEffect::Nothing),
        Some(Action::Search) => (TuiState { input_mode: InputMode::Search, input_buffer: Vec::new(), ..s }, TuiEffect::Nothing),
        Some(Action::Help) => {
            let help = !s.show_help;
            (TuiState { show_help: help, ..s }, TuiEffect::Nothing)
        },
        Some(Action::Settings) => {
            let settings = !s.show_settings;
            (TuiState { show_settings: settings, ..s }, TuiEffect::Nothing)
        },
        Some(Action::MoveDown) => if s.selected_index < s.item_count && s.item_count - s.selected_index > 1 {
            let next = s.selected_index + 1;
            (TuiState { selected_index: next, ..s }, TuiEffect::Nothing)
        } else {
            (s, TuiEffect::Nothing)
        },
        Some(Action::MoveUp) => if s.selected_index > 0 {
            let prev = s.selected_index - 1;
            (TuiState { selected_index: prev, ..s }, TuiEffect::Nothing)
        } else {
            (s, TuiEffect::Nothing)
        },
        Some(Action::MoveFirst) => (TuiState { selected_index: 0, ..s }, TuiEffect::Nothing),
        Some(Action::MoveLast) => {
            let last = if s.item_count > 0 { s.item_count - 1 } else { 0 };
            (TuiState { selected_index: last, ..s }, TuiEffect::Nothing)
        },
        Some(Action::Confirm) => (TuiState { show_help: false, show_settings: false, ..s }, TuiEffect::Nothing),
        Some(Action::Delete) => if s.selected_index < s.item_count {
            let removed = s.selected_index;
            let count = s.item_count - 1;
            let selected = if removed < count {
                removed
            } else if count > 0 {
                count - 1
            } else {
                0
            };
            (TuiState { selected_index: selected, item_count: count, ..s }, TuiEffect::DeleteItem(removed))
        } else {
            (s, TuiEffect::Nothing)
        },
        Some(Action::CopyUrl) => if s.selected_index < s.item_count {
            let i = s.selected_index;
            (s, TuiEffect::CopyUrl(i))
        } else {
            (s, TuiEffect::Nothing)
        },
        Some(Action::Pause) | Some(Action::Cancel) => (s, TuiEffect::Nothing),
    }
}

/// What a key does while text is being typed (see [`input_step`]).
pub fn tui_input_step(s: TuiState, k: KeyPress) -> (r: (TuiState, TuiEffect))
    requires
        s@.mode != InputMode::Normal,
    ensures
        (r.0@, r.1@) == input_step(s@, k),
        selection_ok(s@) ==> selection_ok(r.0@),
{
    match k.key {
        Key::Esc => (TuiState { input_mode: InputMode::Normal, input_buffer: Vec::new(), ..s }, TuiEffect::Nothing),
        Key::Enter => if s.input_buffer.len() == 0 {
            (s, TuiEffect::Nothing)
        } else {
            let text = string_from_chars(&s.input_buffer);
            let effect = if s.input_mode == InputMode::Input {
                TuiEffect::StartDownload(text)
            } else {
                TuiEffect::RunSearch(text)
            };
            (TuiState { input_mode: InputMode::Normal, input_buffer: Vec::new(), ..s }, effect)
        },
        Key::Backspace | Key::Delete => if s.input_buffer.len() > 0 {
            let mut buffer = s.input_buffer;
            buffer.pop();
            proof {
                assert(buffer@ =~= s@.buffer.drop_last());
            }
            (TuiState { input_buffer: buffer, ..s }, TuiEffect::Nothing)
        } else {
            (s, TuiEffect::Nothing)
        },
        Key::Char(c) => if k.control {
            if c == 'c' {
                (s, TuiEffect::Quit)
            } else {
                (s, TuiEffect::Nothing)
            }
        } else {
            let mut buffer = s.input_buffer;
            buffer.push(c);
            (TuiState { input_buffer: buffer, ..s }, TuiEffect::Nothing)
        },
        _ => (s, TuiEffect::Nothing),
    }
}

/// What a key press does (see [`key_step`]).
pub fn tui_key(s: TuiState, k: KeyPress) -> (r: (TuiState, TuiEffect))
    ensures
        (r.0@, r.1@) == key_step(s@, k),
        selection_ok(s@) ==> selection_ok(r.0@),
{
    let force_quit = match k.key {
        Key::Char(c) => c == 'c' && k.control,
        _ => false,
    };
    if force_quit {
        (s, TuiEffect::Quit)
    } else if s.input_mode == InputMode::Normal {
        let a = handle_key_event(k);
        tui_step(s, a)
    } else {
        tui_input_step(s, k)
    }
}

/// Every key press keeps the selection on an item of the list.
pub proof fn law_selection_stays_in_list(s: TuiView, k: KeyPress)
    requires
        selection_ok(s),
    ensures
        selection_ok(key_step(s, k).0),
{
}

/// Esc while typing drops the text, stops typing and asks for nothing.
pub proof fn law_escape_drops_typing(s: TuiView)
    requires
        s.mode != InputMode::Normal,
    ensures
        key_step(s, KeyPress { key: Key::Esc, control: false }) == (
            TuiView { mode: InputMode::Normal, buffer: Seq::<char>::empty(), ..s },
            EffectView::Nothing,
        ),
{
}

/// Pressing the help key twice, while nothing is typed, gives back the
/// state it started from.
pub proof fn law_help_twice_is_identity(s: TuiView)
    requires
        s.mode == InputMode::Normal,
    ensures
        key_step(key_step(s, KeyPress { key: Key::Char('h'), control: false }).0, KeyPress { key: Key::Char('h'), control: false }).0 == s,
{
}

/// Enter after typing a URL asks to download exactly the typed text.
pub proof fn law_enter_starts_typed_download(s: TuiView)
    requires
        s.mode == InputMode::Input,
        s.buffer.len() > 0,
    ensures
        key_step(s, KeyPress { key: Key::Enter, control: false }).1 == EffectView::StartDownload(s.buffer),
{
}


/// A key pressed without Control.
pub open spec fn plain_key(key: Key) -> KeyPress {
    KeyPress { key, control: false }
}

/// The vim-style keys do what the arrow keys do, in every state in which
/// nothing is being typed: `j` as Down, `k` as Up, `g` as Home, `G` as End.
pub proof fn law_vim_keys_match_arrows(s: TuiView)
    requires
        s.mode == InputMode::Normal,
    ensures
        key_step(s, plain_key(Key::Char('j'))) == key_step(s, plain_key(Key::Down)),
        key_step(s, plain_key(Key::Char('k'))) == key_step(s, plain_key(Key::Up)),
        key_step(s, plain_key(Key::Char('g'))) == key_step(s, plain_key(Key::Home)),
        key_step(s, plain_key(Key::Char('G'))) == key_step(s, plain_key(Key::End)),
{
}

/// Moving down and then up (by `j` then `k`, or Down then Up) returns the
/// selection to where it was, whenever there is an item below it.
pub proof fn law_up_undoes_down(s: TuiView)
    requires
        s.mode == InputMode::Normal,
        s.selected + 1 < s.count,
    ensures
        key_step(s, plain_key(Key::Down)).0.selected == s.selected + 1,
        key_step(key_step(s, plain_key(Key::Down)).0, plain_key(Key::Up)).0 == s,
        key_step(key_step(s, plain_key(Key::Char('j'))).0, plain_key(Key::Char('k'))).0 == s,
{
}

/// Home selects the first item and End the last one; from the last item,
/// Up selects the one before it, and from the first item, Down the one
/// after it.
pub proof fn law_home_end_and_neighbours(s: TuiView)
    requires
        s.mode == InputMode::Normal,
        s.count >= 2,
    ensures
        key_step(s, plain_key(Key::Home)).0.selected == 0,
        key_step(s, plain_key(Key::End)).0.selected == s.count - 1,
        key_step(key_step(s, plain_key(Key::End)).0, plain_key(Key::Char('k'))).0.selected == s.count - 2,
        key_step(key_step(s, plain_key(Key::Home)).0, plain_key(Key::Char('j'))).0.selected == 1,
{
}

} // verus!
