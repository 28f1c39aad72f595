//! The session: one aggregate owning the focus, the input mode, the
//! query buffer, the pending command and the per-panel scroll positions,
//! together with the key-transition function of the main loop.

use vstd::prelude::*;
use crate::command::ModuleCommand;
use crate::focus::Blocks;
use crate::input::InputMode;
use crate::key::{digit_value, digit_value_spec, Key};
use crate::query::{cursor_col_spec, display_width, pop_char, push_char, text_width};
use crate::scroll::{scroll_index, scroll_spec, ScrollDirection};

verus! {

/// What the main loop must do after a key was handled, beyond the state
/// change itself.  `Execute` asks for the pending command to be run by
/// the privileged collaborator (the session reports which through its
/// `command` and `command_target` fields); on success the caller feeds a
/// refresh keystroke back into the event stream, on failure it surfaces
/// the error text and calls `command_rejected`.  `Refresh` asks for
/// fresh collaborator snapshots and a session rebuilt from them.
/// `ShowUsedModule(p)` asks to look up the module at position `p` of the
/// current module's "used by" list.
#[derive(Clone, Copy, PartialEq, Eq, Structural, Debug)]
pub enum Action {
    Nothing,
    Quit,
    Refresh,
    ShowHelp,
    Execute,
    ShowUsedModule(usize),
}

/// The abstract value of a session: every field of the state machine as
/// a mathematical value.
#[verifier::ext_equal]
pub struct SessionView {
    /// The panel holding the focus.
    pub focus: Blocks,
    /// Whether text entry is active, and its sub-mode.
    pub mode: InputMode,
    /// The characters of the query buffer.
    pub query: Seq<char>,
    /// The pending module action, if any.
    pub command: ModuleCommand,
    /// The module name the pending action is bound to.
    pub target: Seq<char>,
    /// The names of the listed modules.
    pub names: Seq<Seq<char>>,
    /// The selected row of the module list.
    pub list_index: int,
    /// The direction of the most recent module-list scroll, which the
    /// renderer uses to move the list viewport.
    pub list_scroll: ScrollDirection,
    /// Position and extent of the module-information viewport.
    pub info_index: int,
    pub info_len: int,
    /// Position and extent of the activity-log viewport.
    pub log_index: int,
    pub log_len: int,
    /// The kernel-information category on display, of a fixed count.
    pub kinfo_index: int,
    pub kinfo_count: int,
}

impl SessionView {
    /// Well-formedness: every scroll position lies inside its collection
    /// (and sits at 0 when the collection is empty), the category index
    /// is valid, module names are nonempty, a pending command is bound
    /// to a nonempty name, and active text entry implies the input panel
    /// holds the focus.
    pub open spec fn wf(self) -> bool {
        &&& 0 <= self.list_index
        &&& if self.names.len() == 0 { self.list_index == 0 } else { self.list_index < self.names.len() }
        &&& 0 <= self.info_index
        &&& 0 <= self.info_len
        &&& if self.info_len == 0 { self.info_index == 0 } else { self.info_index < self.info_len }
        &&& 0 <= self.log_index
        &&& 0 <= self.log_len
        &&& if self.log_len == 0 { self.log_index == 0 } else { self.log_index < self.log_len }
        &&& 0 < self.kinfo_count
        &&& 0 <= self.kinfo_index < self.kinfo_count
        &&& forall|i: int| 0 <= i < self.names.len() ==> (#[trigger] self.names[i]).len() > 0
        &&& self.command != ModuleCommand::Idle ==> self.target.len() > 0
        &&& self.mode != InputMode::Idle ==> self.focus == Blocks::UserInput
    }
}

/// A fresh session over the given collaborator snapshots: the module
/// table focused, text entry and the pending command at rest, the query
/// empty, every scroll position at the top.
pub open spec fn fresh_view(
    names: Seq<Seq<char>>,
    info_len: int,
    log_len: int,
    kinfo_count: int,
) -> SessionView {
    SessionView {
        focus: Blocks::ModuleTable,
        mode: InputMode::Idle,
        query: Seq::empty(),
        command: ModuleCommand::Idle,
        target: Seq::empty(),
        names: names,
        list_index: 0,
        list_scroll: ScrollDirection::Top,
        info_index: 0,
        info_len: info_len,
        log_index: 0,
        log_len: log_len,
        kinfo_index: 0,
        kinfo_count: kinfo_count,
    }
}

/// One scroll request routed to whichever panel holds the focus; panels
/// that cannot scroll ignore it.
pub open spec fn scrolled_view(s: SessionView, dir: ScrollDirection) -> SessionView {
    if s.focus == Blocks::ModuleTable {
        SessionView {
            list_index: scroll_spec(s.list_index, s.names.len() as int, dir),
            list_scroll: dir,
            ..s
        }
    } else if s.focus == Blocks::ModuleInfo {
        SessionView { info_index: scroll_spec(s.info_index, s.info_len, dir), ..s }
    } else if s.focus == Blocks::Activities {
        SessionView { log_index: scroll_spec(s.log_index, s.log_len, dir), ..s }
    } else {
        s
    }
}

/// A jump of the module list to one of its extremes, forcing the focus
/// to the module table.
pub open spec fn jumped_view(s: SessionView, dir: ScrollDirection) -> SessionView {
    SessionView {
        focus: Blocks::ModuleTable,
        list_index: scroll_spec(s.list_index, s.names.len() as int, dir),
        list_scroll: dir,
        ..s
    }
}

/// A module action staged for confirmation, bound to the name of the
/// highlighted module; with an empty module list nothing is staged.
pub open spec fn staged_view(s: SessionView, kind: ModuleCommand) -> SessionView {
    if s.names.len() > 0 {
        SessionView { command: kind, target: s.names[s.list_index], ..s }
    } else {
        s
    }
}

/// A pending command dismissed: the module table takes the focus and the
/// selection is nudged one row — down by one with a `Down` viewport
/// scroll when it was not at the top, otherwise up to row 1 (clamped to
/// the list) with an `Up` viewport scroll — so the highlighted row stays
/// visually stable under the vanished confirmation prompt.
pub open spec fn cancelled_view(s: SessionView) -> SessionView {
    if s.list_index != 0 {
        SessionView {
            focus: Blocks::ModuleTable,
            command: ModuleCommand::Idle,
            list_index: s.list_index - 1,
            list_scroll: ScrollDirection::Down,
            ..s
        }
    } else {
        SessionView {
            focus: Blocks::ModuleTable,
            command: ModuleCommand::Idle,
            list_index: if s.names.len() >= 2 { 1 as int } else { 0 as int },
            list_scroll: ScrollDirection::Up,
            ..s
        }
    }
}

/// Whether a trigger key selects the `Load` sub-mode on entering text
/// entry; every other trigger selects `Search`.
pub open spec fn is_load_trigger(k: Key) -> bool {
    ||| k == Key::Char('m')
    ||| k == Key::Char('M')
    ||| k == Key::Char('i')
    ||| k == Key::Char('I')
    ||| k == Key::Char('+')
}

/// Text entry begun: the input panel takes the focus and the trigger key
/// picks the sub-mode.  Every trigger clears the query except the
/// newline key, which deliberately resumes the previous query.
pub open spec fn entered_input_view(s: SessionView, k: Key) -> SessionView {
    SessionView {
        focus: Blocks::UserInput,
        mode: if is_load_trigger(k) { InputMode::Load } else { InputMode::Search },
        query: if k == Key::Char('\n') { s.query } else { Seq::empty() },
        ..s
    }
}

/// Text entry left.  The key picks the next focus: left-going keys step
/// backward through the panel cycle, newline lands on the panel the
/// sub-mode acts on (module information for `Load`, the module table for
/// `Search`), every other exit key lands on the module table.  Leaving
/// `Search` with the selection at the top re-requests a `Top` viewport
/// scroll so the first match is shown; leaving `Load` with a nonempty
/// query stages it as the target of a pending load command and clears
/// the buffer; leaving with an empty query submits nothing.
pub open spec fn exited_input_view(s: SessionView, k: Key) -> SessionView {
    let focus = if k == Key::Left || k == Key::Ctrl('h') {
        s.focus.prev_spec()
    } else if k == Key::Char('\n') {
        if s.mode == InputMode::Load {
            Blocks::ModuleInfo
        } else {
            Blocks::ModuleTable
        }
    } else {
        Blocks::ModuleTable
    };
    if s.mode == InputMode::Search && s.list_index == 0 {
        SessionView { focus, mode: InputMode::Idle, list_scroll: ScrollDirection::Top, ..s }
    } else if s.mode == InputMode::Load && s.query.len() > 0 {
        SessionView {
            focus,
            mode: InputMode::Idle,
            command: ModuleCommand::Load,
            target: s.query,
            query: Seq::empty(),
            ..s
        }
    } else {
        SessionView { focus, mode: InputMode::Idle, ..s }
    }
}

/// The transition taken by one keystroke while text entry is at rest:
/// the new state and what the main loop must do.
pub open spec fn step_default_spec(s: SessionView, k: Key) -> (SessionView, Action) {
    match k {
        Key::Char('q') | Key::Char('Q') | Key::Ctrl('c') | Key::Ctrl('d') | Key::Esc => (
            s,
            Action::Quit,
        ),
        Key::Char('r') | Key::Char('R') | Key::F(5) => (s, Action::Refresh),
        Key::Char('?') | Key::F(1) => (
            SessionView { focus: Blocks::ModuleInfo, ..s },
            Action::ShowHelp,
        ),
        Key::Up | Key::Char('k') | Key::Char('K') => (
            scrolled_view(s, ScrollDirection::Up),
            Action::Nothing,
        ),
        Key::Down | Key::Char('j') | Key::Char('J') => (
            scrolled_view(s, ScrollDirection::Down),
            Action::Nothing,
        ),
        Key::Left | Key::Char('h') | Key::Char('H') | Key::Ctrl('h') => (
            SessionView { focus: s.focus.prev_spec(), ..s },
            Action::Nothing,
        ),
        Key::Right | Key::Char('l') | Key::Char('L') | Key::Ctrl('l') => (
            SessionView { focus: s.focus.next_spec(), ..s },
            Action::Nothing,
        ),
        Key::Char('t') | Key::Char('T') | Key::Home => (
            jumped_view(s, ScrollDirection::Top),
            Action::Nothing,
        ),
        Key::Char('b') | Key::Char('B') | Key::End => (
            jumped_view(s, ScrollDirection::Bottom),
            Action::Nothing,
        ),
        Key::PageUp => (
            SessionView {
                focus: Blocks::Activities,
                log_index: scroll_spec(s.log_index, s.log_len, ScrollDirection::Up),
                ..s
            },
            Action::Nothing,
        ),
        Key::PageDown => (
            SessionView {
                focus: Blocks::Activities,
                log_index: scroll_spec(s.log_index, s.log_len, ScrollDirection::Down),
                ..s
            },
            Action::Nothing,
        ),
        Key::Char('<') | Key::Alt(' ') => (
            SessionView {
                focus: Blocks::ModuleInfo,
                info_index: scroll_spec(s.info_index, s.info_len, ScrollDirection::Up),
                ..s
            },
            Action::Nothing,
        ),
        Key::Char('>') | Key::Char(' ') => (
            SessionView {
                focus: Blocks::ModuleInfo,
                info_index: scroll_spec(s.info_index, s.info_len, ScrollDirection::Down),
                ..s
            },
            Action::Nothing,
        ),
        Key::Char('\t') | Key::BackTab => (
            SessionView { kinfo_index: (s.kinfo_index + 1) % s.kinfo_count, ..s },
            Action::Nothing,
        ),
        Key::Char('u') | Key::Char('U') | Key::Char('-') | Key::Backspace => (
            staged_view(s, ModuleCommand::Unload),
            Action::Nothing,
        ),
        Key::Char('x') | Key::Char('X') | Key::Ctrl('b') | Key::Delete => (
            staged_view(s, ModuleCommand::Blacklist),
            Action::Nothing,
        ),
        Key::Char('y') | Key::Char('Y') => if s.command != ModuleCommand::Idle {
            (s, Action::Execute)
        } else {
            (s, Action::Nothing)
        },
        Key::Char('n') | Key::Char('N') => if s.command != ModuleCommand::Idle {
            (cancelled_view(s), Action::Nothing)
        } else {
            (s, Action::Nothing)
        },
        Key::Char('\n') | Key::Char('s') | Key::Char('S') | Key::Char('m') | Key::Char('M')
        | Key::Char('i') | Key::Char('I') | Key::Char('+') | Key::Char('/') | Key::Insert => (
            entered_input_view(s, k),
            Action::Nothing,
        ),
        Key::Char(c) => if digit_value_spec(c) > 0 {
            (s, Action::ShowUsedModule((digit_value_spec(c) - 1) as usize))
        } else {
            (s, Action::Nothing)
        },
        _ => (s, Action::Nothing),
    }
}

/// The transition taken by one keystroke while text entry is active.
pub open spec fn step_input_spec(s: SessionView, k: Key) -> (SessionView, Action) {
    match k {
        Key::Ctrl('c') | Key::Ctrl('d') | Key::Esc => (s, Action::Quit),
        Key::Up => (
            SessionView { mode: s.mode.cycle_up_spec(), query: Seq::empty(), ..s },
            Action::Nothing,
        ),
        Key::Down => (
            SessionView { mode: s.mode.cycle_down_spec(), query: Seq::empty(), ..s },
            Action::Nothing,
        ),
        Key::Char('\n') | Key::Char('\t') | Key::Right | Key::Ctrl('l') | Key::Left
        | Key::Ctrl('h') => (exited_input_view(s, k), Action::Nothing),
        Key::Char(c) => (
            SessionView { query: s.query.push(c), list_index: 0, ..s },
            Action::Nothing,
        ),
        Key::Backspace | Key::Delete => (
            SessionView {
                query: if s.query.len() > 0 { s.query.drop_last() } else { s.query },
                list_index: 0,
                ..s
            },
            Action::Nothing,
        ),
        _ => (s, Action::Nothing),
    }
}

/// The transition taken by one keystroke: routed by whether text entry
/// is active.
pub open spec fn step_spec(s: SessionView, k: Key) -> (SessionView, Action) {
    if s.mode == InputMode::Idle {
        step_default_spec(s, k)
    } else {
        step_input_spec(s, k)
    }
}

/// Every keystroke keeps a well-formed session well-formed: scroll
/// positions stay inside their collections, the category index stays
/// valid, a pending command stays bound to a nonempty name, and active
/// text entry keeps the input panel focused.
pub proof fn lemma_step_preserves_wf(s: SessionView, k: Key)
    requires
        s.wf(),
    ensures
        step_spec(s, k).0.wf(),
{
}

/// The state of one dashboard session.  All mutation happens through the
/// key-transition methods on the single consumer of the event stream.
pub struct Session {
    /// The panel holding the focus.
    pub selected_block: Blocks,
    /// Whether text entry is active, and its sub-mode.
    pub input_mode: InputMode,
    /// The query buffer edited while text entry is active.
    pub input_query: String,
    /// The pending module action, if any.
    pub command: ModuleCommand,
    /// The module name the pending action is bound to.
    pub command_target: String,
    /// The names of the listed modules, as the collaborator snapshot
    /// gave them.
    pub module_names: Vec<String>,
    /// The selected row of the module list.
    pub list_index: usize,
    /// The direction of the most recent module-list scroll.
    pub list_scroll: ScrollDirection,
    /// Position of the module-information viewport.
    pub info_index: usize,
    /// Extent of the module-information text.
    pub info_len: usize,
    /// Position of the activity-log viewport.
    pub log_index: usize,
    /// Extent of the activity log.
    pub log_len: usize,
    /// The kernel-information category on display.
    pub kinfo_index: usize,
    /// How many kernel-information categories the collaborator offers.
    pub kinfo_count: usize,
}

impl View for Session {
    type V = SessionView;

    open spec fn view(&self) -> SessionView {
        SessionView {
            focus: self.selected_block,
            mode: self.input_mode,
            query: self.input_query@,
            command: self.command,
            target: self.command_target@,
            names: self.module_names.deep_view(),
            list_index: self.list_index as int,
            list_scroll: self.list_scroll,
            info_index: self.info_index as int,
            info_len: self.info_len as int,
            log_index: self.log_index as int,
            log_len: self.log_len as int,
            kinfo_index: self.kinfo_index as int,
            kinfo_count: self.kinfo_count as int,
        }
    }
}

impl Session {
    /// A fresh session over the given collaborator snapshots: the module
    /// list's names, the extent of the module-information text and of
    /// the activity log, and how many kernel-information categories
    /// exist (at least one).  Module names are nonempty.
    pub fn new(
        module_names: Vec<String>,
        info_len: usize,
        log_len: usize,
        kinfo_count: usize,
    ) -> (r: Session)
        requires
            kinfo_count >= 1,
            forall|i: int|
                0 <= i < module_names@.len() ==> (#[trigger] module_names@[i])@.len() > 0,
        ensures
            r@ == fresh_view(
                module_names.deep_view(),
                info_len as int,
                log_len as int,
                kinfo_count as int,
            ),
            r@.wf(),
    {
        let r = Session {
            selected_block: Blocks::ModuleTable,
            input_mode: InputMode::Idle,
            input_query: String::new(),
            command: ModuleCommand::Idle,
            command_target: String::new(),
            module_names,
            list_index: 0,
            list_scroll: ScrollDirection::Top,
            info_index: 0,
            info_len,
            log_index: 0,
            log_len,
            kinfo_index: 0,
            kinfo_count,
        };
        proof {
            assert(r@ =~= fresh_view(
                r.module_names.deep_view(),
                info_len as int,
                log_len as int,
                kinfo_count as int,
            ));
        }
        r
    }

    /// Handle one keystroke: the session takes the transition of the
    /// state machine and reports what the main loop must do beyond it.
    pub fn handle_key(&mut self, k: Key) -> (r: Action)
        requires
            old(self)@.wf(),
        ensures
            final(self)@ == step_spec(old(self)@, k).0,
            r == step_spec(old(self)@, k).1,
            final(self)@.wf(),
    {
        proof {
            lemma_step_preserves_wf(old(self)@, k);
        }
        if self.input_mode.is_active() {
            self.handle_key_input(k)
        } else {
            self.handle_key_default(k)
        }
    }

    fn handle_key_default(&mut self, k: Key) -> (r: Action)
        requires
            old(self)@.wf(),
            old(self).input_mode == InputMode::Idle,
        ensures
            final(self)@ == step_default_spec(old(self)@, k).0,
            r == step_default_spec(old(self)@, k).1,
    {
        match k {
            Key::Char('q') | Key::Char('Q') | Key::Ctrl('c') | Key::Ctrl('d') | Key::Esc => {
                Action::Quit
            },
            Key::Char('r') | Key::Char('R') | Key::F(5) => Action::Refresh,
            Key::Char('?') | Key::F(1) => {
                self.selected_block = Blocks::ModuleInfo;
                Action::ShowHelp
            },
            Key::Up | Key::Char('k') | Key::Char('K') => {
                self.scroll_focused(ScrollDirection::Up);
                Action::Nothing
            },
            Key::Down | Key::Char('j') | Key::Char('J') => {
                self.scroll_focused(ScrollDirection::Down);
                Action::Nothing
            },
            Key::Left | Key::Char('h') | Key::Char('H') | Key::Ctrl('h') => {
                self.selected_block = self.selected_block.prev();
                Action::Nothing
            },
            Key::Right | Key::Char('l') | Key::Char('L') | Key::Ctrl('l') => {
                self.selected_block = self.selected_block.next();
                Action::Nothing
            },
            Key::Char('t') | Key::Char('T') | Key::Home => {
                self.selected_block = Blocks::ModuleTable;
                self.list_index = scroll_index(
                    self.list_index,
                    self.module_names.len(),
                    ScrollDirection::Top,
                );
                self.list_scroll = ScrollDirection::Top;
                Action::Nothing
            },
            Key::Char('b') | Key::Char('B') | Key::End => {
                self.selected_block = Blocks::ModuleTable;
                self.list_index = scroll_index(
                    self.list_index,
                    self.module_names.len(),
                    ScrollDirection::Bottom,
                );
                self.list_scroll = ScrollDirection::Bottom;
                Action::Nothing
            },
            Key::PageUp => {
                self.selected_block = Blocks::Activities;
                self.log_index = scroll_index(self.log_index, self.log_len, ScrollDirection::Up);
                Action::Nothing
            },
            Key::PageDown => {
                self.selected_block = Blocks::Activities;
                self.log_index = scroll_index(self.log_index, self.log_len, ScrollDirection::Down);
                Action::Nothing
            },
            Key::Char('<') | Key::Alt(' ') => {
                self.selected_block = Blocks::ModuleInfo;
                self.info_index = scroll_index(self.info_index, self.info_len, ScrollDirection::Up);
                Action::Nothing
            },
            Key::Char('>') | Key::Char(' ') => {
                self.selected_block = Blocks::ModuleInfo;
                self.info_index = scroll_index(
                    self.info_index,
                    self.info_len,
                    ScrollDirection::Down,
                );
                Action::Nothing
            },
            Key::Char('\t') | Key::BackTab => {
                self.kinfo_index = (self.kinfo_index + 1) % self.kinfo_count;
                Action::Nothing
            },
            Key::Char('u') | Key::Char('U') | Key::Char('-') | Key::Backspace => {
                self.stage_command(ModuleCommand::Unload);
                Action::Nothing
            },
            Key::Char('x') | Key::Char('X') | Key::Ctrl('b') | Key::Delete => {
                self.stage_command(ModuleCommand::Blacklist);
                Action::Nothing
            },
            Key::Char('y') | Key::Char('Y') => {
                if !self.command.is_idle() {
                    Action::Execute
                } else {
                    Action::Nothing
                }
            },
            Key::Char('n') | Key::Char('N') => {
                if !self.command.is_idle() {
                    self.selected_block = Blocks::ModuleTable;
                    self.command = ModuleCommand::Idle;
                    if self.list_index != 0 {
                        self.list_index = self.list_index - 1;
                        self.list_scroll = ScrollDirection::Down;
                    } else {
                        self.list_index = if self.module_names.len() >= 2 { 1 } else { 0 };
                        self.list_scroll = ScrollDirection::Up;
                    }
                }
                Action::Nothing
            },
            Key::Char('\n') | Key::Char('s') | Key::Char('S') | Key::Char('m') | Key::Char('M')
            | Key::Char('i') | Key::Char('I') | Key::Char('+') | Key::Char('/') | Key::Insert => {
                self.selected_block = Blocks::UserInput;
                self.input_mode = match k {
                    Key::Char('m') | Key::Char('M') | Key::Char('i') | Key::Char('I')
                    | Key::Char('+') => InputMode::Load,
                    _ => InputMode::Search,
                };
                if k != Key::Char('\n') {
                    self.input_query = String::new();
                }
                Action::Nothing
            },
            Key::Char(c) => {
                let d: u32 = digit_value(c);
                if d > 0 {
                    Action::ShowUsedModule((d - 1) as usize)
                } else {
                    Action::Nothing
                }
            },
            _ => Action::Nothing,
        }
    }

    fn handle_key_input(&mut self, k: Key) -> (r: Action)
        requires
            old(self)@.wf(),
            old(self).input_mode != InputMode::Idle,
        ensures
            final(self)@ == step_input_spec(old(self)@, k).0,
            r == step_input_spec(old(self)@, k).1,
    {
        match k {
            Key::Ctrl('c') | Key::Ctrl('d') | Key::Esc => Action::Quit,
            Key::Up => {
                self.input_mode = self.input_mode.cycle_up();
                self.input_query = String::new();
                Action::Nothing
            },
            Key::Down => {
                self.input_mode = self.input_mode.cycle_down();
                self.input_query = String::new();
                Action::Nothing
            },
            Key::Char('\n') | Key::Char('\t') | Key::Right | Key::Ctrl('l') | Key::Left
            | Key::Ctrl('h') => {
                self.selected_block = match k {
                    Key::Left | Key::Ctrl('h') => self.selected_block.prev(),
                    Key::Char('\n') => {
                        if self.input_mode == InputMode::Load {
                            Blocks::ModuleInfo
                        } else {
                            Blocks::ModuleTable
                        }
                    },
                    _ => Blocks::ModuleTable,
                };
                if self.input_mode == InputMode::Search && self.list_index == 0 {
                    self.list_scroll = ScrollDirection::Top;
                } else if self.input_mode == InputMode::Load
                    && !self.input_query.as_str().is_empty() {
                    self.command = ModuleCommand::Load;
                    self.command_target = self.input_query.clone();
                    self.input_query = String::new();
                }
                self.input_mode = InputMode::Idle;
                Action::Nothing
            },
            Key::Char(c) => {
                push_char(&mut self.input_query, c);
                self.list_index = 0;
                Action::Nothing
            },
            Key::Backspace | Key::Delete => {
                let _removed: Option<char> = pop_char(&mut self.input_query);
                self.list_index = 0;
                Action::Nothing
            },
            _ => Action::Nothing,
        }
    }

    /// Route one scroll request to the panel holding the focus.
    fn scroll_focused(&mut self, dir: ScrollDirection)
        requires
            old(self)@.wf(),
        ensures
            final(self)@ == scrolled_view(old(self)@, dir),
    {
        match self.selected_block {
            Blocks::ModuleTable => {
                self.list_index = scroll_index(self.list_index, self.module_names.len(), dir);
                self.list_scroll = dir;
            },
            Blocks::ModuleInfo => {
                self.info_index = scroll_index(self.info_index, self.info_len, dir);
            },
            Blocks::Activities => {
                self.log_index = scroll_index(self.log_index, self.log_len, dir);
            },
            _ => {},
        }
    }

    /// Stage a module action for confirmation, bound to the highlighted
    /// module's name; with an empty module list nothing is staged.
    fn stage_command(&mut self, kind: ModuleCommand)
        requires
            old(self)@.wf(),
        ensures
            final(self)@ == staged_view(old(self)@, kind),
    {
        if self.module_names.len() > 0 {
            self.command = kind;
            self.command_target = self.module_names[self.list_index].clone();
        }
    }

    /// Drop a confirmed command that the privileged collaborator
    /// rejected; the failure text is the caller's to display and the
    /// session goes on.
    pub fn command_rejected(&mut self)
        requires
            old(self)@.wf(),
        ensures
            final(self)@ == (SessionView { command: ModuleCommand::Idle, ..old(self)@ }),
            final(self)@.wf(),
    {
        self.command = ModuleCommand::Idle;
    }

    /// Where to place the terminal caret this frame: hidden while text
    /// entry is at rest; otherwise shown at row 2 and at a column equal
    /// to the prompt offset of 2 plus the displayed width of the query,
    /// wrapped to the 16-bit column range of the terminal protocol.
    /// This is recomputed every frame because drawing may move the
    /// caret.
    pub fn cursor_position(&self) -> (r: Option<(u16, u16)>)
        ensures
            r is Some <==> self.input_mode != InputMode::Idle,
            r is Some ==> r->Some_0.1 == 2,
            r is Some ==> r->Some_0.0 as int == cursor_col_spec(
                display_width(self.input_query@) as int,
            ),
            r is Some && display_width(self.input_query@) + 2 < 0x10000 ==> r->Some_0.0 as int
                == display_width(self.input_query@) + 2,
    {
        if self.input_mode.is_active() {
            let w: usize = text_width(&self.input_query);
            let col: usize = (w % 0x10000 + 2) % 0x10000;
            Some((col as u16, 2))
        } else {
            None
        }
    }

    /// Install a fresh module-list snapshot (after the filter query or
    /// the loaded modules changed), clamping the selection to the new
    /// list.  Module names are nonempty.
    pub fn set_module_names(&mut self, names: Vec<String>)
        requires
            old(self)@.wf(),
            forall|i: int| 0 <= i < names@.len() ==> (#[trigger] names@[i])@.len() > 0,
        ensures
            final(self)@ == (SessionView {
                names: names.deep_view(),
                list_index: clamp_index_spec(old(self)@.list_index, names.deep_view().len() as int),
                ..old(self)@
            }),
            final(self)@.wf(),
    {
        let len: usize = names.len();
        self.module_names = names;
        self.list_index = clamp_index(self.list_index, len);
    }

    /// Record a new extent of the module-information text, clamping the
    /// viewport position to it.
    pub fn set_info_len(&mut self, n: usize)
        requires
            old(self)@.wf(),
        ensures
            final(self)@ == (SessionView {
                info_len: n as int,
                info_index: clamp_index_spec(old(self)@.info_index, n as int),
                ..old(self)@
            }),
            final(self)@.wf(),
    {
        self.info_len = n;
        self.info_index = clamp_index(self.info_index, n);
    }

    /// Record a new extent of the activity log, clamping the viewport
    /// position to it.
    pub fn set_log_len(&mut self, n: usize)
        requires
            old(self)@.wf(),
        ensures
            final(self)@ == (SessionView {
                log_len: n as int,
                log_index: clamp_index_spec(old(self)@.log_index, n as int),
                ..old(self)@
            }),
            final(self)@.wf(),
    {
        self.log_len = n;
        self.log_index = clamp_index(self.log_index, n);
    }
}

/// A position clamped into a collection of `len` items: unchanged while
/// valid, moved to the last item when beyond it, 0 on an empty
/// collection.
pub open spec fn clamp_index_spec(index: int, len: int) -> int {
    if len <= 0 {
        0
    } else if index < len {
        index
    } else {
        len - 1
    }
}

/// Clamp a position into a collection of `len` items.
fn clamp_index(index: usize, len: usize) -> (r: usize)
    ensures
        r as int == clamp_index_spec(index as int, len as int),
{
    if len == 0 {
        0
    } else if index < len {
        index
    } else {
        len - 1
    }
}

} // verus!
