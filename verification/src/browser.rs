//! The mode controller: which mode the browser is in, what a key does there,
//! and what the program around the engine is asked to do in return.
//!
//! The engine never touches the terminal or the file system. A key goes in
//! through [`Browser::handle_key`]; what comes out is the new state and an
//! [`Action`] for the caller to carry out, whose results come back through
//! [`Browser::change_directory`], [`Browser::search_results`] and
//! [`Browser::refresh_preview`].

use vstd::prelude::*;
use crate::Error;
use crate::commands::{CommandView, FileListCommand, OmnibarMode};
use crate::components::{
    entries_view, files_view, strings_view, ClipboardEntry, ClipboardEntryView, ClipboardView,
    CurrDirectoryView, EntryKind, FileListView, FileView, FinderView, OmnibarView, PreviewView,
    Window, WindowView, BLOCK_LINES, CURR_DIR_LINES, TOTAL_USED_LINES,
};
use crate::config::FileListCommand as BoundCommand;
use crate::config::{Config, ConfigView, FinderCommand, KeyCode, OmnibarCommand, OmnibarType};
use crate::listing::{fetch_files, lists, Directory};
use crate::text::{base_name, file_name, join, join_path, pop_char, push_char};

verus! {

/// The mode that the browser is in.
#[derive(Clone, Copy, Debug, PartialEq, Eq, Structural)]
pub enum Mode {
    Normal,
    /// A quick-jump code is being typed.
    Hint,
    /// The finder is open; `true` searches the directory history.
    Finder(bool),
    /// The omnibar is open for the given action.
    Omnibar(OmnibarType),
}

/// Whether a key went down, is held or came up.
#[derive(Clone, Copy, Debug, PartialEq, Eq, Structural)]
pub enum KeyEventKind {
    Press,
    Repeat,
    Release,
}

/// One event of the keyboard.
#[derive(Clone, Copy, Debug, PartialEq, Eq, Structural)]
pub struct KeyEvent {
    pub code: KeyCode,
    pub kind: KeyEventKind,
}

/// One file to copy, and what is to become of the file it is copied from
/// and of a file that is in its way.
#[derive(Clone, Debug, PartialEq, Eq)]
pub struct Transfer {
    pub from: String,
    pub to: String,
    /// The file is moved: its source is removed once the copy is made.
    pub remove_source: bool,
    /// The copy is made even where something is at the target already.
    pub overwrite: bool,
}

/// What a `Transfer` stands for.
pub struct TransferView {
    pub from: Seq<char>,
    pub to: Seq<char>,
    pub remove_source: bool,
    pub overwrite: bool,
}

impl View for Transfer {
    type V = TransferView;

    open spec fn view(&self) -> TransferView {
        TransferView {
            from: self.from@,
            to: self.to@,
            remove_source: self.remove_source,
            overwrite: self.overwrite,
        }
    }
}

impl Transfer {
    /// Whether the copy is to be made, given whether something is at the
    /// target already. A transfer that does not overwrite is given up there,
    /// with nothing copied and nothing removed.
    pub fn copies(&self, target_exists: bool) -> (copy: bool)
        ensures
            copy == (self.overwrite || !target_exists),
    {
        self.overwrite || !target_exists
    }

    /// Whether the source is to be removed, given whether the copy was made.
    /// A source is removed only where the file is moved and its copy is
    /// there.
    pub fn removes_source(&self, copied: bool) -> (remove: bool)
        ensures
            remove == (copied && self.remove_source),
    {
        copied && self.remove_source
    }
}

/// What a list of transfers stands for.
pub open spec fn transfers_view(transfers: Seq<Transfer>) -> Seq<TransferView> {
    transfers.map_values(|t: Transfer| t@)
}

/// What the program around the engine is asked to do after a key.
#[derive(Clone, Debug, PartialEq, Eq)]
pub enum Action {
    Nothing,
    /// Open what is at the path, which is absolute or relative to the current
    /// directory: change into a directory, hand a file to the editor.
    Open(String),
    /// Search for the query, in the directory history where `zoxide` is set
    /// and among the files below the current directory otherwise, and hand
    /// the results back.
    Search { query: String, zoxide: bool },
    /// Make the transfers, each on its own and as far as it goes.
    Paste(Vec<Transfer>),
    /// Make the transfer that gives a file another name.
    Rename(Transfer),
    /// Create an empty file.
    Touch(String),
    /// Create a directory.
    Mkdir(String),
}

/// What an `Action` stands for.
pub enum ActionView {
    Nothing,
    Open(Seq<char>),
    Search { query: Seq<char>, zoxide: bool },
    Paste(Seq<TransferView>),
    Rename(TransferView),
    Touch(Seq<char>),
    Mkdir(Seq<char>),
}

impl View for Action {
    type V = ActionView;

    open spec fn view(&self) -> ActionView {
        match *self {
            Action::Nothing => ActionView::Nothing,
            Action::Open(path) => ActionView::Open(path@),
            Action::Search { query, zoxide } => ActionView::Search { query: query@, zoxide },
            Action::Paste(transfers) => ActionView::Paste(transfers_view(transfers@)),
            Action::Rename(transfer) => ActionView::Rename(transfer@),
            Action::Touch(path) => ActionView::Touch(path@),
            Action::Mkdir(path) => ActionView::Mkdir(path@),
        }
    }
}

impl ActionView {
    /// Whether the action changes what is in the current directory, so that
    /// the directory is to be read again once it is done.
    pub open spec fn reloads(self) -> bool {
        self is Paste || self is Rename || self is Touch || self is Mkdir
    }
}

impl Action {
    /// Whether the current directory is to be read again once the action is
    /// done.
    pub fn reloads(&self) -> (reload: bool)
        ensures
            reload == self@.reloads(),
    {
        match self {
            Action::Paste(_) | Action::Rename(_) | Action::Touch(_) | Action::Mkdir(_) => true,
            _ => false,
        }
    }
}

/// What a key led to: an action for the caller, and whether the preview of
/// the selected entry is to be refreshed once the action is done.
#[derive(Clone, Debug, PartialEq, Eq)]
pub struct Outcome {
    pub action: Action,
    pub refresh_preview: bool,
}

/// What an `Outcome` stands for.
pub struct OutcomeView {
    pub action: ActionView,
    pub refresh_preview: bool,
}

impl View for Outcome {
    type V = OutcomeView;

    open spec fn view(&self) -> OutcomeView {
        OutcomeView { action: self.action@, refresh_preview: self.refresh_preview }
    }
}

/// Nothing to do and nothing to refresh.
pub open spec fn idle() -> OutcomeView {
    OutcomeView { action: ActionView::Nothing, refresh_preview: false }
}

/// An action, and the preview to refresh after it.
pub open spec fn done(action: ActionView) -> OutcomeView {
    OutcomeView { action, refresh_preview: true }
}

/// The transfers that a paste into `dir` makes of the clipboard: each file
/// goes into `dir` under the last part of its path, unless a file of that
/// name is there, and a file that was cut loses its source.
pub open spec fn transfers_of(files: Seq<ClipboardEntryView>, dir: Seq<char>) -> Seq<
    TransferView,
> {
    files.map_values(
        |e: ClipboardEntryView|
            TransferView {
                from: e.file,
                to: join(dir, base_name(e.file)),
                remove_source: e.cut,
                overwrite: false,
            },
    )
}

/// What a `Browser` stands for.
pub struct BrowserView {
    pub window: WindowView,
    pub config: ConfigView,
    pub curr_dir: Seq<char>,
    pub exit: bool,
    pub mode: Mode,
    /// The characters of a quick-jump code typed so far.
    pub hint: Seq<char>,
}

impl WindowView {
    /// The window with the file list at another position.
    pub open spec fn list_at(self, file_list: FileListView) -> WindowView {
        WindowView { file_list, ..self }
    }

    /// The window with another state of the finder.
    pub open spec fn with_finder(self, finder: FinderView) -> WindowView {
        WindowView { finder, ..self }
    }

    /// The window with another text in the omnibar.
    pub open spec fn with_omnibar_text(self, text: Seq<char>) -> WindowView {
        WindowView { omnibar: OmnibarView { text, ..self.omnibar }, ..self }
    }

    /// The window on a screen of `height` rows: the heights of the four
    /// panels that show lists or lines, none below zero.
    pub open spec fn resized(self, height: u16) -> WindowView {
        let third = height / 3;
        WindowView {
            file_list: FileListView {
                max_entries: if height >= TOTAL_USED_LINES {
                    (height - TOTAL_USED_LINES) as nat
                } else {
                    0
                },
                ..self.file_list
            },
            finder: FinderView {
                max_entries: if height >= CURR_DIR_LINES + BLOCK_LINES {
                    (height - CURR_DIR_LINES - BLOCK_LINES) as nat
                } else {
                    0
                },
                ..self.finder
            },
            preview: PreviewView {
                max_lines: if height - third >= BLOCK_LINES {
                    (height - third - BLOCK_LINES) as nat
                } else {
                    0
                },
                ..self.preview
            },
            clipboard: ClipboardView {
                max_entries: if third >= BLOCK_LINES {
                    (third - BLOCK_LINES) as nat
                } else {
                    0
                },
                ..self.clipboard
            },
            ..self
        }
    }
}

impl BrowserView {
    /// The browser at start: the normal mode, the main panels shown with the
    /// listing at the top, both overlays hidden and empty, nothing on the
    /// clipboard, no preview, and no height set yet.
    pub open spec fn initial(config: ConfigView, path: Seq<char>, entries: Seq<FileView>)
        -> BrowserView {
        BrowserView {
            window: WindowView {
                file_list: FileListView {
                    files: entries,
                    scroll: 0,
                    selected: 0,
                    max_entries: 0,
                    hint_mode: false,
                    visible: true,
                },
                curr_dir: CurrDirectoryView { curr_directory: path, visible: true },
                finder: FinderView {
                    visible: false,
                    text: Seq::empty(),
                    selected: 0,
                    max_entries: 0,
                    files: Seq::empty(),
                },
                clipboard: ClipboardView { visible: true, files: Seq::empty(), max_entries: 0 },
                preview: PreviewView { visible: true, lines: Seq::empty(), max_lines: 0 },
                omnibar: OmnibarView {
                    visible: false,
                    text: Seq::empty(),
                    mode: OmnibarType::Rename,
                },
            },
            config,
            curr_dir: path,
            exit: false,
            mode: Mode::Normal,
            hint: Seq::empty(),
        }
    }

    /// The selected entry of the file list, if the selection is on one.
    pub open spec fn selected_entry(self) -> Option<FileView> {
        if self.window.file_list.cursor().on_entry() {
            Some(self.window.file_list.files[self.window.file_list.cursor().index() as int])
        } else {
            None
        }
    }

    /// The command that a key stands for in the normal mode: what the key is
    /// bound to, with the name of the selected entry where the command opens
    /// it. A key that is not bound, or bound to what the normal mode does not
    /// do, stands for nothing.
    pub open spec fn command_for(self, code: KeyCode) -> CommandView {
        match self.config.filelist_command(code) {
            Some(BoundCommand::EntryScroll(down)) => CommandView::EntryScroll(down),
            Some(BoundCommand::SelectEntry) => match self.selected_entry() {
                Some(entry) => CommandView::SelectEntry(entry.name),
                None => CommandView::Nothing,
            },
            Some(BoundCommand::HintMode) => CommandView::HintMode,
            Some(BoundCommand::FinderMode(zoxide)) => CommandView::FinderMode(zoxide),
            Some(BoundCommand::OmnibarMode(kind)) => CommandView::OmnibarMode(
                OmnibarMode::of(kind),
            ),
            Some(BoundCommand::Yank(cut)) => CommandView::Yank(cut),
            Some(BoundCommand::Paste) => CommandView::Paste,
            Some(BoundCommand::Exit) => CommandView::Exit,
            _ => CommandView::Nothing,
        }
    }

    /// The browser with the selected entry put on the clipboard. Only a file
    /// is put there; on a directory, or with nothing selected, nothing
    /// changes.
    pub open spec fn yank(self, cut: bool) -> BrowserView {
        match self.selected_entry() {
            Some(entry) => if entry.kind == EntryKind::File {
                BrowserView {
                    window: WindowView {
                        clipboard: ClipboardView {
                            files: self.window.clipboard.files.push(
                                ClipboardEntryView { file: join(self.curr_dir, entry.name), cut },
                            ),
                            ..self.window.clipboard
                        },
                        ..self.window
                    },
                    ..self
                }
            } else {
                self
            },
            None => self,
        }
    }

    /// The browser with an empty clipboard.
    pub open spec fn emptied(self) -> BrowserView {
        BrowserView {
            window: WindowView {
                clipboard: ClipboardView { files: Seq::empty(), ..self.window.clipboard },
                ..self.window
            },
            ..self
        }
    }

    /// The browser after a command of the normal mode.
    pub open spec fn after_command(self, command: CommandView) -> BrowserView {
        match command {
            CommandView::EntryScroll(down) => BrowserView {
                window: self.window.list_at(
                    self.window.file_list.at(self.window.file_list.cursor().scroll_entry(down)),
                ),
                ..self
            },
            CommandView::WindowScroll(down) => BrowserView {
                window: self.window.list_at(
                    self.window.file_list.at(self.window.file_list.cursor().scroll_window(down)),
                ),
                ..self
            },
            CommandView::HintMode => BrowserView {
                window: self.window.hint_mode(true),
                mode: Mode::Hint,
                hint: Seq::empty(),
                ..self
            },
            CommandView::FinderMode(zoxide) => BrowserView {
                window: self.window.finder_mode(true),
                mode: Mode::Finder(zoxide),
                ..self
            },
            CommandView::OmnibarMode(mode) => BrowserView {
                window: self.window.omnibar_mode(true, mode.kind()),
                mode: Mode::Omnibar(mode.kind()),
                ..self
            },
            CommandView::Yank(cut) => self.yank(cut),
            CommandView::Paste => self.emptied(),
            CommandView::Exit => BrowserView { exit: true, ..self },
            CommandView::SelectEntry(_) | CommandView::Nothing => self,
        }
    }

    /// What a command of the normal mode asks of the caller: to open the
    /// entry, to search for everything as the finder opens, to make the
    /// transfers of a paste.
    pub open spec fn asked_by(self, command: CommandView) -> ActionView {
        match command {
            CommandView::SelectEntry(name) => ActionView::Open(name),
            CommandView::FinderMode(zoxide) => ActionView::Search { query: Seq::empty(), zoxide },
            CommandView::Paste => ActionView::Paste(
                transfers_of(self.window.clipboard.files, self.curr_dir),
            ),
            _ => ActionView::Nothing,
        }
    }

    /// What a command does: the browser after it, and what the caller is
    /// asked to do. A command counts only in the normal mode and as long as
    /// the browser has not been told to exit. The preview is refreshed after
    /// every command but `Exit` and `Nothing`; a command that starts a quick
    /// jump or opens an overlay leaves that to the key that ends it.
    pub open spec fn execute(self, command: CommandView) -> (BrowserView, OutcomeView) {
        if self.exit || self.mode != Mode::Normal {
            (self, idle())
        } else {
            (
                self.after_command(command),
                OutcomeView {
                    action: self.asked_by(command),
                    refresh_preview: command.refresh_preview() && self.after_command(
                        command,
                    ).mode == Mode::Normal,
                },
            )
        }
    }

    /// The browser back in the normal mode after a quick jump, made or not.
    pub open spec fn leave_hint(self) -> BrowserView {
        BrowserView {
            window: self.window.hint_mode(false),
            mode: Mode::Normal,
            hint: Seq::empty(),
            ..self
        }
    }

    /// What a key does while a quick-jump code is typed. A character is added
    /// to the code: where the code then names a row that shows an entry, the
    /// row is selected and the mode ends; where it has two characters and
    /// names none, the mode ends with nothing selected anew. Any other key
    /// ends the mode if it is bound to leaving it, and does nothing
    /// otherwise.
    pub open spec fn hint_step(self, code: KeyCode) -> (BrowserView, OutcomeView) {
        match code {
            KeyCode::Char(c) => {
                let hint = self.hint.push(c);
                if self.window.file_list.valid_hint(hint) {
                    (
                        BrowserView {
                            window: self.window.list_at(self.window.file_list.jump_hint(hint)),
                            ..self
                        }.leave_hint(),
                        done(ActionView::Nothing),
                    )
                } else if hint.len() >= 2 {
                    (self.leave_hint(), done(ActionView::Nothing))
                } else {
                    (BrowserView { hint, ..self }, idle())
                }
            },
            _ => if self.config.filelist_command(code) == Some(BoundCommand::ExitHint) {
                (self.leave_hint(), done(ActionView::Nothing))
            } else {
                (self, idle())
            },
        }
    }

    /// The browser back in the normal mode after the finder: the query and
    /// the results are dropped.
    pub open spec fn leave_finder(self) -> BrowserView {
        BrowserView {
            window: self.window.with_finder(
                FinderView {
                    text: Seq::empty(),
                    selected: 0,
                    files: Seq::empty(),
                    ..self.window.finder
                },
            ).finder_mode(false),
            mode: Mode::Normal,
            ..self
        }
    }

    /// The browser with another query in the finder.
    pub open spec fn with_query(self, text: Seq<char>) -> BrowserView {
        BrowserView {
            window: self.window.with_finder(FinderView { text, ..self.window.finder }),
            ..self
        }
    }

    /// What a key does in the finder. Every change of the query asks for a
    /// new search; choosing a result asks for it to be opened and ends the
    /// mode; with no result to choose the key does nothing.
    pub open spec fn finder_step(self, code: KeyCode, zoxide: bool) -> (BrowserView, OutcomeView) {
        let finder = self.window.finder;
        match self.config.finder_command(code) {
            Some(FinderCommand::Write(c)) => (
                self.with_query(finder.text.push(c)),
                OutcomeView {
                    action: ActionView::Search { query: finder.text.push(c), zoxide },
                    refresh_preview: false,
                },
            ),
            Some(FinderCommand::Backspace) => if finder.text.len() > 0 {
                (
                    self.with_query(finder.text.drop_last()),
                    OutcomeView {
                        action: ActionView::Search { query: finder.text.drop_last(), zoxide },
                        refresh_preview: false,
                    },
                )
            } else {
                (self, idle())
            },
            Some(FinderCommand::SelectEntry) => if finder.selected < finder.files.len() {
                (self.leave_finder(), done(ActionView::Open(finder.files[finder.selected as int])))
            } else {
                (self, idle())
            },
            Some(FinderCommand::EntryScroll(down)) => (
                BrowserView { window: self.window.with_finder(finder.scroll(down)), ..self },
                idle(),
            ),
            Some(FinderCommand::Exit) => (self.leave_finder(), done(ActionView::Nothing)),
            _ => (self, idle()),
        }
    }

    /// The browser back in the normal mode after the omnibar: the text is
    /// dropped.
    pub open spec fn leave_omnibar(self, kind: OmnibarType) -> BrowserView {
        BrowserView {
            window: self.window.with_omnibar_text(Seq::empty()).omnibar_mode(false, kind),
            mode: Mode::Normal,
            ..self
        }
    }

    /// What submitting the omnibar asks for: the action of its kind on the
    /// path that the text names inside the current directory. Only a file can
    /// be renamed; with a directory or nothing selected, nothing is asked.
    pub open spec fn submission(self, kind: OmnibarType) -> ActionView {
        let target = join(self.curr_dir, self.window.omnibar.text);
        match kind {
            OmnibarType::Rename => match self.selected_entry() {
                Some(entry) => if entry.kind == EntryKind::File {
                    ActionView::Rename(
                        TransferView {
                            from: join(self.curr_dir, entry.name),
                            to: target,
                            remove_source: true,
                            overwrite: true,
                        },
                    )
                } else {
                    ActionView::Nothing
                },
                None => ActionView::Nothing,
            },
            OmnibarType::Touch => ActionView::Touch(target),
            OmnibarType::Mkdir => ActionView::Mkdir(target),
        }
    }

    /// What a key does in the omnibar.
    pub open spec fn omnibar_step(self, code: KeyCode, kind: OmnibarType) -> (
        BrowserView,
        OutcomeView,
    ) {
        let text = self.window.omnibar.text;
        match self.config.omnibar_command(code) {
            Some(OmnibarCommand::Write(c)) => (
                BrowserView { window: self.window.with_omnibar_text(text.push(c)), ..self },
                idle(),
            ),
            Some(OmnibarCommand::Backspace) => if text.len() > 0 {
                (
                    BrowserView {
                        window: self.window.with_omnibar_text(text.drop_last()),
                        ..self
                    },
                    idle(),
                )
            } else {
                (self, idle())
            },
            Some(OmnibarCommand::Submit) => (self.leave_omnibar(kind), done(self.submission(kind))),
            Some(OmnibarCommand::Exit) => (self.leave_omnibar(kind), done(ActionView::Nothing)),
            _ => (self, idle()),
        }
    }

    /// What an event of the keyboard does: the browser after it, and what the
    /// caller is asked to do. Only a key going down counts, and nothing
    /// counts once the browser has been told to exit.
    pub open spec fn step(self, event: KeyEvent) -> (BrowserView, OutcomeView) {
        if self.exit || event.kind != KeyEventKind::Press {
            (self, idle())
        } else {
            match self.mode {
                Mode::Normal => self.execute(self.command_for(event.code)),
                Mode::Hint => self.hint_step(event.code),
                Mode::Finder(zoxide) => self.finder_step(event.code, zoxide),
                Mode::Omnibar(kind) => self.omnibar_step(event.code, kind),
            }
        }
    }

    /// The browser in another directory: the listing replaced, the position
    /// at the top, and the label showing the new path.
    pub open spec fn entered(self, path: Seq<char>, entries: Seq<FileView>) -> BrowserView {
        BrowserView {
            window: WindowView {
                file_list: FileListView {
                    files: entries,
                    scroll: 0,
                    selected: 0,
                    ..self.window.file_list
                },
                curr_dir: CurrDirectoryView { curr_directory: path, ..self.window.curr_dir },
                ..self.window
            },
            curr_dir: path,
            ..self
        }
    }

    /// The browser with the results of a search: in the finder they replace
    /// the earlier results, elsewhere they are dropped. A search that failed
    /// counts as one that found nothing.
    pub open spec fn with_results(self, results: Option<Seq<Seq<char>>>) -> BrowserView {
        if self.mode is Finder {
            BrowserView {
                window: self.window.with_finder(
                    self.window.finder.update_files(
                        match results {
                            Some(found) => found,
                            None => Seq::empty(),
                        },
                    ),
                ),
                ..self
            }
        } else {
            self
        }
    }

    /// The browser with other lines in the preview.
    pub open spec fn with_preview(self, lines: Seq<Seq<char>>) -> BrowserView {
        BrowserView {
            window: WindowView {
                preview: PreviewView { lines, ..self.window.preview },
                ..self.window
            },
            ..self
        }
    }

    /// The browser on a screen of `height` rows.
    pub open spec fn resized(self, height: u16) -> BrowserView {
        BrowserView { window: self.window.resized(height), ..self }
    }

    /// The panels that are shown are those of the mode: the main panels in
    /// the normal mode and while a code is typed, with the codes shown only
    /// then, and otherwise the overlay of the mode alone.
    pub open spec fn consistent(self) -> bool {
        let w = self.window;
        let main = self.mode == Mode::Normal || self.mode == Mode::Hint;
        &&& w.file_list.visible == main
        &&& w.curr_dir.visible == main
        &&& w.clipboard.visible == main
        &&& w.preview.visible == main
        &&& w.file_list.hint_mode == (self.mode == Mode::Hint)
        &&& w.finder.visible == (self.mode is Finder)
        &&& w.omnibar.visible == (self.mode is Omnibar)
        &&& (self.mode matches Mode::Omnibar(kind) ==> w.omnibar.mode == kind)
    }
}

/// The mode controller. It owns every panel, the key bindings and the path
/// of the current directory.
pub struct Browser {
    window: Window,
    config: Config,
    curr_dir: String,
    exit: bool,
    mode: Mode,
    hint: String,
}

impl View for Browser {
    type V = BrowserView;

    closed spec fn view(&self) -> BrowserView {
        BrowserView {
            window: self.window@,
            config: self.config@,
            curr_dir: self.curr_dir@,
            exit: self.exit,
            mode: self.mode,
            hint: self.hint@,
        }
    }
}

/// The outcome that asks for nothing and refreshes nothing.
fn rest() -> (outcome: Outcome)
    ensures
        outcome@ == idle(),
{
    Outcome { action: Action::Nothing, refresh_preview: false }
}

/// The outcome that asks for `action` and for the preview after it.
fn after(action: Action) -> (outcome: Outcome)
    ensures
        outcome@ == done(action@),
{
    Outcome { action, refresh_preview: true }
}

impl Browser {
    /// The browser at start: in the normal mode, showing the listing of the
    /// directory that was read.
    pub fn init(config: Config, start: Directory) -> (browser: Browser)
        ensures
            exists|entries: Seq<FileView>|
                lists(entries, strings_view(start.dirs@), strings_view(start.files@)) && browser@
                    == BrowserView::initial(config@, start.path@, entries),
    {
        let files = fetch_files(&start.dirs, &start.files);
        let ghost entries = files_view(files@);
        let window = Window::new(files, start.path.clone());
        let browser = Browser {
            window,
            config,
            curr_dir: start.path,
            exit: false,
            mode: Mode::Normal,
            hint: String::new(),
        };
        assert(browser@ == BrowserView::initial(config@, start.path@, entries));
        browser
    }

    /// The panels, for drawing.
    pub fn window(&self) -> (window: &Window)
        ensures
            window@ == self@.window,
    {
        &self.window
    }

    /// The key bindings.
    pub fn config(&self) -> (config: &Config)
        ensures
            config@ == self@.config,
    {
        &self.config
    }

    /// The path of the current directory.
    pub fn curr_dir(&self) -> (dir: &String)
        ensures
            dir@ == self@.curr_dir,
    {
        &self.curr_dir
    }

    /// The mode that the browser is in.
    pub fn mode(&self) -> (mode: Mode)
        ensures
            mode == self@.mode,
    {
        self.mode
    }

    /// Whether the browser has been told to exit.
    pub fn exited(&self) -> (exit: bool)
        ensures
            exit == self@.exit,
    {
        self.exit
    }

    /// Fits the panels to a screen of `height` rows.
    pub fn resize(&mut self, height: u16)
        ensures
            final(self)@ == old(self)@.resized(height),
    {
        let third: u16 = height / 3;
        self.window.file_list.set_max_entries(height.saturating_sub(TOTAL_USED_LINES) as usize);
        self.window.finder.set_max_entries(
            height.saturating_sub(CURR_DIR_LINES).saturating_sub(BLOCK_LINES) as usize,
        );
        self.window.preview.set_max_lines((height - third).saturating_sub(BLOCK_LINES) as usize);
        self.window.clipboard.set_max_entries(third.saturating_sub(BLOCK_LINES) as usize);
    }

    /// Takes what was read of the directory that the browser is to show: the
    /// one it changes into, or the current one read again. `None` stands for a
    /// directory that is not there: it is refused and nothing changes.
    pub fn change_directory(&mut self, read: Option<Directory>) -> (done: Result<(), Error>)
        ensures
            match read {
                None => done == Err::<(), Error>(Error::InvalidDirectory)
                    && final(self)@ == old(self)@,
                Some(dir) => done.is_ok() && exists|entries: Seq<FileView>|
                    lists(entries, strings_view(dir.dirs@), strings_view(dir.files@))
                        && final(self)@ == old(self)@.entered(dir.path@, entries),
            },
    {
        match read {
            None => Err(Error::InvalidDirectory),
            Some(dir) => {
                let sorted_files = fetch_files(&dir.dirs, &dir.files);
                let ghost entries = files_view(sorted_files@);
                self.window.file_list.update_files(sorted_files);
                self.window.curr_dir.update_cwd(dir.path.clone());
                self.curr_dir = dir.path;
                assert(self@ == old(self)@.entered(dir.path@, entries));
                Ok(())
            },
        }
    }

    /// Takes the results of the search that was asked for. `None` stands for
    /// a search that failed, and leaves the finder without results. Outside
    /// the finder the results are dropped.
    pub fn search_results(&mut self, results: Option<Vec<String>>)
        ensures
            final(self)@ == old(self)@.with_results(
                match results {
                    Some(found) => Some(strings_view(found@)),
                    None => None,
                },
            ),
    {
        match self.mode {
            Mode::Finder(_) => {
                match results {
                    Some(found) => self.window.finder.update_files(found),
                    None => {
                        let none: Vec<String> = Vec::new();
                        assert(strings_view(none@) =~= Seq::empty());
                        self.window.finder.update_files(none)
                    },
                }
            },
            _ => {},
        }
    }

    /// Takes the lines of the preview that was asked for. `None` stands for a
    /// preview that could not be made, and leaves the panel empty.
    pub fn refresh_preview(&mut self, lines: Option<Vec<String>>)
        ensures
            final(self)@ == old(self)@.with_preview(
                match lines {
                    Some(l) => strings_view(l@),
                    None => Seq::empty(),
                },
            ),
    {
        match lines {
            Some(l) => self.window.preview.update_lines(l),
            None => {
                let none: Vec<String> = Vec::new();
                assert(strings_view(none@) =~= Seq::empty());
                self.window.preview.update_lines(none)
            },
        }
    }

    /// The command that an event of the keyboard stands for in the normal
    /// mode. Only a key going down stands for one.
    pub fn handle_key_event(&self, event: KeyEvent) -> (command: FileListCommand)
        ensures
            command@ == if event.kind == KeyEventKind::Press {
                self@.command_for(event.code)
            } else {
                CommandView::Nothing
            },
    {
        if event.kind != KeyEventKind::Press {
            return FileListCommand::Nothing;
        }
        match self.config.get_filelist_command(event.code) {
            Some(BoundCommand::EntryScroll(down)) => FileListCommand::EntryScroll(down),
            Some(BoundCommand::SelectEntry) => {
                match self.window.file_list.curr_entry() {
                    Ok(name) => FileListCommand::SelectEntry(name),
                    Err(_) => FileListCommand::Nothing,
                }
            },
            Some(BoundCommand::HintMode) => FileListCommand::HintMode,
            Some(BoundCommand::FinderMode(zoxide)) => FileListCommand::FinderMode(zoxide),
            Some(BoundCommand::OmnibarMode(kind)) => FileListCommand::OmnibarMode(
                OmnibarMode::of(kind),
            ),
            Some(BoundCommand::Yank(cut)) => FileListCommand::Yank(cut),
            Some(BoundCommand::Paste) => FileListCommand::Paste,
            Some(BoundCommand::Exit) => FileListCommand::Exit,
            _ => FileListCommand::Nothing,
        }
    }

    /// Puts the selected entry on the clipboard if it is a file.
    fn yank(&mut self, cut: bool)
        ensures
            final(self)@ == old(self)@.yank(cut),
    {
        match self.window.file_list.curr_kind() {
            Ok(EntryKind::File) => match self.window.file_list.curr_entry() {
                Ok(name) => {
                    let path = join_path(self.curr_dir.as_str(), name.as_str());
                    self.window.clipboard.push(ClipboardEntry::new(path, cut));
                },
                Err(_) => {},
            },
            _ => {},
        }
    }

    /// Empties the clipboard into a list of transfers into the current
    /// directory.
    fn paste(&mut self) -> (transfers: Vec<Transfer>)
        ensures
            final(self)@ == old(self)@.emptied(),
            transfers_view(transfers@) == transfers_of(
                old(self)@.window.clipboard.files,
                old(self)@.curr_dir,
            ),
    {
        let mut transfers: Vec<Transfer> = Vec::new();
        let ghost all = transfers_of(self@.window.clipboard.files, self@.curr_dir);
        let mut i: usize = 0;
        let files = self.window.clipboard.get_files();
        while i < files.len()
            invariant
                i <= files.len(),
                entries_view(files@) == self@.window.clipboard.files,
                all == transfers_of(self@.window.clipboard.files, self@.curr_dir),
                self.curr_dir@ == self@.curr_dir,
                transfers_view(transfers@) =~= all.take(i as int),
            decreases files.len() - i,
        {
            let ce = &files[i];
            let name = file_name(ce.file().as_str());
            let transfer = Transfer {
                from: ce.fname(),
                to: join_path(self.curr_dir.as_str(), name.as_str()),
                remove_source: ce.cut(),
                overwrite: false,
            };
            let ghost before = transfers@;
            assert(entries_view(files@)[i as int] == ce@);
            transfers.push(transfer);
            proof {
                assert(transfers_view(transfers@) =~= transfers_view(before).push(transfer@));
                assert(all.take(i + 1) =~= all.take(i as int).push(all[i as int]));
            }
            i += 1;
        }
        assert(all.take(files.len() as int) =~= all);
        self.window.clipboard.clear();
        transfers
    }

    /// Carries out a command of the normal mode.
    pub fn execute_command(&mut self, command: FileListCommand) -> (outcome: Outcome)
        ensures
            (final(self)@, outcome@) == old(self)@.execute(command@),
    {
        if self.exit || !matches!(self.mode, Mode::Normal) {
            return rest();
        }
        let refresh = command.refresh_preview();
        let action = match command {
            FileListCommand::EntryScroll(down) => {
                self.window.file_list.scroll_entry(down);
                Action::Nothing
            },
            FileListCommand::WindowScroll(down) => {
                self.window.file_list.scroll_window(down);
                Action::Nothing
            },
            FileListCommand::SelectEntry(name) => Action::Open(name),
            FileListCommand::HintMode => {
                self.window.hint_mode(true);
                self.mode = Mode::Hint;
                self.hint = String::new();
                Action::Nothing
            },
            FileListCommand::FinderMode(zoxide) => {
                self.window.finder_mode(true);
                self.mode = Mode::Finder(zoxide);
                Action::Search { query: String::new(), zoxide }
            },
            FileListCommand::OmnibarMode(mode) => {
                self.window.omnibar_mode(true, mode.kind());
                self.mode = Mode::Omnibar(mode.kind());
                Action::Nothing
            },
            FileListCommand::Yank(cut) => {
                self.yank(cut);
                Action::Nothing
            },
            FileListCommand::Paste => Action::Paste(self.paste()),
            FileListCommand::Exit => {
                self.exit = true;
                Action::Nothing
            },
            FileListCommand::Nothing => Action::Nothing,
        };
        Outcome { action, refresh_preview: refresh && matches!(self.mode, Mode::Normal) }
    }

    /// Goes back to the normal mode after a quick jump.
    fn end_hint(&mut self)
        ensures
            final(self)@ == old(self)@.leave_hint(),
    {
        self.window.hint_mode(false);
        self.mode = Mode::Normal;
        self.hint = String::new();
    }

    /// Takes a key while a quick-jump code is typed.
    fn hint_mode(&mut self, code: KeyCode) -> (outcome: Outcome)
        ensures
            (final(self)@, outcome@) == old(self)@.hint_step(code),
    {
        match code {
            KeyCode::Char(c) => {
                push_char(&mut self.hint, c);
                let hint = self.hint.clone();
                let chars = hint.as_str().unicode_len();
                if self.window.file_list.valid_hint(&hint) {
                    let _ = self.window.file_list.jump_hint(hint);
                    self.end_hint();
                    after(Action::Nothing)
                } else if chars >= 2 {
                    self.end_hint();
                    after(Action::Nothing)
                } else {
                    rest()
                }
            },
            _ => match self.config.get_filelist_command(code) {
                Some(BoundCommand::ExitHint) => {
                    self.end_hint();
                    after(Action::Nothing)
                },
                _ => rest(),
            },
        }
    }

    /// Goes back to the normal mode after the finder.
    fn end_finder(&mut self)
        ensures
            final(self)@ == old(self)@.leave_finder(),
    {
        self.window.finder_mode(false);
        self.window.finder.reset();
        self.mode = Mode::Normal;
    }

    /// Takes a key in the finder.
    fn finder_mode(&mut self, code: KeyCode, zoxide: bool) -> (outcome: Outcome)
        ensures
            (final(self)@, outcome@) == old(self)@.finder_step(code, zoxide),
    {
        match self.config.get_finder_command(code) {
            Some(FinderCommand::Write(c)) => {
                let mut text = self.window.finder.text();
                push_char(&mut text, c);
                self.window.finder.set_text(text.clone());
                Outcome { action: Action::Search { query: text, zoxide }, refresh_preview: false }
            },
            Some(FinderCommand::Backspace) => {
                let mut text = self.window.finder.text();
                match pop_char(&mut text) {
                    Some(_) => {
                        self.window.finder.set_text(text.clone());
                        Outcome {
                            action: Action::Search { query: text, zoxide },
                            refresh_preview: false,
                        }
                    },
                    None => rest(),
                }
            },
            Some(FinderCommand::SelectEntry) => {
                let chosen = match self.window.finder.selection() {
                    Ok(path) => Some(path.clone()),
                    Err(_) => None,
                };
                match chosen {
                    Some(path) => {
                        self.end_finder();
                        after(Action::Open(path))
                    },
                    None => rest(),
                }
            },
            Some(FinderCommand::EntryScroll(down)) => {
                self.window.finder.scroll(down);
                rest()
            },
            Some(FinderCommand::Exit) => {
                self.end_finder();
                after(Action::Nothing)
            },
            _ => rest(),
        }
    }

    /// Goes back to the normal mode after the omnibar.
    fn end_omnibar(&mut self, kind: OmnibarType)
        ensures
            final(self)@ == old(self)@.leave_omnibar(kind),
    {
        self.window.omnibar.set_text(String::new());
        self.window.omnibar_mode(false, kind);
        self.mode = Mode::Normal;
    }

    /// What submitting the omnibar asks for.
    fn submit(&self, kind: OmnibarType) -> (action: Action)
        ensures
            action@ == self@.submission(kind),
    {
        let target = join_path(self.curr_dir.as_str(), self.window.omnibar.text().as_str());
        match kind {
            OmnibarType::Rename => match self.window.file_list.curr_kind() {
                Ok(EntryKind::File) => match self.window.file_list.curr_entry() {
                    Ok(name) => Action::Rename(
                        Transfer {
                            from: join_path(self.curr_dir.as_str(), name.as_str()),
                            to: target,
                            remove_source: true,
                            overwrite: true,
                        },
                    ),
                    Err(_) => Action::Nothing,
                },
                _ => Action::Nothing,
            },
            OmnibarType::Touch => Action::Touch(target),
            OmnibarType::Mkdir => Action::Mkdir(target),
        }
    }

    /// Takes a key in the omnibar.
    fn omnibar_mode(&mut self, code: KeyCode, kind: OmnibarType) -> (outcome: Outcome)
        ensures
            (final(self)@, outcome@) == old(self)@.omnibar_step(code, kind),
    {
        match self.config.get_omnibar_command(code) {
            Some(OmnibarCommand::Write(c)) => {
                let mut text = self.window.omnibar.text().clone();
                push_char(&mut text, c);
                self.window.omnibar.set_text(text);
                rest()
            },
            Some(OmnibarCommand::Backspace) => {
                let mut text = self.window.omnibar.text().clone();
                let _ = pop_char(&mut text);
                self.window.omnibar.set_text(text);
                rest()
            },
            Some(OmnibarCommand::Submit) => {
                let action = self.submit(kind);
                self.end_omnibar(kind);
                after(action)
            },
            Some(OmnibarCommand::Exit) => {
                self.end_omnibar(kind);
                after(Action::Nothing)
            },
            _ => rest(),
        }
    }

    /// Takes an event of the keyboard: routes it to the mode that the browser
    /// is in and says what the caller is to do.
    pub fn handle_key(&mut self, event: KeyEvent) -> (outcome: Outcome)
        ensures
            (final(self)@, outcome@) == old(self)@.step(event),
    {
        if self.exit || event.kind != KeyEventKind::Press {
            return rest();
        }
        match self.mode {
            Mode::Normal => {
                let command = self.handle_key_event(event);
                self.execute_command(command)
            },
            Mode::Hint => self.hint_mode(event.code),
            Mode::Finder(zoxide) => self.finder_mode(event.code, zoxide),
            Mode::Omnibar(kind) => self.omnibar_mode(event.code, kind),
        }
    }
}

/// From the normal mode, a key bound to the quick jump starts it.
pub proof fn lemma_hint_mode_entered(s: BrowserView, event: KeyEvent)
    requires
        s.mode == Mode::Normal,
        !s.exit,
        event.kind == KeyEventKind::Press,
        s.config.filelist_command(event.code) == Some(BoundCommand::HintMode),
    ensures
        s.step(event).0.mode == Mode::Hint,
{
}

/// A quick jump ends in the normal mode, whether a row was found or not. It
/// ends on the character that completes the code of a row that shows an
/// entry, which is then selected; on a second character that completes no
/// such code; and on the key bound to leaving it. Any other key leaves the
/// browser in the jump.
pub proof fn lemma_hint_mode_left(s: BrowserView, event: KeyEvent)
    requires
        s.mode == Mode::Hint,
        !s.exit,
        event.kind == KeyEventKind::Press,
    ensures
        match event.code {
            KeyCode::Char(c) => if s.window.file_list.valid_hint(s.hint.push(c)) {
                s.step(event).0.mode == Mode::Normal && s.step(event).0.window.file_list.cursor()
                    == s.window.file_list.jump_hint(s.hint.push(c)).cursor()
            } else if s.hint.len() >= 1 {
                s.step(event).0.mode == Mode::Normal && s.step(event).0.window.file_list.cursor()
                    == s.window.file_list.cursor()
            } else {
                s.step(event).0.mode == Mode::Hint && s.step(event).0.hint == s.hint.push(c)
            },
            _ => if s.config.filelist_command(event.code) == Some(BoundCommand::ExitHint) {
                s.step(event).0.mode == Mode::Normal && s.step(event).0.window.file_list.cursor()
                    == s.window.file_list.cursor()
            } else {
                s.step(event).0 == s
            },
        },
        s.step(event).0.mode == Mode::Normal ==> !s.step(event).0.window.file_list.hint_mode,
{
}

/// An overlay or a quick jump is left for the normal mode only, and only the
/// normal mode starts one.
pub proof fn lemma_modes_return_to_normal(s: BrowserView, event: KeyEvent)
    ensures
        s.step(event).0.mode == s.mode || s.step(event).0.mode == Mode::Normal || s.mode
            == Mode::Normal,
{
}

/// Once the browser has been told to exit, no key and no command changes
/// anything or asks for anything.
pub proof fn lemma_exit_is_final(s: BrowserView, event: KeyEvent, command: CommandView)
    requires
        s.exit,
    ensures
        s.step(event) == (s, idle()),
        s.execute(command) == (s, idle()),
{
}

/// Only the exit command of the normal mode tells the browser to exit.
pub proof fn lemma_exit_by_command(s: BrowserView, event: KeyEvent)
    requires
        !s.exit,
        s.step(event).0.exit,
    ensures
        s.mode == Mode::Normal,
        event.kind == KeyEventKind::Press,
        s.command_for(event.code) == CommandView::Exit,
{
}

/// A key or a command leaves the panels of the mode shown and the others
/// hidden.
pub proof fn lemma_step_consistent(s: BrowserView, event: KeyEvent, command: CommandView)
    requires
        s.consistent(),
    ensures
        s.step(event).0.consistent(),
        s.execute(command).0.consistent(),
{
}

/// The browser starts with the panels of the normal mode shown.
pub proof fn lemma_initial_consistent(
    config: ConfigView,
    path: Seq<char>,
    entries: Seq<FileView>,
)
    ensures
        BrowserView::initial(config, path, entries).consistent(),
{
}

/// A jump to a row that shows an entry leaves the selection on an entry and
/// inside the window.
pub proof fn lemma_jump_in_bounds(list: FileListView, hint: Seq<char>)
    ensures
        list.valid_hint(hint) ==> list.jump_hint(hint).cursor().in_bounds(),
        list.cursor().in_bounds() ==> list.jump_hint(hint).cursor().in_bounds(),
{
    if list.valid_hint(hint) {
        assert(list.hinted(hint, list.hinted_row(hint)));
    }
}

/// Whatever keys are pressed, the selection of the file list stays on an
/// entry and inside the window, as long as the listing and the height stay.
pub proof fn lemma_step_in_bounds(s: BrowserView, event: KeyEvent)
    requires
        s.window.file_list.cursor().in_bounds(),
    ensures
        s.step(event).0.window.file_list.cursor().in_bounds(),
        s.step(event).0.window.file_list.files == s.window.file_list.files,
        s.step(event).0.window.file_list.max_entries == s.window.file_list.max_entries,
{
    if !s.exit && event.kind == KeyEventKind::Press && s.mode == Mode::Hint {
        if let KeyCode::Char(c) = event.code {
            lemma_jump_in_bounds(s.window.file_list, s.hint.push(c));
        }
    }
}

/// Yanking with a directory selected, or with nothing selected, changes
/// nothing; yanking with a file selected adds one entry for it to the
/// clipboard, marked as cut or not.
pub proof fn lemma_yank(s: BrowserView, cut: bool)
    requires
        !s.exit,
        s.mode == Mode::Normal,
    ensures
        s.execute(CommandView::Yank(cut)).1 == done(ActionView::Nothing),
        match s.selected_entry() {
            Some(entry) if entry.kind == EntryKind::File => s.execute(
                CommandView::Yank(cut),
            ).0.window.clipboard.files == s.window.clipboard.files.push(
                ClipboardEntryView { file: join(s.curr_dir, entry.name), cut },
            ),
            _ => s.execute(CommandView::Yank(cut)).0 == s,
        },
{
}

/// A paste asks for one transfer for each entry of the clipboard, in order,
/// into the current directory under the last part of the entry's path, with
/// the source removed exactly where the entry was cut and nothing
/// overwritten; and it leaves the clipboard empty.
pub proof fn lemma_paste(s: BrowserView)
    requires
        !s.exit,
        s.mode == Mode::Normal,
    ensures
        s.execute(CommandView::Paste).0.window.clipboard.files.len() == 0,
        s.execute(CommandView::Paste).0 == s.emptied(),
        s.execute(CommandView::Paste).1.action matches ActionView::Paste(transfers)
            && transfers.len() == s.window.clipboard.files.len() && forall|i: int|
            0 <= i < transfers.len() ==> (#[trigger] transfers[i]).from
                == s.window.clipboard.files[i].file && transfers[i].to == join(
                s.curr_dir,
                base_name(s.window.clipboard.files[i].file),
            ) && transfers[i].remove_source == s.window.clipboard.files[i].cut
                && !transfers[i].overwrite,
{
}

/// A file yanked in one directory and pasted in another is copied there
/// under its own name, and loses its source exactly if it was cut.
pub proof fn lemma_yank_then_paste(s: BrowserView, cut: bool, dir: Seq<char>, name: Seq<char>)
    requires
        !s.exit,
        s.mode == Mode::Normal,
        s.window.clipboard.files.len() == 0,
        s.selected_entry() matches Some(entry) && entry.kind == EntryKind::File && entry.name
            == name,
        forall|i: int| 0 <= i < name.len() ==> name[i] != '/',
    ensures
        ({
            let yanked = s.execute(CommandView::Yank(cut)).0;
            let moved = BrowserView { curr_dir: dir, ..yanked };
            moved.execute(CommandView::Paste).1.action == ActionView::Paste(
                seq![
                    TransferView {
                        from: join(s.curr_dir, name),
                        to: join(dir, name),
                        remove_source: cut,
                        overwrite: false,
                    },
                ],
            )
        }),
{
    crate::text::lemma_base_name_of_join(s.curr_dir, name);
    let yanked = s.execute(CommandView::Yank(cut)).0;
    let moved = BrowserView { curr_dir: dir, ..yanked };
    let transfers = transfers_of(moved.window.clipboard.files, dir);
    assert(transfers =~= seq![
        TransferView {
            from: join(s.curr_dir, name),
            to: join(dir, name),
            remove_source: cut,
            overwrite: false,
        },
    ]);
}

} // verus!
