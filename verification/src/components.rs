//! The panels of the browser as plain state: what each one holds and how it
//! changes. Nothing here draws.

use vstd::prelude::*;
use crate::Error;
use crate::hints::{hint_code, HintTable, HINT_ROWS};
use crate::paging::Cursor;
use crate::config::OmnibarType;
use crate::text::{push_char, to_chars};

verus! {

/// Rows that a panel's border takes.
pub const BLOCK_LINES: u16 = 2;

pub const CURR_DIR_LINES: u16 = 1;

pub const CURR_DIR_HEIGHT: u16 = BLOCK_LINES + CURR_DIR_LINES;

pub const RENAME_LINES: u16 = 1;

pub const RENAME_HEIGHT: u16 = BLOCK_LINES + RENAME_LINES;

pub const CONTROLS_LINES: u16 = 3;

pub const CONTROLS_HEIGHT: u16 = BLOCK_LINES + CONTROLS_LINES;

/// Rows of the screen that the file list cannot use.
pub const TOTAL_USED_LINES: u16 = BLOCK_LINES + CURR_DIR_HEIGHT + CONTROLS_HEIGHT;

/// Whether an entry of a listing is a directory or a file.
#[derive(Clone, Copy, Debug, PartialEq, Eq, Structural)]
pub enum EntryKind {
    Directory,
    File,
}

/// One entry of a directory listing.
#[derive(Clone, Debug, PartialEq, Eq)]
pub struct File {
    name: String,
    kind: EntryKind,
}

/// What a `File` stands for.
pub struct FileView {
    pub name: Seq<char>,
    pub kind: EntryKind,
}

impl View for File {
    type V = FileView;

    closed spec fn view(&self) -> FileView {
        FileView { name: self.name@, kind: self.kind }
    }
}

impl File {
    pub fn new(name: String, kind: EntryKind) -> (file: Self)
        ensures
            file@ == (FileView { name: name@, kind }),
    {
        Self { name, kind }
    }

    pub fn name(&self) -> (name: String)
        ensures
            name@ == self@.name,
    {
        self.name.clone()
    }

    pub fn kind(&self) -> (kind: EntryKind)
        ensures
            kind == self@.kind,
    {
        self.kind
    }
}

/// What a list of entries stands for.
pub open spec fn files_view(files: Seq<File>) -> Seq<FileView> {
    files.map_values(|f: File| f@)
}

/// The main panel: the listing of the current directory, the window over it
/// and the selected row.
pub struct FileList {
    files: Vec<File>,
    scroll: usize,
    selected: usize,
    max_entries: usize,
    hint_mode: bool,
    hint_choices: HintTable,
    visible: bool,
}

/// What a `FileList` stands for.
pub struct FileListView {
    pub files: Seq<FileView>,
    pub scroll: nat,
    pub selected: nat,
    pub max_entries: nat,
    pub hint_mode: bool,
    pub visible: bool,
}

impl FileListView {
    /// Position of the list.
    pub open spec fn cursor(self) -> Cursor {
        Cursor {
            len: self.files.len(),
            scroll: self.scroll,
            selected: self.selected,
            viewport: self.max_entries,
        }
    }

    /// The same list at another position.
    pub open spec fn at(self, cursor: Cursor) -> FileListView {
        FileListView { scroll: cursor.scroll, selected: cursor.selected, ..self }
    }

    /// Whether `row` is a row of the window that shows an entry and has the
    /// code `hint`.
    pub open spec fn hinted(self, hint: Seq<char>, row: int) -> bool {
        0 <= row < self.cursor().visible_rows() && row < HINT_ROWS && hint_code(row) == hint
    }

    /// Whether `hint` is the code of a row of the window that shows an entry.
    pub open spec fn valid_hint(self, hint: Seq<char>) -> bool {
        exists|row: int| self.hinted(hint, row)
    }

    /// The row that `hint` names.
    pub open spec fn hinted_row(self, hint: Seq<char>) -> int {
        choose|row: int| self.hinted(hint, row)
    }

    /// The list after a jump to the row that `hint` names; the same list
    /// where it names none.
    pub open spec fn jump_hint(self, hint: Seq<char>) -> FileListView {
        if self.valid_hint(hint) {
            self.at(self.cursor().jump(self.hinted_row(hint) as nat))
        } else {
            self
        }
    }
}

impl View for FileList {
    type V = FileListView;

    closed spec fn view(&self) -> FileListView {
        FileListView {
            files: files_view(self.files@),
            scroll: self.scroll as nat,
            selected: self.selected as nat,
            max_entries: self.max_entries as nat,
            hint_mode: self.hint_mode,
            visible: self.visible,
        }
    }
}

impl FileList {
    /// A visible list of `files` at the top, with no height set and hints off.
    pub fn new(files: Vec<File>) -> (list: Self)
        ensures
            list@ == (FileListView {
                files: files_view(files@),
                scroll: 0,
                selected: 0,
                max_entries: 0,
                hint_mode: false,
                visible: true,
            }),
    {
        Self {
            files,
            scroll: 0,
            selected: 0,
            max_entries: 0,
            hint_mode: false,
            hint_choices: HintTable::new(),
            visible: true,
        }
    }

    /// Replaces the entries and goes back to the top.
    pub fn update_files(&mut self, files: Vec<File>)
        ensures
            final(self)@ == (FileListView {
                files: files_view(files@),
                scroll: 0,
                selected: 0,
                ..old(self)@
            }),
    {
        self.files = files;
        self.selected = 0;
        self.scroll = 0;
    }

    /// Sets the number of rows of the window; the position stays.
    pub fn set_max_entries(&mut self, max_entries: usize)
        ensures
            final(self)@ == (FileListView { max_entries: max_entries as nat, ..old(self)@ }),
    {
        self.max_entries = max_entries;
    }

    /// Moves the selection by one entry, down or up.
    pub fn scroll_entry(&mut self, down: bool)
        ensures
            final(self)@ == old(self)@.at(old(self)@.cursor().scroll_entry(down)),
            old(self)@.cursor().in_bounds() ==> final(self)@.cursor().in_bounds(),
    {
        if down {
            let len = self.files.len();
            if self.scroll >= len || self.selected >= len - self.scroll - 1 {
                return ;
            }
            if self.max_entries != 0 && self.selected >= self.max_entries - 1 {
                self.scroll += self.selected + 1 - (self.max_entries - 1);
                self.selected = self.max_entries - 1;
            } else {
                self.selected += 1;
            }
        } else if self.selected == 0 && self.scroll != 0 {
            self.scroll -= 1;
        } else {
            self.selected = self.selected.saturating_sub(1);
        }
    }

    /// Moves the window by one row, down or up.
    pub fn scroll_window(&mut self, down: bool)
        ensures
            final(self)@ == old(self)@.at(old(self)@.cursor().scroll_window(down)),
            old(self)@.cursor().in_bounds() ==> final(self)@.cursor().in_bounds(),
    {
        if down {
            let len = self.files.len();
            if self.scroll < len && self.max_entries < len - self.scroll && self.selected < len
                - self.scroll - 1 {
                self.scroll += 1;
            }
        } else if self.scroll > 0 {
            self.scroll -= 1;
        }
    }

    /// Shows or hides the codes beside the rows.
    pub fn hint_mode(&mut self, on: bool)
        ensures
            final(self)@ == (FileListView { hint_mode: on, ..old(self)@ }),
    {
        self.hint_mode = on;
    }

    /// Shows or hides the panel.
    pub fn set_visible(&mut self, visible: bool)
        ensures
            final(self)@ == (FileListView { visible, ..old(self)@ }),
    {
        self.visible = visible;
    }

    /// Number of rows of the window that show an entry.
    pub fn visible_rows(&self) -> (rows: usize)
        ensures
            rows == self@.cursor().visible_rows(),
    {
        let len = self.files.len();
        if self.scroll >= len {
            0
        } else if len - self.scroll < self.max_entries {
            len - self.scroll
        } else {
            self.max_entries
        }
    }

    /// Whether `hint` is the code of a row that shows an entry.
    pub fn valid_hint(&self, hint: &String) -> (valid: bool)
        ensures
            valid == self@.valid_hint(hint@),
    {
        let rows = self.visible_rows();
        let valid = self.hint_choices.is_valid_code(hint, rows);
        proof {
            if valid {
                let k = choose|k: int| 0 <= k < rows && k < HINT_ROWS && hint_code(k) == hint@;
                assert(self@.hinted(hint@, k));
            } else {
                assert forall|row: int| !self@.hinted(hint@, row) by {
                    if 0 <= row < rows && row < HINT_ROWS {
                        assert(hint_code(row) != hint@);
                    }
                }
            }
        }
        valid
    }

    /// Selects the row that `hint` names. A code that names no row showing an
    /// entry is refused and nothing changes.
    pub fn jump_hint(&mut self, hint: String) -> (done: Result<(), Error>)
        ensures
            done.is_ok() == old(self)@.valid_hint(hint@),
            done.is_err() ==> done == Err::<(), Error>(Error::UnknownHint),
            final(self)@ == old(self)@.jump_hint(hint@),
            old(self)@.cursor().in_bounds() ==> final(self)@.cursor().in_bounds(),
    {
        let rows = self.visible_rows();
        match self.hint_choices.resolve(&hint) {
            Ok(row) => {
                if row < rows {
                    proof {
                        assert(self@.hinted(hint@, row as int));
                        let other = self@.hinted_row(hint@);
                        if other != row {
                            crate::hints::lemma_codes_distinct(other, row as int);
                        }
                    }
                    self.selected = row;
                    Ok(())
                } else {
                    proof {
                        assert forall|k: int| !self@.hinted(hint@, k) by {
                            if 0 <= k < HINT_ROWS && k != row {
                                crate::hints::lemma_codes_distinct(k, row as int);
                            }
                        }
                    }
                    Err(Error::UnknownHint)
                }
            },
            Err(_) => Err(Error::UnknownHint),
        }
    }

    /// Name of the selected entry.
    pub fn curr_entry(&self) -> (name: Result<String, Error>)
        ensures
            match name {
                Ok(n) => self@.cursor().on_entry() && n@ == self@.files[
                    self@.cursor().index() as int
                ].name,
                Err(e) => !self@.cursor().on_entry() && e == Error::OutOfRange,
            },
    {
        let len = self.files.len();
        if self.scroll < len && self.selected < len - self.scroll {
            Ok(self.files[self.scroll + self.selected].name())
        } else {
            Err(Error::OutOfRange)
        }
    }

    /// Kind of the selected entry.
    pub fn curr_kind(&self) -> (kind: Result<EntryKind, Error>)
        ensures
            match kind {
                Ok(k) => self@.cursor().on_entry() && k == self@.files[
                    self@.cursor().index() as int
                ].kind,
                Err(e) => !self@.cursor().on_entry() && e == Error::OutOfRange,
            },
    {
        let len = self.files.len();
        if self.scroll < len && self.selected < len - self.scroll {
            Ok(self.files[self.scroll + self.selected].kind())
        } else {
            Err(Error::OutOfRange)
        }
    }

    /// The entries, first to last.
    pub fn files(&self) -> (files: &Vec<File>)
        ensures
            files_view(files@) == self@.files,
    {
        &self.files
    }

    /// Number of the entry on the first row of the window.
    pub fn scroll(&self) -> (scroll: usize)
        ensures
            scroll == self@.scroll,
    {
        self.scroll
    }

    /// Row of the window that is selected.
    pub fn selected(&self) -> (selected: usize)
        ensures
            selected == self@.selected,
    {
        self.selected
    }

    /// Number of rows of the window.
    pub fn max_entries(&self) -> (max_entries: usize)
        ensures
            max_entries == self@.max_entries,
    {
        self.max_entries
    }

    /// Whether the codes are shown.
    pub fn hints_shown(&self) -> (shown: bool)
        ensures
            shown == self@.hint_mode,
    {
        self.hint_mode
    }

    /// Whether the panel is shown.
    pub fn is_visible(&self) -> (visible: bool)
        ensures
            visible == self@.visible,
    {
        self.visible
    }

    /// The code shown beside a row of the window.
    pub fn hint_for_row(&self, row: usize) -> (code: Option<String>)
        ensures
            row < HINT_ROWS ==> code.is_some() && code.unwrap()@ == hint_code(row as int),
            row >= HINT_ROWS ==> code.is_none(),
    {
        self.hint_choices.lookup_code(row)
    }
}

/// The label that shows the current directory.
pub struct CurrDirectory {
    curr_directory: String,
    visible: bool,
}

/// What a `CurrDirectory` stands for.
pub struct CurrDirectoryView {
    pub curr_directory: Seq<char>,
    pub visible: bool,
}

impl View for CurrDirectory {
    type V = CurrDirectoryView;

    closed spec fn view(&self) -> CurrDirectoryView {
        CurrDirectoryView { curr_directory: self.curr_directory@, visible: self.visible }
    }
}

impl CurrDirectory {
    /// A visible label that shows `dir`.
    pub fn new(dir: String) -> (label: Self)
        ensures
            label@ == (CurrDirectoryView { curr_directory: dir@, visible: true }),
    {
        Self { curr_directory: dir, visible: true }
    }

    pub fn update_cwd(&mut self, dir: String)
        ensures
            final(self)@ == (CurrDirectoryView { curr_directory: dir@, ..old(self)@ }),
    {
        self.curr_directory = dir
    }

    /// The directory shown.
    pub fn cwd(&self) -> (dir: &String)
        ensures
            dir@ == self@.curr_directory,
    {
        &self.curr_directory
    }

    /// Shows or hides the label.
    pub fn set_visible(&mut self, visible: bool)
        ensures
            final(self)@ == (CurrDirectoryView { visible, ..old(self)@ }),
    {
        self.visible = visible;
    }

    /// Whether the label is shown.
    pub fn is_visible(&self) -> (visible: bool)
        ensures
            visible == self@.visible,
    {
        self.visible
    }
}

/// What a list of strings stands for.
pub open spec fn strings_view(strings: Seq<String>) -> Seq<Seq<char>> {
    strings.map_values(|s: String| s@)
}

/// The search overlay: a query and the results of the last search.
pub struct Finder {
    visible: bool,
    text: String,
    selected: usize,
    max_entries: usize,
    files: Vec<String>,
}

/// What a `Finder` stands for.
pub struct FinderView {
    pub visible: bool,
    pub text: Seq<char>,
    pub selected: nat,
    pub max_entries: nat,
    pub files: Seq<Seq<char>>,
}

impl FinderView {
    /// The finder after new results came in: no more of them are kept than
    /// the panel has rows, and a selection beyond the last one moves onto it.
    pub open spec fn update_files(self, files: Seq<Seq<char>>) -> FinderView {
        let kept = if files.len() > self.max_entries {
            files.take(self.max_entries as int)
        } else {
            files
        };
        let selected = if self.selected != 0 && self.selected >= kept.len() {
            if kept.len() == 0 {
                0
            } else {
                (kept.len() - 1) as nat
            }
        } else {
            self.selected
        };
        FinderView { files: kept, selected, ..self }
    }

    /// The finder after the selection moved by one result. It stops at the
    /// first result, at the last one and at the last row of the panel.
    pub open spec fn scroll(self, down: bool) -> FinderView {
        if down {
            if self.selected + 1 < self.files.len() && self.selected + 1 < self.max_entries {
                FinderView { selected: self.selected + 1, ..self }
            } else {
                self
            }
        } else if self.selected == 0 {
            self
        } else {
            FinderView { selected: (self.selected - 1) as nat, ..self }
        }
    }
}

impl View for Finder {
    type V = FinderView;

    closed spec fn view(&self) -> FinderView {
        FinderView {
            visible: self.visible,
            text: self.text@,
            selected: self.selected as nat,
            max_entries: self.max_entries as nat,
            files: strings_view(self.files@),
        }
    }
}

impl Finder {
    /// A hidden finder with no query, no results and no height.
    pub fn new() -> (finder: Self)
        ensures
            finder@ == (FinderView {
                visible: false,
                text: Seq::empty(),
                selected: 0,
                max_entries: 0,
                files: Seq::empty(),
            }),
    {
        let finder = Self {
            visible: false,
            text: String::new(),
            selected: 0,
            max_entries: 0,
            files: Vec::new(),
        };
        assert(strings_view(finder.files@) =~= Seq::empty());
        finder
    }

    /// Forgets the query, the results and the selection.
    pub fn reset(&mut self)
        ensures
            final(self)@ == (FinderView {
                text: Seq::empty(),
                selected: 0,
                files: Seq::empty(),
                ..old(self)@
            }),
    {
        self.selected = 0;
        self.files = Vec::new();
        self.text = String::new();
        assert(strings_view(self.files@) =~= Seq::empty());
    }

    pub fn text(&self) -> (text: String)
        ensures
            text@ == self@.text,
    {
        self.text.clone()
    }

    pub fn set_text(&mut self, text: String)
        ensures
            final(self)@ == (FinderView { text: text@, ..old(self)@ }),
    {
        self.text = text
    }

    /// Takes the results of a search.
    pub fn update_files(&mut self, files: Vec<String>)
        ensures
            final(self)@ == old(self)@.update_files(strings_view(files@)),
    {
        let ghost given = strings_view(files@);
        self.files = files;
        self.files.truncate(self.max_entries);
        if self.selected != 0 && self.selected >= self.files.len() {
            self.selected = self.files.len().saturating_sub(1);
        }
        assert(strings_view(self.files@) =~= old(self)@.update_files(given).files);
    }

    /// Moves the selection by one result, down or up.
    pub fn scroll(&mut self, down: bool)
        ensures
            final(self)@ == old(self)@.scroll(down),
    {
        if down {
            if self.selected < self.files.len() && self.selected + 1 < self.files.len()
                && self.selected + 1 < self.max_entries {
                self.selected += 1;
            }
        } else {
            self.selected = self.selected.saturating_sub(1);
        }
    }

    /// The selected result.
    pub fn selection(&self) -> (selection: Result<&String, Error>)
        ensures
            match selection {
                Ok(s) => self@.selected < self@.files.len() && s@ == self@.files[
                    self@.selected as int
                ],
                Err(e) => self@.selected >= self@.files.len() && e == Error::OutOfRange,
            },
    {
        if self.selected < self.files.len() {
            Ok(&self.files[self.selected])
        } else {
            Err(Error::OutOfRange)
        }
    }

    pub fn max_entries(&self) -> (max_entries: usize)
        ensures
            max_entries == self@.max_entries,
    {
        self.max_entries
    }

    pub fn set_max_entries(&mut self, max_entries: usize)
        ensures
            final(self)@ == (FinderView { max_entries: max_entries as nat, ..old(self)@ }),
    {
        self.max_entries = max_entries
    }

    /// The results, best first.
    pub fn files(&self) -> (files: &Vec<String>)
        ensures
            strings_view(files@) == self@.files,
    {
        &self.files
    }

    /// Number of the selected result.
    pub fn selected(&self) -> (selected: usize)
        ensures
            selected == self@.selected,
    {
        self.selected
    }

    /// Shows or hides the overlay.
    pub fn set_visible(&mut self, visible: bool)
        ensures
            final(self)@ == (FinderView { visible, ..old(self)@ }),
    {
        self.visible = visible;
    }

    /// Whether the overlay is shown.
    pub fn is_visible(&self) -> (visible: bool)
        ensures
            visible == self@.visible,
    {
        self.visible
    }
}

/// After results came in, the finder keeps the first of them, no more than
/// the panel has rows, and the selection is on one of them, or at the top
/// where none is kept.
pub proof fn lemma_results_truncated(finder: FinderView, files: Seq<Seq<char>>)
    ensures
        finder.update_files(files).files.len() == if files.len() <= finder.max_entries {
            files.len()
        } else {
            finder.max_entries
        },
        finder.update_files(files).files.is_prefix_of(files),
        finder.update_files(files).selected < finder.update_files(files).files.len()
            || finder.update_files(files).selected == 0,
        finder.update_files(files).selected <= finder.selected,
{
}

/// A file waiting to be copied or moved.
#[derive(Clone, Debug, PartialEq, Eq)]
pub struct ClipboardEntry {
    file: String,
    cut: bool,
}

/// What a `ClipboardEntry` stands for.
pub struct ClipboardEntryView {
    pub file: Seq<char>,
    pub cut: bool,
}

impl View for ClipboardEntry {
    type V = ClipboardEntryView;

    closed spec fn view(&self) -> ClipboardEntryView {
        ClipboardEntryView { file: self.file@, cut: self.cut }
    }
}

/// The line that shows a clipboard entry in a panel `width` columns wide:
/// the path, cut at the front or padded at the back to the panel's inner
/// width less two, then a blank and `X` for a move or `Y` for a copy.
pub open spec fn format_entry(file: Seq<char>, cut: bool, width: nat) -> Seq<char> {
    let max_width = if width >= 2 + BLOCK_LINES {
        width - 2 - BLOCK_LINES
    } else {
        0
    };
    let mark = if cut {
        'X'
    } else {
        'Y'
    };
    if file.len() > max_width {
        let rest = if max_width > 3 {
            file.skip(file.len() - max_width + 3)
        } else {
            Seq::empty()
        };
        seq!['.', '.', '.'] + rest + seq![' ', mark]
    } else {
        file + Seq::new((max_width - file.len()) as nat, |i: int| ' ') + seq![' ', mark]
    }
}

impl ClipboardEntry {
    pub fn new(file: String, cut: bool) -> (entry: Self)
        ensures
            entry@ == (ClipboardEntryView { file: file@, cut }),
    {
        Self { file, cut }
    }

    pub fn fname(&self) -> (name: String)
        ensures
            name@ == self@.file,
    {
        self.file.clone()
    }

    /// The line that shows the entry in a panel `width` columns wide.
    pub fn format(&self, width: usize) -> (line: String)
        ensures
            line@ == format_entry(self@.file, self@.cut, width as nat),
    {
        let name = to_chars(self.file.as_str());
        let max_width: usize = if width >= 4 {
            width - 4
        } else {
            0
        };
        let mark = if self.cut {
            'X'
        } else {
            'Y'
        };
        let mut line = String::new();
        if name.len() > max_width {
            push_char(&mut line, '.');
            push_char(&mut line, '.');
            push_char(&mut line, '.');
            let start: usize = if max_width > 3 {
                name.len() - (max_width - 3)
            } else {
                name.len()
            };
            let mut i: usize = start;
            while i < name.len()
                invariant
                    start <= i <= name.len(),
                    line@ == seq!['.', '.', '.'] + name@.subrange(start as int, i as int),
                decreases name.len() - i,
            {
                push_char(&mut line, name[i]);
                i += 1;
            }
            assert(name@.subrange(start as int, name.len() as int) =~= if max_width > 3 {
                name@.skip(name.len() - max_width + 3)
            } else {
                Seq::empty()
            });
        } else {
            let mut i: usize = 0;
            while i < name.len()
                invariant
                    i <= name.len(),
                    line@ == name@.take(i as int),
                decreases name.len() - i,
            {
                push_char(&mut line, name[i]);
                i += 1;
            }
            assert(name@.take(name.len() as int) =~= name@);
            let pad: usize = max_width - name.len();
            let mut j: usize = 0;
            while j < pad
                invariant
                    j <= pad,
                    line@ == name@ + Seq::new(j as nat, |i: int| ' '),
                decreases pad - j,
            {
                push_char(&mut line, ' ');
                j += 1;
            }
        }
        push_char(&mut line, ' ');
        push_char(&mut line, mark);
        assert(line@ =~= format_entry(self@.file, self@.cut, width as nat));
        line
    }

    pub fn file(&self) -> (file: &String)
        ensures
            file@ == self@.file,
    {
        &self.file
    }

    pub fn cut(&self) -> (cut: bool)
        ensures
            cut == self@.cut,
    {
        self.cut
    }
}

/// What a list of clipboard entries stands for.
pub open spec fn entries_view(entries: Seq<ClipboardEntry>) -> Seq<ClipboardEntryView> {
    entries.map_values(|e: ClipboardEntry| e@)
}

/// The files waiting to be copied or moved, oldest first.
pub struct Clipboard {
    visible: bool,
    files: Vec<ClipboardEntry>,
    max_entries: usize,
}

/// What a `Clipboard` stands for.
pub struct ClipboardView {
    pub visible: bool,
    pub files: Seq<ClipboardEntryView>,
    pub max_entries: nat,
}

impl View for Clipboard {
    type V = ClipboardView;

    closed spec fn view(&self) -> ClipboardView {
        ClipboardView {
            visible: self.visible,
            files: entries_view(self.files@),
            max_entries: self.max_entries as nat,
        }
    }
}

impl Clipboard {
    /// A visible, empty clipboard with no height.
    pub fn new() -> (clipboard: Self)
        ensures
            clipboard@ == (ClipboardView { visible: true, files: Seq::empty(), max_entries: 0 }),
    {
        let clipboard = Self { visible: true, files: Vec::new(), max_entries: 0 };
        assert(entries_view(clipboard.files@) =~= Seq::empty());
        clipboard
    }

    /// Adds an entry behind the others.
    pub fn push(&mut self, file: ClipboardEntry)
        ensures
            final(self)@ == (ClipboardView {
                files: old(self)@.files.push(file@),
                ..old(self)@
            }),
    {
        self.files.push(file);
        assert(entries_view(self.files@) =~= old(self)@.files.push(file@));
    }

    /// Drops every entry.
    pub fn clear(&mut self)
        ensures
            final(self)@ == (ClipboardView { files: Seq::empty(), ..old(self)@ }),
    {
        self.files.clear();
        assert(entries_view(self.files@) =~= Seq::empty());
    }

    pub fn get_files(&self) -> (files: &Vec<ClipboardEntry>)
        ensures
            entries_view(files@) == self@.files,
    {
        &self.files
    }

    pub fn set_max_entries(&mut self, n: usize)
        ensures
            final(self)@ == (ClipboardView { max_entries: n as nat, ..old(self)@ }),
    {
        self.max_entries = n;
    }

    /// Number of rows of the panel.
    pub fn max_entries(&self) -> (n: usize)
        ensures
            n == self@.max_entries,
    {
        self.max_entries
    }

    /// Shows or hides the panel.
    pub fn set_visible(&mut self, visible: bool)
        ensures
            final(self)@ == (ClipboardView { visible, ..old(self)@ }),
    {
        self.visible = visible;
    }

    /// Whether the panel is shown.
    pub fn is_visible(&self) -> (visible: bool)
        ensures
            visible == self@.visible,
    {
        self.visible
    }
}

/// The first lines of the selected file.
pub struct Preview {
    visible: bool,
    lines: Vec<String>,
    max_lines: usize,
}

/// What a `Preview` stands for.
pub struct PreviewView {
    pub visible: bool,
    pub lines: Seq<Seq<char>>,
    pub max_lines: nat,
}

impl View for Preview {
    type V = PreviewView;

    closed spec fn view(&self) -> PreviewView {
        PreviewView {
            visible: self.visible,
            lines: strings_view(self.lines@),
            max_lines: self.max_lines as nat,
        }
    }
}

impl Preview {
    /// A visible, empty preview with no height.
    pub fn new() -> (preview: Self)
        ensures
            preview@ == (PreviewView { visible: true, lines: Seq::empty(), max_lines: 0 }),
    {
        let preview = Self { visible: true, lines: Vec::new(), max_lines: 0 };
        assert(strings_view(preview.lines@) =~= Seq::empty());
        preview
    }

    pub fn update_lines(&mut self, lines: Vec<String>)
        ensures
            final(self)@ == (PreviewView { lines: strings_view(lines@), ..old(self)@ }),
    {
        self.lines = lines
    }

    pub fn max_lines(&self) -> (max_lines: usize)
        ensures
            max_lines == self@.max_lines,
    {
        self.max_lines
    }

    pub fn set_max_lines(&mut self, max_lines: usize)
        ensures
            final(self)@ == (PreviewView { max_lines: max_lines as nat, ..old(self)@ }),
    {
        self.max_lines = max_lines
    }

    /// The lines shown.
    pub fn lines(&self) -> (lines: &Vec<String>)
        ensures
            strings_view(lines@) == self@.lines,
    {
        &self.lines
    }

    /// Shows or hides the panel.
    pub fn set_visible(&mut self, visible: bool)
        ensures
            final(self)@ == (PreviewView { visible, ..old(self)@ }),
    {
        self.visible = visible;
    }

    /// Whether the panel is shown.
    pub fn is_visible(&self) -> (visible: bool)
        ensures
            visible == self@.visible,
    {
        self.visible
    }
}

/// The one-line text entry for renaming and creating.
pub struct Omnibar {
    visible: bool,
    text: String,
    mode: OmnibarType,
}

/// What an `Omnibar` stands for.
pub struct OmnibarView {
    pub visible: bool,
    pub text: Seq<char>,
    pub mode: OmnibarType,
}

impl View for Omnibar {
    type V = OmnibarView;

    closed spec fn view(&self) -> OmnibarView {
        OmnibarView { visible: self.visible, text: self.text@, mode: self.mode }
    }
}

impl Omnibar {
    /// A hidden, empty omnibar set to rename.
    pub fn new() -> (omnibar: Self)
        ensures
            omnibar@ == (OmnibarView {
                visible: false,
                text: Seq::empty(),
                mode: OmnibarType::Rename,
            }),
    {
        Self { visible: false, text: String::new(), mode: OmnibarType::Rename }
    }

    pub fn text(&self) -> (text: &String)
        ensures
            text@ == self@.text,
    {
        &self.text
    }

    pub fn set_text(&mut self, text: String)
        ensures
            final(self)@ == (OmnibarView { text: text@, ..old(self)@ }),
    {
        self.text = text;
    }

    /// What the omnibar is set to do.
    pub fn mode(&self) -> (mode: OmnibarType)
        ensures
            mode == self@.mode,
    {
        self.mode
    }

    /// Sets what the omnibar does.
    pub fn set_mode(&mut self, mode: OmnibarType)
        ensures
            final(self)@ == (OmnibarView { mode, ..old(self)@ }),
    {
        self.mode = mode;
    }

    /// Shows or hides the overlay.
    pub fn set_visible(&mut self, visible: bool)
        ensures
            final(self)@ == (OmnibarView { visible, ..old(self)@ }),
    {
        self.visible = visible;
    }

    /// Whether the overlay is shown.
    pub fn is_visible(&self) -> (visible: bool)
        ensures
            visible == self@.visible,
    {
        self.visible
    }
}

/// All the panels of the browser.
pub struct Window {
    pub file_list: FileList,
    pub curr_dir: CurrDirectory,
    pub finder: Finder,
    pub clipboard: Clipboard,
    pub preview: Preview,
    pub omnibar: Omnibar,
}

/// What a `Window` stands for.
pub struct WindowView {
    pub file_list: FileListView,
    pub curr_dir: CurrDirectoryView,
    pub finder: FinderView,
    pub clipboard: ClipboardView,
    pub preview: PreviewView,
    pub omnibar: OmnibarView,
}

impl WindowView {
    /// The window with the four main panels shown or hidden together.
    pub open spec fn with_panels(self, visible: bool) -> WindowView {
        WindowView {
            file_list: FileListView { visible, ..self.file_list },
            curr_dir: CurrDirectoryView { visible, ..self.curr_dir },
            clipboard: ClipboardView { visible, ..self.clipboard },
            preview: PreviewView { visible, ..self.preview },
            ..self
        }
    }

    /// The window with the codes of the file list shown or hidden.
    pub open spec fn hint_mode(self, on: bool) -> WindowView {
        WindowView { file_list: FileListView { hint_mode: on, ..self.file_list }, ..self }
    }

    /// The window with the finder turned on, over everything else, or off,
    /// with the main panels back.
    pub open spec fn finder_mode(self, on: bool) -> WindowView {
        if on {
            WindowView {
                finder: FinderView { visible: true, ..self.finder },
                omnibar: OmnibarView { visible: false, ..self.omnibar },
                ..self.with_panels(false)
            }
        } else {
            WindowView {
                finder: FinderView { visible: false, ..self.finder },
                ..self.with_panels(true)
            }
        }
    }

    /// The window with the omnibar set to `mode` and turned on, over
    /// everything else, or off, with the main panels back.
    pub open spec fn omnibar_mode(self, on: bool, mode: OmnibarType) -> WindowView {
        if on {
            WindowView {
                finder: FinderView { visible: false, ..self.finder },
                omnibar: OmnibarView { visible: true, mode, ..self.omnibar },
                ..self.with_panels(false)
            }
        } else {
            WindowView {
                omnibar: OmnibarView { visible: false, mode, ..self.omnibar },
                ..self.with_panels(true)
            }
        }
    }
}

impl View for Window {
    type V = WindowView;

    open spec fn view(&self) -> WindowView {
        WindowView {
            file_list: self.file_list@,
            curr_dir: self.curr_dir@,
            finder: self.finder@,
            clipboard: self.clipboard@,
            preview: self.preview@,
            omnibar: self.omnibar@,
        }
    }
}

impl Window {
    /// The window at start: the listing of `starting_dir` with the main panels
    /// shown and both overlays hidden.
    pub fn new(files: Vec<File>, starting_dir: String) -> (window: Self)
        ensures
            window.file_list@ == (FileListView {
                files: files_view(files@),
                scroll: 0,
                selected: 0,
                max_entries: 0,
                hint_mode: false,
                visible: true,
            }),
            window.curr_dir@ == (CurrDirectoryView {
                curr_directory: starting_dir@,
                visible: true,
            }),
            window.finder@ == (FinderView {
                visible: false,
                text: Seq::empty(),
                selected: 0,
                max_entries: 0,
                files: Seq::empty(),
            }),
            window.clipboard@ == (ClipboardView {
                visible: true,
                files: Seq::empty(),
                max_entries: 0,
            }),
            window.preview@ == (PreviewView { visible: true, lines: Seq::empty(), max_lines: 0 }),
            window.omnibar@ == (OmnibarView {
                visible: false,
                text: Seq::empty(),
                mode: OmnibarType::Rename,
            }),
    {
        Self {
            file_list: FileList::new(files),
            curr_dir: CurrDirectory::new(starting_dir),
            finder: Finder::new(),
            clipboard: Clipboard::new(),
            preview: Preview::new(),
            omnibar: Omnibar::new(),
        }
    }

    /// Shows or hides the codes of the file list.
    pub fn hint_mode(&mut self, on: bool)
        ensures
            final(self)@ == old(self)@.hint_mode(on),
    {
        self.file_list.hint_mode(on);
    }

    /// Turns the finder on or off.
    pub fn finder_mode(&mut self, on: bool)
        ensures
            final(self)@ == old(self)@.finder_mode(on),
    {
        if on {
            self.file_list.set_visible(false);
            self.curr_dir.set_visible(false);
            self.clipboard.set_visible(false);
            self.preview.set_visible(false);
            self.omnibar.set_visible(false);
            self.finder.set_visible(true);
        } else {
            self.file_list.set_visible(true);
            self.curr_dir.set_visible(true);
            self.clipboard.set_visible(true);
            self.preview.set_visible(true);
            self.finder.set_visible(false);
        }
    }

    /// Sets the omnibar to `mode` and turns it on or off.
    pub fn omnibar_mode(&mut self, on: bool, mode: OmnibarType)
        ensures
            final(self)@ == old(self)@.omnibar_mode(on, mode),
    {
        self.omnibar.set_mode(mode);
        if on {
            self.file_list.set_visible(false);
            self.curr_dir.set_visible(false);
            self.clipboard.set_visible(false);
            self.preview.set_visible(false);
            self.finder.set_visible(false);
            self.omnibar.set_visible(true);
        } else {
            self.file_list.set_visible(true);
            self.curr_dir.set_visible(true);
            self.clipboard.set_visible(true);
            self.preview.set_visible(true);
            self.omnibar.set_visible(false);
        }
    }
}

} // verus!
