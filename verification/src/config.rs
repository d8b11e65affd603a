//! Key bindings: the commands of each mode and the table that resolves a key
//! to a command.

use vstd::prelude::*;
use vstd::std_specs::convert::FromSpecImpl;
use std::collections::HashMap;
use crate::Error;
use crate::text::{chars_eq, str_eq, to_chars};

verus! {

/// A key of the keyboard, as far as bindings tell keys apart.
#[derive(Clone, Copy, Debug, PartialEq, Eq, Structural)]
pub enum KeyCode {
    Char(char),
    Enter,
    Backspace,
    Left,
    Right,
    Up,
    Down,
    Home,
    End,
    PageUp,
    PageDown,
    Delete,
    Insert,
    Tab,
    BackTab,
    Esc,
    /// No key: what an unknown name stands for.
    Null,
}

impl KeyCode {
    /// A number for each key, no two keys with the same: a character has its
    /// code point, the named keys follow the last code point.
    pub open spec fn spec_index(self) -> u64 {
        match self {
            KeyCode::Char(c) => c as u64,
            KeyCode::Enter => 0x110000,
            KeyCode::Backspace => 0x110001,
            KeyCode::Left => 0x110002,
            KeyCode::Right => 0x110003,
            KeyCode::Up => 0x110004,
            KeyCode::Down => 0x110005,
            KeyCode::Home => 0x110006,
            KeyCode::End => 0x110007,
            KeyCode::PageUp => 0x110008,
            KeyCode::PageDown => 0x110009,
            KeyCode::Delete => 0x11000a,
            KeyCode::Insert => 0x11000b,
            KeyCode::Tab => 0x11000c,
            KeyCode::BackTab => 0x11000d,
            KeyCode::Esc => 0x11000e,
            KeyCode::Null => 0x11000f,
        }
    }

    #[verifier::when_used_as_spec(spec_index)]
    pub fn index(self) -> (n: u64)
        ensures
            n == self.spec_index(),
    {
        match self {
            KeyCode::Char(c) => c as u64,
            KeyCode::Enter => 0x110000,
            KeyCode::Backspace => 0x110001,
            KeyCode::Left => 0x110002,
            KeyCode::Right => 0x110003,
            KeyCode::Up => 0x110004,
            KeyCode::Down => 0x110005,
            KeyCode::Home => 0x110006,
            KeyCode::End => 0x110007,
            KeyCode::PageUp => 0x110008,
            KeyCode::PageDown => 0x110009,
            KeyCode::Delete => 0x11000a,
            KeyCode::Insert => 0x11000b,
            KeyCode::Tab => 0x11000c,
            KeyCode::BackTab => 0x11000d,
            KeyCode::Esc => 0x11000e,
            KeyCode::Null => 0x11000f,
        }
    }
}

/// Two keys with the same number are the same key.
pub proof fn lemma_index_injective(a: KeyCode, b: KeyCode)
    ensures
        a.index() == b.index() <==> a == b,
{
}

/// The last of the ASCII characters.
pub const LAST_ASCII: char = '\x7f';

/// The key that a binding names: a single ASCII character names itself, the
/// other keys have lower-case names, and any other text names no key.
pub open spec fn key_of(s: Seq<char>) -> KeyCode {
    if s.len() == 1 && s[0] <= LAST_ASCII {
        KeyCode::Char(s[0])
    } else if s == "enter"@ {
        KeyCode::Enter
    } else if s == "backspace"@ {
        KeyCode::Backspace
    } else if s == "left"@ {
        KeyCode::Left
    } else if s == "right"@ {
        KeyCode::Right
    } else if s == "up"@ {
        KeyCode::Up
    } else if s == "down"@ {
        KeyCode::Down
    } else if s == "home"@ {
        KeyCode::Home
    } else if s == "end"@ {
        KeyCode::End
    } else if s == "pageup"@ {
        KeyCode::PageUp
    } else if s == "pagedown"@ {
        KeyCode::PageDown
    } else if s == "delete"@ {
        KeyCode::Delete
    } else if s == "insert"@ {
        KeyCode::Insert
    } else if s == "tab"@ {
        KeyCode::Tab
    } else if s == "backtab"@ {
        KeyCode::BackTab
    } else if s == "esc"@ {
        KeyCode::Esc
    } else {
        KeyCode::Null
    }
}

/// Whether the characters are those of `name`.
fn is_name(chars: &Vec<char>, name: &str) -> (same: bool)
    ensures
        same == (chars@ == name@),
{
    let other = to_chars(name);
    chars_eq(chars, &other)
}

/// The key that a binding names.
pub fn keycode_from_str(s: &str) -> (key: KeyCode)
    ensures
        key == key_of(s@),
{
    let chars = to_chars(s);
    if chars.len() == 1 && chars[0] <= LAST_ASCII {
        KeyCode::Char(chars[0])
    } else if is_name(&chars, "enter") {
        KeyCode::Enter
    } else if is_name(&chars, "backspace") {
        KeyCode::Backspace
    } else if is_name(&chars, "left") {
        KeyCode::Left
    } else if is_name(&chars, "right") {
        KeyCode::Right
    } else if is_name(&chars, "up") {
        KeyCode::Up
    } else if is_name(&chars, "down") {
        KeyCode::Down
    } else if is_name(&chars, "home") {
        KeyCode::Home
    } else if is_name(&chars, "end") {
        KeyCode::End
    } else if is_name(&chars, "pageup") {
        KeyCode::PageUp
    } else if is_name(&chars, "pagedown") {
        KeyCode::PageDown
    } else if is_name(&chars, "delete") {
        KeyCode::Delete
    } else if is_name(&chars, "insert") {
        KeyCode::Insert
    } else if is_name(&chars, "tab") {
        KeyCode::Tab
    } else if is_name(&chars, "backtab") {
        KeyCode::BackTab
    } else if is_name(&chars, "esc") {
        KeyCode::Esc
    } else {
        KeyCode::Null
    }
}

/// What the omnibar does with the text that was entered.
#[derive(Clone, Copy, Debug, PartialEq, Eq, Structural)]
pub enum OmnibarType {
    Rename,
    Touch,
    Mkdir,
}

/// What a key can be bound to in the file list.
#[derive(Clone, Copy, Debug, PartialEq, Eq, Structural)]
pub enum FileListCommand {
    /// Move the selection; `true` is down.
    EntryScroll(bool),
    /// Open the selected entry, directory or file.
    SelectEntry,
    HintMode,
    /// Open the finder; `true` searches the directory history.
    FinderMode(bool),
    OmnibarMode(OmnibarType),
    /// Put the selected file on the clipboard; `true` marks it for moving.
    Yank(bool),
    Paste,
    /// Delete the selected entry; `true` also deletes directories.
    Delete(bool),
    Exit,
    ExitHint,
    /// The key is bound to nothing.
    Nothing,
}

impl FileListCommand {
    /// The command that `name` stands for in a configuration.
    pub open spec fn of_name(name: Seq<char>) -> FileListCommand {
        if name == "scroll_down"@ {
            FileListCommand::EntryScroll(true)
        } else if name == "scroll_up"@ {
            FileListCommand::EntryScroll(false)
        } else if name == "select_entry"@ {
            FileListCommand::SelectEntry
        } else if name == "hint_mode"@ {
            FileListCommand::HintMode
        } else if name == "finder_fzf"@ {
            FileListCommand::FinderMode(false)
        } else if name == "finder_zoxide"@ {
            FileListCommand::FinderMode(true)
        } else if name == "rename"@ {
            FileListCommand::OmnibarMode(OmnibarType::Rename)
        } else if name == "touch"@ {
            FileListCommand::OmnibarMode(OmnibarType::Touch)
        } else if name == "mkdir"@ {
            FileListCommand::OmnibarMode(OmnibarType::Mkdir)
        } else if name == "yank"@ {
            FileListCommand::Yank(false)
        } else if name == "cut"@ {
            FileListCommand::Yank(true)
        } else if name == "paste"@ {
            FileListCommand::Paste
        } else if name == "exit"@ {
            FileListCommand::Exit
        } else if name == "exit_hint"@ {
            FileListCommand::ExitHint
        } else {
            FileListCommand::Nothing
        }
    }

    /// Whether the preview is refreshed after the command: after every one
    /// but `Exit` and `Nothing`.
    pub fn should_refresh_preview(&self) -> (refresh: bool)
        ensures
            refresh == !(*self == FileListCommand::Exit || *self == FileListCommand::Nothing),
    {
        !matches!(self, FileListCommand::Exit | FileListCommand::Nothing)
    }
}

impl<'a> From<&'a str> for FileListCommand {
    fn from(value: &'a str) -> (command: Self) {
        let name = to_chars(value);
        if is_name(&name, "scroll_down") {
            FileListCommand::EntryScroll(true)
        } else if is_name(&name, "scroll_up") {
            FileListCommand::EntryScroll(false)
        } else if is_name(&name, "select_entry") {
            FileListCommand::SelectEntry
        } else if is_name(&name, "hint_mode") {
            FileListCommand::HintMode
        } else if is_name(&name, "finder_fzf") {
            FileListCommand::FinderMode(false)
        } else if is_name(&name, "finder_zoxide") {
            FileListCommand::FinderMode(true)
        } else if is_name(&name, "rename") {
            FileListCommand::OmnibarMode(OmnibarType::Rename)
        } else if is_name(&name, "touch") {
            FileListCommand::OmnibarMode(OmnibarType::Touch)
        } else if is_name(&name, "mkdir") {
            FileListCommand::OmnibarMode(OmnibarType::Mkdir)
        } else if is_name(&name, "yank") {
            FileListCommand::Yank(false)
        } else if is_name(&name, "cut") {
            FileListCommand::Yank(true)
        } else if is_name(&name, "paste") {
            FileListCommand::Paste
        } else if is_name(&name, "exit") {
            FileListCommand::Exit
        } else if is_name(&name, "exit_hint") {
            FileListCommand::ExitHint
        } else {
            FileListCommand::Nothing
        }
    }
}

impl<'a> FromSpecImpl<&'a str> for FileListCommand {
    open spec fn obeys_from_spec() -> bool {
        true
    }

    open spec fn from_spec(value: &'a str) -> FileListCommand {
        FileListCommand::of_name(value@)
    }
}

/// What a key means in the finder.
#[derive(Clone, Copy, Debug, PartialEq, Eq, Structural)]
pub enum FinderCommand {
    /// Append the character to the query.
    Write(char),
    Backspace,
    SelectEntry,
    /// Move the selection; `true` is down.
    EntryScroll(bool),
    Exit,
    /// The key is bound to nothing.
    Nothing,
}

impl FinderCommand {
    /// The command that `name` stands for in a configuration.
    pub open spec fn of_name(name: Seq<char>) -> FinderCommand {
        if name == "backspace"@ {
            FinderCommand::Backspace
        } else if name == "select_entry"@ {
            FinderCommand::SelectEntry
        } else if name == "scroll_down"@ {
            FinderCommand::EntryScroll(true)
        } else if name == "scroll_up"@ {
            FinderCommand::EntryScroll(false)
        } else if name == "exit"@ {
            FinderCommand::Exit
        } else {
            FinderCommand::Nothing
        }
    }
}

impl<'a> From<&'a str> for FinderCommand {
    fn from(value: &'a str) -> (command: Self) {
        let name = to_chars(value);
        if is_name(&name, "backspace") {
            FinderCommand::Backspace
        } else if is_name(&name, "select_entry") {
            FinderCommand::SelectEntry
        } else if is_name(&name, "scroll_down") {
            FinderCommand::EntryScroll(true)
        } else if is_name(&name, "scroll_up") {
            FinderCommand::EntryScroll(false)
        } else if is_name(&name, "exit") {
            FinderCommand::Exit
        } else {
            FinderCommand::Nothing
        }
    }
}

impl<'a> FromSpecImpl<&'a str> for FinderCommand {
    open spec fn obeys_from_spec() -> bool {
        true
    }

    open spec fn from_spec(value: &'a str) -> FinderCommand {
        FinderCommand::of_name(value@)
    }
}

/// What a key means in the omnibar.
#[derive(Clone, Copy, Debug, PartialEq, Eq, Structural)]
pub enum OmnibarCommand {
    /// Append the character to the text.
    Write(char),
    Backspace,
    Submit,
    Exit,
    /// The key is bound to nothing.
    Nothing,
}

impl OmnibarCommand {
    /// The command that `name` stands for in a configuration.
    pub open spec fn of_name(name: Seq<char>) -> OmnibarCommand {
        if name == "backspace"@ {
            OmnibarCommand::Backspace
        } else if name == "submit"@ {
            OmnibarCommand::Submit
        } else if name == "exit"@ {
            OmnibarCommand::Exit
        } else {
            OmnibarCommand::Nothing
        }
    }
}

impl<'a> From<&'a str> for OmnibarCommand {
    fn from(value: &'a str) -> (command: Self) {
        let name = to_chars(value);
        if is_name(&name, "backspace") {
            OmnibarCommand::Backspace
        } else if is_name(&name, "submit") {
            OmnibarCommand::Submit
        } else if is_name(&name, "exit") {
            OmnibarCommand::Exit
        } else {
            OmnibarCommand::Nothing
        }
    }
}

impl<'a> FromSpecImpl<&'a str> for OmnibarCommand {
    open spec fn obeys_from_spec() -> bool {
        true
    }

    open spec fn from_spec(value: &'a str) -> OmnibarCommand {
        OmnibarCommand::of_name(value@)
    }
}

/// The commands of the file list that a configuration can bind, in the
/// order in which they are bound.
pub const FILELIST_KEYS: [&'static str; 14] = [
    "scroll_down",
    "scroll_up",
    "select_entry",
    "hint_mode",
    "finder_fzf",
    "finder_zoxide",
    "rename",
    "touch",
    "mkdir",
    "yank",
    "cut",
    "paste",
    "exit",
    "exit_hint",
];

/// The keys that the commands of the file list have unless the user binds
/// others.
pub const FILELIST_DEFAULTS: [&'static str; 14] = [
    "n",
    "e",
    "enter",
    "f",
    "/",
    "z",
    "r",
    "t",
    "m",
    "y",
    "x",
    "p",
    "q",
    "esc",
];

/// The commands of the finder that a configuration can bind.
pub const FINDER_KEYS: [&'static str; 5] = [
    "backspace",
    "select_entry",
    "scroll_down",
    "scroll_up",
    "exit",
];

/// The keys that the commands of the finder have unless the user binds
/// others.
pub const FINDER_DEFAULTS: [&'static str; 5] = ["backspace", "enter", "down", "up", "esc"];

/// The commands of the omnibar that a configuration can bind.
pub const OMNIBAR_KEYS: [&'static str; 3] = ["backspace", "submit", "exit"];

/// The keys that the commands of the omnibar have unless the user binds
/// others.
pub const OMNIBAR_DEFAULTS: [&'static str; 3] = ["backspace", "enter", "esc"];

/// One line of a user's configuration: in `section`, `command` is on `key`.
#[derive(Clone, Debug, PartialEq, Eq)]
pub struct Binding {
    pub section: String,
    pub command: String,
    pub key: String,
}

/// What the user has set: the key text for a section and a command.
pub type Settings = Map<(Seq<char>, Seq<char>), Seq<char>>;

/// No setting at all.
pub open spec fn no_settings() -> Settings {
    Map::empty()
}

/// The settings that a list of bindings makes; a later line replaces an
/// earlier one for the same section and command.
pub open spec fn settings_of(bindings: Seq<Binding>) -> Settings
    decreases bindings.len(),
{
    if bindings.len() == 0 {
        no_settings()
    } else {
        settings_of(bindings.drop_last()).insert(
            (bindings.last().section@, bindings.last().command@),
            bindings.last().key@,
        )
    }
}

/// What the settings say for each of `names` in `section`: the key text, or
/// nothing.
pub open spec fn chosen(user: Settings, section: Seq<char>, names: Seq<&'static str>) -> Seq<
    Option<Seq<char>>,
> {
    Seq::new(
        names.len(),
        |i: int|
            if user.contains_key((section, names[i]@)) {
                Some(user[(section, names[i]@)])
            } else {
                None
            },
    )
}

/// The key of a command: the one the user chose, or the built-in one.
pub open spec fn bound_key(choice: Option<Seq<char>>, default: Seq<char>) -> KeyCode {
    match choice {
        Some(text) => key_of(text),
        None => key_of(default),
    }
}

/// A key text that names a character key or is empty. The finder and the
/// omnibar take every character as text, so none can be bound there.
pub open spec fn is_char_key(text: Seq<char>) -> bool {
    text.len() == 0 || (text.len() == 1 && text[0] <= LAST_ASCII)
}

/// No choice among the first `n` names a character key.
pub open spec fn no_char_keys(choices: Seq<Option<Seq<char>>>, n: int) -> bool {
    forall|i: int| 0 <= i < n && i < choices.len() ==> !(#[trigger] choices[i] matches Some(text)
        && is_char_key(text))
}

/// The file-list table after the first `n` commands were bound, each one
/// replacing what was on its key before.
pub open spec fn filelist_bindings(choices: Seq<Option<Seq<char>>>, n: int) -> Map<
    KeyCode,
    FileListCommand,
>
    decreases n,
{
    if n <= 0 {
        Map::empty()
    } else {
        filelist_bindings(choices, n - 1).insert(
            bound_key(choices[n - 1], FILELIST_DEFAULTS@[n - 1]@),
            FileListCommand::of_name(FILELIST_KEYS@[n - 1]@),
        )
    }
}

/// The finder table after the first `n` commands were bound.
pub open spec fn finder_bindings(choices: Seq<Option<Seq<char>>>, n: int) -> Map<
    KeyCode,
    FinderCommand,
>
    decreases n,
{
    if n <= 0 {
        Map::empty()
    } else {
        finder_bindings(choices, n - 1).insert(
            bound_key(choices[n - 1], FINDER_DEFAULTS@[n - 1]@),
            FinderCommand::of_name(FINDER_KEYS@[n - 1]@),
        )
    }
}

/// The omnibar table after the first `n` commands were bound.
pub open spec fn omnibar_bindings(choices: Seq<Option<Seq<char>>>, n: int) -> Map<
    KeyCode,
    OmnibarCommand,
>
    decreases n,
{
    if n <= 0 {
        Map::empty()
    } else {
        omnibar_bindings(choices, n - 1).insert(
            bound_key(choices[n - 1], OMNIBAR_DEFAULTS@[n - 1]@),
            OmnibarCommand::of_name(OMNIBAR_KEYS@[n - 1]@),
        )
    }
}

/// What a `Config` stands for: one table from keys to commands per mode.
pub struct ConfigView {
    pub file_list: Map<KeyCode, FileListCommand>,
    pub finder: Map<KeyCode, FinderCommand>,
    pub omnibar: Map<KeyCode, OmnibarCommand>,
}

/// The configuration that the user's settings make, on top of the built-in
/// keys. A character key bound in the finder or the omnibar is refused.
pub open spec fn config_of(user: Settings) -> Result<ConfigView, Error> {
    let file_list = chosen(user, "filelist"@, FILELIST_KEYS@);
    let finder = chosen(user, "finder"@, FINDER_KEYS@);
    let omnibar = chosen(user, "omnibar"@, OMNIBAR_KEYS@);
    if no_char_keys(finder, 5) && no_char_keys(omnibar, 3) {
        Ok(
            ConfigView {
                file_list: filelist_bindings(file_list, 14),
                finder: finder_bindings(finder, 5),
                omnibar: omnibar_bindings(omnibar, 3),
            },
        )
    } else {
        Err(Error::ConfigError)
    }
}

impl ConfigView {
    /// What the file list does on a key: what its table holds for it.
    pub open spec fn filelist_command(self, code: KeyCode) -> Option<FileListCommand> {
        lookup(self.file_list, code)
    }

    /// What the finder does on a key: what its table holds for it, and
    /// otherwise, for a character, writing it.
    pub open spec fn finder_command(self, code: KeyCode) -> Option<FinderCommand> {
        match lookup(self.finder, code) {
            Some(c) => Some(c),
            None => match code {
                KeyCode::Char(c) => Some(FinderCommand::Write(c)),
                _ => None,
            },
        }
    }

    /// What the omnibar does on a key: what its table holds for it, and
    /// otherwise, for a character, writing it.
    pub open spec fn omnibar_command(self, code: KeyCode) -> Option<OmnibarCommand> {
        match lookup(self.omnibar, code) {
            Some(c) => Some(c),
            None => match code {
                KeyCode::Char(c) => Some(OmnibarCommand::Write(c)),
                _ => None,
            },
        }
    }
}

/// What a table holds for a key, if anything.
pub open spec fn lookup<V>(table: Map<KeyCode, V>, code: KeyCode) -> Option<V> {
    if table.contains_key(code) {
        Some(table[code])
    } else {
        None
    }
}

/// A table indexed by key numbers, read as a table indexed by keys.
pub open spec fn keyed<V>(table: Map<u64, V>) -> Map<KeyCode, V> {
    Map::new(|k: KeyCode| table.contains_key(k.index()), |k: KeyCode| table[k.index()])
}

proof fn lemma_keyed_insert<V>(table: Map<u64, V>, key: KeyCode, value: V)
    ensures
        keyed(table.insert(key.index(), value)) == keyed(table).insert(key, value),
{
    assert forall|k: KeyCode| k.index() == key.index() implies k == key by {
        lemma_index_injective(k, key);
    }
    assert(keyed(table.insert(key.index(), value)) =~= keyed(table).insert(key, value));
}

/// `toml::map::Map`, the type of a TOML table. Nothing is known of a value of
/// it but what the functions below say.
#[verifier::external_type_specification]
#[verifier::external_body]
#[verifier::reject_recursive_types(K)]
#[verifier::reject_recursive_types(V)]
pub struct ExTomlMap<K, V>(toml::map::Map<K, V>);

/// `toml::Value`, the type of the values of a TOML table.
#[verifier::external_type_specification]
#[verifier::external_body]
pub struct ExTomlValue(toml::Value);

/// The settings that a TOML table holds: for each table-valued entry
/// `section` and each string-valued entry `command` of it, the string.
pub uninterp spec fn table_settings(table: toml::Table) -> Settings;

/// The settings that a TOML document holds, or nothing where the text is
/// no TOML document.
pub uninterp spec fn parsed_settings(text: Seq<char>) -> Option<Settings>;

/// `str::parse` into a `toml::Table`: the table of the document, or nothing
/// where the parser fails.
#[verifier::external_body]
fn parse_table(text: &str) -> (table: Option<toml::Table>)
    ensures
        table.is_some() ==> parsed_settings(text@) == Some(table_settings(table.unwrap())),
        table.is_none() ==> parsed_settings(text@).is_none(),
{
    text.parse::<toml::Table>().ok()
}

/// `toml::Table::get`, on the table and then on the table found under
/// `section`: the string under `command` there. An entry of another type
/// counts as missing.
#[verifier::external_body]
fn table_get(table: &toml::Table, section: &str, command: &str) -> (text: Option<String>)
    ensures
        text.is_some() == table_settings(*table).contains_key((section@, command@)),
        text.is_some() ==> text.unwrap()@ == table_settings(*table)[(section@, command@)],
{
    match table.get(section) {
        Some(toml::Value::Table(inner)) => match inner.get(command) {
            Some(toml::Value::String(s)) => Some(s.clone()),
            _ => None,
        },
        _ => None,
    }
}

/// Leaving out bindings that do not speak of a section and command changes
/// nothing of what the settings say of it.
proof fn lemma_settings_skip(bindings: Seq<Binding>, i: int, at: (Seq<char>, Seq<char>))
    requires
        0 <= i <= bindings.len(),
        forall|j: int|
            i <= j < bindings.len() ==> (#[trigger] bindings[j].section@, bindings[j].command@)
                != at,
    ensures
        settings_of(bindings).contains_key(at) == settings_of(bindings.take(i)).contains_key(at),
        settings_of(bindings).contains_key(at) ==> settings_of(bindings)[at] == settings_of(
            bindings.take(i),
        )[at],
    decreases bindings.len() - i,
{
    if i < bindings.len() {
        let front = bindings.drop_last();
        assert(front.take(i) =~= bindings.take(i));
        assert((bindings[bindings.len() - 1].section@, bindings[bindings.len() - 1].command@)
            != at);
        lemma_settings_skip(front, i, at);
    } else {
        assert(bindings.take(i) =~= bindings);
    }
}

/// What the bindings say of a command in a section.
fn find_binding(bindings: &Vec<Binding>, section: &str, command: &str) -> (text: Option<String>)
    ensures
        text.is_some() == settings_of(bindings@).contains_key((section@, command@)),
        text.is_some() ==> text.unwrap()@ == settings_of(bindings@)[(section@, command@)],
{
    let mut i: usize = bindings.len();
    while i > 0
        invariant
            i <= bindings.len(),
            forall|j: int|
                i <= j < bindings.len() ==> (#[trigger] bindings[j].section@, bindings[j].command@)
                    != (section@, command@),
        decreases i,
    {
        i -= 1;
        if str_eq(bindings[i].section.as_str(), section) && str_eq(
            bindings[i].command.as_str(),
            command,
        ) {
            proof {
                lemma_settings_skip(bindings@, i + 1, (section@, command@));
                assert(bindings@.take(i + 1).drop_last() =~= bindings@.take(i as int));
            }
            return Some(bindings[i].key.clone());
        }
    }
    proof {
        lemma_settings_skip(bindings@, 0, (section@, command@));
        assert(bindings@.take(0) =~= Seq::<Binding>::empty());
    }
    None
}

/// What the bindings say of each of `names` in `section`.
fn binding_choices<const N: usize>(
    bindings: &Vec<Binding>,
    section: &str,
    names: &[&'static str; N],
) -> (choices: Vec<Option<String>>)
    ensures
        choices.len() == N,
        choices_view(choices@) == chosen(settings_of(bindings@), section@, names@),
{
    let ghost all = chosen(settings_of(bindings@), section@, names@);
    let mut choices: Vec<Option<String>> = Vec::new();
    let mut i: usize = 0;
    while i < N
        invariant
            i <= N,
            choices.len() == i,
            all == chosen(settings_of(bindings@), section@, names@),
            choices_view(choices@) =~= all.take(i as int),
        decreases N - i,
    {
        let choice = find_binding(bindings, section, names[i]);
        let ghost before = choices@;
        choices.push(choice);
        proof {
            assert(choices@ =~= before.push(choice));
            assert(choices_view(choices@) =~= choices_view(before).push(all[i as int]));
        }
        i += 1;
    }
    assert(all.take(N as int) =~= all);
    choices
}

/// What a TOML table says of each of `names` in `section`.
fn table_choices<const N: usize>(
    table: &toml::Table,
    section: &str,
    names: &[&'static str; N],
) -> (choices: Vec<Option<String>>)
    ensures
        choices.len() == N,
        choices_view(choices@) == chosen(table_settings(*table), section@, names@),
{
    let ghost all = chosen(table_settings(*table), section@, names@);
    let mut choices: Vec<Option<String>> = Vec::new();
    let mut i: usize = 0;
    while i < N
        invariant
            i <= N,
            choices.len() == i,
            all == chosen(table_settings(*table), section@, names@),
            choices_view(choices@) =~= all.take(i as int),
        decreases N - i,
    {
        let choice = table_get(table, section, names[i]);
        let ghost before = choices@;
        choices.push(choice);
        proof {
            assert(choices@ =~= before.push(choice));
            assert(choices_view(choices@) =~= choices_view(before).push(all[i as int]));
        }
        i += 1;
    }
    assert(all.take(N as int) =~= all);
    choices
}

/// What the outcome of building a configuration stands for.
pub open spec fn outcome_view(outcome: Result<Config, Error>) -> Result<ConfigView, Error> {
    match outcome {
        Ok(config) => Ok(config@),
        Err(e) => Err(e),
    }
}

/// The key bindings of the three modes that read keys through a table.
pub struct Config {
    file_list_bindings: HashMap<u64, FileListCommand>,
    finder_bindings: HashMap<u64, FinderCommand>,
    omnibar_bindings: HashMap<u64, OmnibarCommand>,
}

impl View for Config {
    type V = ConfigView;

    closed spec fn view(&self) -> ConfigView {
        ConfigView {
            file_list: keyed(self.file_list_bindings@),
            finder: keyed(self.finder_bindings@),
            omnibar: keyed(self.omnibar_bindings@),
        }
    }
}

/// The text of a choice, or of the built-in key.
fn choice_or<'a>(choice: &'a Option<String>, default: &'a str) -> (text: &'a str)
    ensures
        text@ == match *choice {
            Some(s) => s@,
            None => default@,
        },
{
    match choice {
        Some(s) => s.as_str(),
        None => default,
    }
}

/// What a list of choices stands for.
pub open spec fn choices_view(choices: Seq<Option<String>>) -> Seq<Option<Seq<char>>> {
    choices.map_values(
        |c: Option<String>|
            match c {
                Some(s) => Some(s@),
                None => None,
            },
    )
}

/// Whether a chosen key text names a character key or is empty.
fn names_char_key(text: &str) -> (is: bool)
    ensures
        is == is_char_key(text@),
{
    let chars = to_chars(text);
    chars.len() == 0 || (chars.len() == 1 && chars[0] <= LAST_ASCII)
}

/// Whether none of the choices names a character key.
fn check_no_char_keys(choices: &Vec<Option<String>>) -> (ok: bool)
    ensures
        ok == no_char_keys(choices_view(choices@), choices.len() as int),
{
    let mut i: usize = 0;
    while i < choices.len()
        invariant
            i <= choices.len(),
            no_char_keys(choices_view(choices@), i as int),
        decreases choices.len() - i,
    {
        match &choices[i] {
            Some(text) => {
                if names_char_key(text.as_str()) {
                    assert(choices_view(choices@)[i as int] == Some(text@));
                    return false;
                }
            },
            None => {},
        }
        i += 1;
    }
    true
}

impl Config {
    /// The file-list table: each command on the key chosen for it, or on its
    /// built-in key.
    fn init_file_list(choices: &Vec<Option<String>>) -> (map: HashMap<u64, FileListCommand>)
        requires
            choices.len() == 14,
        ensures
            keyed(map@) == filelist_bindings(choices_view(choices@), 14),
    {
        broadcast use vstd::std_specs::hash::group_hash_axioms;

        let mut map: HashMap<u64, FileListCommand> = HashMap::new();
        assert(keyed(map@) =~= filelist_bindings(choices_view(choices@), 0));
        let mut i: usize = 0;
        while i < 14
            invariant
                i <= 14,
                choices.len() == 14,
                keyed(map@) == filelist_bindings(choices_view(choices@), i as int),
            decreases 14 - i,
        {
            let k = FILELIST_KEYS[i];
            let text = choice_or(&choices[i], FILELIST_DEFAULTS[i]);
            let code = keycode_from_str(text);
            let command = FileListCommand::from(k);
            proof {
                lemma_keyed_insert(map@, code, command);
            }
            map.insert(code.index(), command);
            i += 1;
        }
        map
    }

    /// The finder table, unless a character key was chosen.
    fn init_finder(choices: &Vec<Option<String>>) -> (map: Result<
        HashMap<u64, FinderCommand>,
        Error,
    >)
        requires
            choices.len() == 5,
        ensures
            match map {
                Ok(m) => no_char_keys(choices_view(choices@), 5) && keyed(m@) == finder_bindings(
                    choices_view(choices@),
                    5,
                ),
                Err(e) => !no_char_keys(choices_view(choices@), 5) && e == Error::ConfigError,
            },
    {
        broadcast use vstd::std_specs::hash::group_hash_axioms;

        if !check_no_char_keys(choices) {
            return Err(Error::ConfigError);
        }
        let mut map: HashMap<u64, FinderCommand> = HashMap::new();
        assert(keyed(map@) =~= finder_bindings(choices_view(choices@), 0));
        let mut i: usize = 0;
        while i < 5
            invariant
                i <= 5,
                choices.len() == 5,
                keyed(map@) == finder_bindings(choices_view(choices@), i as int),
            decreases 5 - i,
        {
            let k = FINDER_KEYS[i];
            let text = choice_or(&choices[i], FINDER_DEFAULTS[i]);
            let code = keycode_from_str(text);
            let command = FinderCommand::from(k);
            proof {
                lemma_keyed_insert(map@, code, command);
            }
            map.insert(code.index(), command);
            i += 1;
        }
        Ok(map)
    }

    /// The omnibar table, unless a character key was chosen.
    fn init_omnibar(choices: &Vec<Option<String>>) -> (map: Result<
        HashMap<u64, OmnibarCommand>,
        Error,
    >)
        requires
            choices.len() == 3,
        ensures
            match map {
                Ok(m) => no_char_keys(choices_view(choices@), 3) && keyed(m@) == omnibar_bindings(
                    choices_view(choices@),
                    3,
                ),
                Err(e) => !no_char_keys(choices_view(choices@), 3) && e == Error::ConfigError,
            },
    {
        broadcast use vstd::std_specs::hash::group_hash_axioms;

        if !check_no_char_keys(choices) {
            return Err(Error::ConfigError);
        }
        let mut map: HashMap<u64, OmnibarCommand> = HashMap::new();
        assert(keyed(map@) =~= omnibar_bindings(choices_view(choices@), 0));
        let mut i: usize = 0;
        while i < 3
            invariant
                i <= 3,
                choices.len() == 3,
                keyed(map@) == omnibar_bindings(choices_view(choices@), i as int),
            decreases 3 - i,
        {
            let k = OMNIBAR_KEYS[i];
            let text = choice_or(&choices[i], OMNIBAR_DEFAULTS[i]);
            let code = keycode_from_str(text);
            let command = OmnibarCommand::from(k);
            proof {
                lemma_keyed_insert(map@, code, command);
            }
            map.insert(code.index(), command);
            i += 1;
        }
        Ok(map)
    }

    /// The configuration made of what was chosen for the commands of each
    /// mode.
    fn from_choices(
        file_list: &Vec<Option<String>>,
        finder: &Vec<Option<String>>,
        omnibar: &Vec<Option<String>>,
    ) -> (config: Result<Config, Error>)
        requires
            file_list.len() == 14,
            finder.len() == 5,
            omnibar.len() == 3,
        ensures
            outcome_view(config) == if no_char_keys(choices_view(finder@), 5) && no_char_keys(
                choices_view(omnibar@),
                3,
            ) {
                Ok::<ConfigView, Error>(
                    ConfigView {
                        file_list: filelist_bindings(choices_view(file_list@), 14),
                        finder: finder_bindings(choices_view(finder@), 5),
                        omnibar: omnibar_bindings(choices_view(omnibar@), 3),
                    },
                )
            } else {
                Err::<ConfigView, Error>(Error::ConfigError)
            },
    {
        let file_list_bindings = Self::init_file_list(file_list);
        let finder_bindings = match Self::init_finder(finder) {
            Ok(m) => m,
            Err(e) => {
                return Err(e);
            },
        };
        let omnibar_bindings = match Self::init_omnibar(omnibar) {
            Ok(m) => m,
            Err(e) => {
                return Err(e);
            },
        };
        Ok(Self { file_list_bindings, finder_bindings, omnibar_bindings })
    }

    /// The configuration that a list of bindings makes on top of the built-in
    /// keys.
    pub fn from_bindings(bindings: &Vec<Binding>) -> (config: Result<Config, Error>)
        ensures
            outcome_view(config) == config_of(settings_of(bindings@)),
    {
        let file_list = binding_choices(bindings, "filelist", &FILELIST_KEYS);
        let finder = binding_choices(bindings, "finder", &FINDER_KEYS);
        let omnibar = binding_choices(bindings, "omnibar", &OMNIBAR_KEYS);
        Self::from_choices(&file_list, &finder, &omnibar)
    }

    /// The configuration that the user's configuration file makes on top of
    /// the built-in keys. `None` stands for a file that is not there, and
    /// gives the built-in keys; a text that is no TOML document is refused.
    pub fn init(user_text: Option<&str>) -> (config: Result<Config, Error>)
        ensures
            outcome_view(config) == match user_text {
                None => config_of(no_settings()),
                Some(text) => match parsed_settings(text@) {
                    Some(user) => config_of(user),
                    None => Err::<ConfigView, Error>(Error::ConfigError),
                },
            },
    {
        match user_text {
            None => Self::from_bindings(&Vec::new()),
            Some(text) => match parse_table(text) {
                Some(table) => {
                    let file_list = table_choices(&table, "filelist", &FILELIST_KEYS);
                    let finder = table_choices(&table, "finder", &FINDER_KEYS);
                    let omnibar = table_choices(&table, "omnibar", &OMNIBAR_KEYS);
                    Self::from_choices(&file_list, &finder, &omnibar)
                },
                None => Err(Error::ConfigError),
            },
        }
    }

    /// What the file list does on a key.
    pub fn get_filelist_command(&self, code: KeyCode) -> (command: Option<FileListCommand>)
        ensures
            command == self@.filelist_command(code),
    {
        broadcast use vstd::std_specs::hash::group_hash_axioms;

        match self.file_list_bindings.get(&code.index()) {
            Some(c) => Some(*c),
            None => None,
        }
    }

    /// What the finder does on a key.
    pub fn get_finder_command(&self, code: KeyCode) -> (command: Option<FinderCommand>)
        ensures
            command == self@.finder_command(code),
    {
        broadcast use vstd::std_specs::hash::group_hash_axioms;

        match self.finder_bindings.get(&code.index()) {
            Some(c) => Some(*c),
            None => match code {
                KeyCode::Char(c) => Some(FinderCommand::Write(c)),
                _ => None,
            },
        }
    }

    /// What the omnibar does on a key.
    pub fn get_omnibar_command(&self, code: KeyCode) -> (command: Option<OmnibarCommand>)
        ensures
            command == self@.omnibar_command(code),
    {
        broadcast use vstd::std_specs::hash::group_hash_axioms;

        match self.omnibar_bindings.get(&code.index()) {
            Some(c) => Some(*c),
            None => match code {
                KeyCode::Char(c) => Some(OmnibarCommand::Write(c)),
                _ => None,
            },
        }
    }
}

/// The keys of the built-in bindings, by their names.
proof fn lemma_built_in_keys()
    ensures
        key_of("n"@) == KeyCode::Char('n'),
        key_of("e"@) == KeyCode::Char('e'),
        key_of("f"@) == KeyCode::Char('f'),
        key_of("/"@) == KeyCode::Char('/'),
        key_of("z"@) == KeyCode::Char('z'),
        key_of("r"@) == KeyCode::Char('r'),
        key_of("t"@) == KeyCode::Char('t'),
        key_of("m"@) == KeyCode::Char('m'),
        key_of("y"@) == KeyCode::Char('y'),
        key_of("x"@) == KeyCode::Char('x'),
        key_of("p"@) == KeyCode::Char('p'),
        key_of("q"@) == KeyCode::Char('q'),
        key_of("enter"@) == KeyCode::Enter,
        key_of("backspace"@) == KeyCode::Backspace,
        key_of("up"@) == KeyCode::Up,
        key_of("down"@) == KeyCode::Down,
        key_of("esc"@) == KeyCode::Esc,
{
    reveal_strlit("n");
    reveal_strlit("e");
    reveal_strlit("f");
    reveal_strlit("/");
    reveal_strlit("z");
    reveal_strlit("r");
    reveal_strlit("t");
    reveal_strlit("m");
    reveal_strlit("y");
    reveal_strlit("x");
    reveal_strlit("p");
    reveal_strlit("q");
    reveal_strlit("enter");
    reveal_strlit("backspace");
    reveal_strlit("left");
    reveal_strlit("right");
    reveal_strlit("up");
    reveal_strlit("down");
    reveal_strlit("home");
    reveal_strlit("end");
    reveal_strlit("pageup");
    reveal_strlit("pagedown");
    reveal_strlit("delete");
    reveal_strlit("insert");
    reveal_strlit("tab");
    reveal_strlit("backtab");
    reveal_strlit("esc");
    assert("esc"@[1] != "end"@[1]);
}

/// Without settings of the user the configuration is accepted, and every
/// command of every mode is on its built-in key.
pub proof fn lemma_defaults_bind_every_command()
    ensures
        config_of(no_settings()) matches Ok(config) && (forall|i: int|
            0 <= i < 14 ==> lookup(config.file_list, #[trigger] key_of(FILELIST_DEFAULTS@[i]@))
                == Some(FileListCommand::of_name(FILELIST_KEYS@[i]@))) && (forall|i: int|
            0 <= i < 5 ==> lookup(config.finder, #[trigger] key_of(FINDER_DEFAULTS@[i]@)) == Some(
                FinderCommand::of_name(FINDER_KEYS@[i]@),
            )) && (forall|i: int|
            0 <= i < 3 ==> lookup(config.omnibar, #[trigger] key_of(OMNIBAR_DEFAULTS@[i]@))
                == Some(OmnibarCommand::of_name(OMNIBAR_KEYS@[i]@))),
{
    lemma_built_in_keys();
    let file_list = chosen(no_settings(), "filelist"@, FILELIST_KEYS@);
    let finder = chosen(no_settings(), "finder"@, FINDER_KEYS@);
    let omnibar = chosen(no_settings(), "omnibar"@, OMNIBAR_KEYS@);
    assert(no_char_keys(finder, 5));
    assert(no_char_keys(omnibar, 3));
    reveal_with_fuel(filelist_bindings, 15);
    reveal_with_fuel(finder_bindings, 6);
    reveal_with_fuel(omnibar_bindings, 4);
}

/// A key text that is not refused in an overlay names no character key.
proof fn lemma_not_a_character(choice: Option<Seq<char>>, default: Seq<char>)
    requires
        !(choice matches Some(text) && is_char_key(text)),
        !(key_of(default) is Char),
    ensures
        !(bound_key(choice, default) is Char),
{
}

/// Whatever the user's settings, a configuration that is accepted leaves
/// every character to the text of the finder and of the omnibar.
pub proof fn lemma_overlays_write_every_character(user: Settings, c: char)
    ensures
        config_of(user) matches Ok(config) ==> config.finder_command(KeyCode::Char(c)) == Some(
            FinderCommand::Write(c),
        ) && config.omnibar_command(KeyCode::Char(c)) == Some(OmnibarCommand::Write(c)),
{
    if config_of(user) is Ok {
        lemma_built_in_keys();
        let finder = chosen(user, "finder"@, FINDER_KEYS@);
        let omnibar = chosen(user, "omnibar"@, OMNIBAR_KEYS@);
        assert forall|i: int| 0 <= i < 5 implies !(bound_key(finder[i], FINDER_DEFAULTS@[i]@)
            is Char) by {
            lemma_not_a_character(finder[i], FINDER_DEFAULTS@[i]@);
        }
        assert forall|i: int| 0 <= i < 3 implies !(bound_key(omnibar[i], OMNIBAR_DEFAULTS@[i]@)
            is Char) by {
            lemma_not_a_character(omnibar[i], OMNIBAR_DEFAULTS@[i]@);
        }
        reveal_with_fuel(finder_bindings, 6);
        reveal_with_fuel(omnibar_bindings, 4);
    }
}

} // verus!
