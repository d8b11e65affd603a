//! The commands that the browser carries out in its normal mode, each with
//! what it acts on.

use vstd::prelude::*;
use crate::config::OmnibarType;

verus! {

/// What the omnibar is opened for.
#[derive(Clone, Copy, Debug, PartialEq, Eq, Structural)]
pub enum OmnibarMode {
    Rename,
    Touch,
    Mkdir,
}

impl OmnibarMode {
    /// The mode that carries out an action of the omnibar.
    pub open spec fn spec_of(kind: OmnibarType) -> OmnibarMode {
        match kind {
            OmnibarType::Rename => OmnibarMode::Rename,
            OmnibarType::Touch => OmnibarMode::Touch,
            OmnibarType::Mkdir => OmnibarMode::Mkdir,
        }
    }

    /// The action of the omnibar that the mode carries out.
    pub open spec fn spec_kind(self) -> OmnibarType {
        match self {
            OmnibarMode::Rename => OmnibarType::Rename,
            OmnibarMode::Touch => OmnibarType::Touch,
            OmnibarMode::Mkdir => OmnibarType::Mkdir,
        }
    }

    #[verifier::when_used_as_spec(spec_of)]
    pub fn of(kind: OmnibarType) -> (mode: OmnibarMode)
        ensures
            mode == OmnibarMode::spec_of(kind),
    {
        match kind {
            OmnibarType::Rename => OmnibarMode::Rename,
            OmnibarType::Touch => OmnibarMode::Touch,
            OmnibarType::Mkdir => OmnibarMode::Mkdir,
        }
    }

    #[verifier::when_used_as_spec(spec_kind)]
    pub fn kind(self) -> (kind: OmnibarType)
        ensures
            kind == self.spec_kind(),
    {
        match self {
            OmnibarMode::Rename => OmnibarType::Rename,
            OmnibarMode::Touch => OmnibarType::Touch,
            OmnibarMode::Mkdir => OmnibarType::Mkdir,
        }
    }
}

/// A command of the normal mode.
#[derive(Clone, Debug, PartialEq, Eq)]
pub enum FileListCommand {
    /// Move the selection by one entry; `true` is down.
    EntryScroll(bool),
    /// Move the window by one row; `true` is down.
    WindowScroll(bool),
    /// Open the entry of that name, directory or file.
    SelectEntry(String),
    HintMode,
    /// Open the finder; `true` searches the directory history.
    FinderMode(bool),
    OmnibarMode(OmnibarMode),
    /// Put the selected file on the clipboard; `true` marks it for moving.
    Yank(bool),
    Paste,
    Exit,
    /// Do nothing.
    Nothing,
}

/// What a `FileListCommand` stands for.
pub enum CommandView {
    EntryScroll(bool),
    WindowScroll(bool),
    SelectEntry(Seq<char>),
    HintMode,
    FinderMode(bool),
    OmnibarMode(OmnibarMode),
    Yank(bool),
    Paste,
    Exit,
    Nothing,
}

impl View for FileListCommand {
    type V = CommandView;

    open spec fn view(&self) -> CommandView {
        match *self {
            FileListCommand::EntryScroll(down) => CommandView::EntryScroll(down),
            FileListCommand::WindowScroll(down) => CommandView::WindowScroll(down),
            FileListCommand::SelectEntry(name) => CommandView::SelectEntry(name@),
            FileListCommand::HintMode => CommandView::HintMode,
            FileListCommand::FinderMode(zoxide) => CommandView::FinderMode(zoxide),
            FileListCommand::OmnibarMode(mode) => CommandView::OmnibarMode(mode),
            FileListCommand::Yank(cut) => CommandView::Yank(cut),
            FileListCommand::Paste => CommandView::Paste,
            FileListCommand::Exit => CommandView::Exit,
            FileListCommand::Nothing => CommandView::Nothing,
        }
    }
}

impl CommandView {
    /// Whether the preview is refreshed after the command: after every one
    /// but `Exit` and `Nothing`.
    pub open spec fn refresh_preview(self) -> bool {
        !(self is Exit || self is Nothing)
    }
}

impl FileListCommand {
    /// Whether the preview is refreshed after the command.
    pub fn refresh_preview(&self) -> (refresh: bool)
        ensures
            refresh == self@.refresh_preview(),
    {
        match self {
            FileListCommand::Exit | FileListCommand::Nothing => false,
            _ => true,
        }
    }
}

} // verus!
