use thunars::commands::{FileListCommand, OmnibarMode};
use thunars::config::OmnibarType;

#[test]
fn the_preview_is_refreshed_after_every_command_but_exit_and_nothing() {
    assert!(!FileListCommand::Exit.refresh_preview());
    assert!(!FileListCommand::Nothing.refresh_preview());
    assert!(FileListCommand::EntryScroll(true).refresh_preview());
    assert!(FileListCommand::WindowScroll(false).refresh_preview());
    assert!(FileListCommand::SelectEntry("a".to_string()).refresh_preview());
    assert!(FileListCommand::HintMode.refresh_preview());
    assert!(FileListCommand::FinderMode(true).refresh_preview());
    assert!(FileListCommand::OmnibarMode(OmnibarMode::Mkdir).refresh_preview());
    assert!(FileListCommand::Yank(false).refresh_preview());
    assert!(FileListCommand::Paste.refresh_preview());
}

#[test]
fn omnibar_modes_and_kinds_correspond() {
    assert_eq!(OmnibarMode::of(OmnibarType::Rename), OmnibarMode::Rename);
    assert_eq!(OmnibarMode::of(OmnibarType::Touch), OmnibarMode::Touch);
    assert_eq!(OmnibarMode::of(OmnibarType::Mkdir), OmnibarMode::Mkdir);
    assert_eq!(OmnibarMode::Rename.kind(), OmnibarType::Rename);
    assert_eq!(OmnibarMode::Touch.kind(), OmnibarType::Touch);
    assert_eq!(OmnibarMode::Mkdir.kind(), OmnibarType::Mkdir);
}
