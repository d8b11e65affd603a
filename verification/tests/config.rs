use thunars::config::{
    keycode_from_str, Binding, Config, FileListCommand, FinderCommand, KeyCode, OmnibarCommand,
    OmnibarType, FILELIST_DEFAULTS, FILELIST_KEYS, FINDER_DEFAULTS, FINDER_KEYS, OMNIBAR_DEFAULTS,
    OMNIBAR_KEYS,
};
use thunars::Error;

fn binding(section: &str, command: &str, key: &str) -> Binding {
    Binding { section: section.to_string(), command: command.to_string(), key: key.to_string() }
}

#[test]
fn a_single_ascii_character_names_itself() {
    assert_eq!(keycode_from_str("q"), KeyCode::Char('q'));
    assert_eq!(keycode_from_str("/"), KeyCode::Char('/'));
    assert_eq!(keycode_from_str(" "), KeyCode::Char(' '));
    assert_eq!(keycode_from_str("\u{7f}"), KeyCode::Char('\u{7f}'));
}

#[test]
fn named_keys() {
    assert_eq!(keycode_from_str("enter"), KeyCode::Enter);
    assert_eq!(keycode_from_str("backspace"), KeyCode::Backspace);
    assert_eq!(keycode_from_str("left"), KeyCode::Left);
    assert_eq!(keycode_from_str("right"), KeyCode::Right);
    assert_eq!(keycode_from_str("up"), KeyCode::Up);
    assert_eq!(keycode_from_str("down"), KeyCode::Down);
    assert_eq!(keycode_from_str("home"), KeyCode::Home);
    assert_eq!(keycode_from_str("end"), KeyCode::End);
    assert_eq!(keycode_from_str("pageup"), KeyCode::PageUp);
    assert_eq!(keycode_from_str("pagedown"), KeyCode::PageDown);
    assert_eq!(keycode_from_str("delete"), KeyCode::Delete);
    assert_eq!(keycode_from_str("insert"), KeyCode::Insert);
    assert_eq!(keycode_from_str("tab"), KeyCode::Tab);
    assert_eq!(keycode_from_str("backtab"), KeyCode::BackTab);
    assert_eq!(keycode_from_str("esc"), KeyCode::Esc);
}

#[test]
fn other_texts_name_no_key() {
    assert_eq!(keycode_from_str(""), KeyCode::Null);
    assert_eq!(keycode_from_str("Enter"), KeyCode::Null);
    assert_eq!(keycode_from_str("escape"), KeyCode::Null);
    assert_eq!(keycode_from_str("qq"), KeyCode::Null);
    assert_eq!(keycode_from_str("é"), KeyCode::Null);
    assert_eq!(keycode_from_str("\u{80}"), KeyCode::Null);
}

#[test]
fn keys_have_different_numbers() {
    let keys = [
        KeyCode::Char('a'),
        KeyCode::Char('\u{10ffff}'),
        KeyCode::Enter,
        KeyCode::Backspace,
        KeyCode::Left,
        KeyCode::Right,
        KeyCode::Up,
        KeyCode::Down,
        KeyCode::Home,
        KeyCode::End,
        KeyCode::PageUp,
        KeyCode::PageDown,
        KeyCode::Delete,
        KeyCode::Insert,
        KeyCode::Tab,
        KeyCode::BackTab,
        KeyCode::Esc,
        KeyCode::Null,
    ];
    for i in 0..keys.len() {
        for j in 0..keys.len() {
            assert_eq!(keys[i].index() == keys[j].index(), i == j);
        }
    }
    assert_eq!(KeyCode::Char('a').index(), 97);
    assert_eq!(KeyCode::Enter.index(), 0x110000);
}

#[test]
fn command_names() {
    assert_eq!(FileListCommand::from("scroll_down"), FileListCommand::EntryScroll(true));
    assert_eq!(FileListCommand::from("scroll_up"), FileListCommand::EntryScroll(false));
    assert_eq!(FileListCommand::from("select_entry"), FileListCommand::SelectEntry);
    assert_eq!(FileListCommand::from("hint_mode"), FileListCommand::HintMode);
    assert_eq!(FileListCommand::from("finder_fzf"), FileListCommand::FinderMode(false));
    assert_eq!(FileListCommand::from("finder_zoxide"), FileListCommand::FinderMode(true));
    assert_eq!(FileListCommand::from("rename"), FileListCommand::OmnibarMode(OmnibarType::Rename));
    assert_eq!(FileListCommand::from("touch"), FileListCommand::OmnibarMode(OmnibarType::Touch));
    assert_eq!(FileListCommand::from("mkdir"), FileListCommand::OmnibarMode(OmnibarType::Mkdir));
    assert_eq!(FileListCommand::from("yank"), FileListCommand::Yank(false));
    assert_eq!(FileListCommand::from("cut"), FileListCommand::Yank(true));
    assert_eq!(FileListCommand::from("paste"), FileListCommand::Paste);
    assert_eq!(FileListCommand::from("exit"), FileListCommand::Exit);
    assert_eq!(FileListCommand::from("exit_hint"), FileListCommand::ExitHint);
    assert_eq!(FileListCommand::from("delete"), FileListCommand::Nothing);
    assert_eq!(FileListCommand::from(""), FileListCommand::Nothing);

    assert_eq!(FinderCommand::from("backspace"), FinderCommand::Backspace);
    assert_eq!(FinderCommand::from("select_entry"), FinderCommand::SelectEntry);
    assert_eq!(FinderCommand::from("scroll_down"), FinderCommand::EntryScroll(true));
    assert_eq!(FinderCommand::from("scroll_up"), FinderCommand::EntryScroll(false));
    assert_eq!(FinderCommand::from("exit"), FinderCommand::Exit);
    assert_eq!(FinderCommand::from("submit"), FinderCommand::Nothing);

    assert_eq!(OmnibarCommand::from("backspace"), OmnibarCommand::Backspace);
    assert_eq!(OmnibarCommand::from("submit"), OmnibarCommand::Submit);
    assert_eq!(OmnibarCommand::from("exit"), OmnibarCommand::Exit);
    assert_eq!(OmnibarCommand::from("select_entry"), OmnibarCommand::Nothing);
}

#[test]
fn the_preview_is_refreshed_after_all_but_exit_and_nothing() {
    assert!(!FileListCommand::Exit.should_refresh_preview());
    assert!(!FileListCommand::Nothing.should_refresh_preview());
    assert!(FileListCommand::EntryScroll(true).should_refresh_preview());
    assert!(FileListCommand::SelectEntry.should_refresh_preview());
    assert!(FileListCommand::HintMode.should_refresh_preview());
    assert!(FileListCommand::FinderMode(false).should_refresh_preview());
    assert!(FileListCommand::OmnibarMode(OmnibarType::Touch).should_refresh_preview());
    assert!(FileListCommand::Yank(true).should_refresh_preview());
    assert!(FileListCommand::Paste.should_refresh_preview());
    assert!(FileListCommand::Delete(false).should_refresh_preview());
    assert!(FileListCommand::ExitHint.should_refresh_preview());
}

#[test]
fn built_in_keys_bind_every_command() {
    let config = Config::init(None).ok().unwrap();
    for (name, key) in FILELIST_KEYS.iter().zip(FILELIST_DEFAULTS.iter()) {
        assert_eq!(
            config.get_filelist_command(keycode_from_str(key)),
            Some(FileListCommand::from(*name))
        );
    }
    for (name, key) in FINDER_KEYS.iter().zip(FINDER_DEFAULTS.iter()) {
        assert_eq!(
            config.get_finder_command(keycode_from_str(key)),
            Some(FinderCommand::from(*name))
        );
    }
    for (name, key) in OMNIBAR_KEYS.iter().zip(OMNIBAR_DEFAULTS.iter()) {
        assert_eq!(
            config.get_omnibar_command(keycode_from_str(key)),
            Some(OmnibarCommand::from(*name))
        );
    }
}

#[test]
fn built_in_keys_of_the_file_list() {
    let config = Config::from_bindings(&Vec::new()).ok().unwrap();
    assert_eq!(config.get_filelist_command(KeyCode::Char('n')), Some(FileListCommand::EntryScroll(true)));
    assert_eq!(config.get_filelist_command(KeyCode::Char('e')), Some(FileListCommand::EntryScroll(false)));
    assert_eq!(config.get_filelist_command(KeyCode::Enter), Some(FileListCommand::SelectEntry));
    assert_eq!(config.get_filelist_command(KeyCode::Char('f')), Some(FileListCommand::HintMode));
    assert_eq!(config.get_filelist_command(KeyCode::Char('/')), Some(FileListCommand::FinderMode(false)));
    assert_eq!(config.get_filelist_command(KeyCode::Char('z')), Some(FileListCommand::FinderMode(true)));
    assert_eq!(config.get_filelist_command(KeyCode::Char('q')), Some(FileListCommand::Exit));
    assert_eq!(config.get_filelist_command(KeyCode::Esc), Some(FileListCommand::ExitHint));
    assert_eq!(config.get_filelist_command(KeyCode::Char('k')), None);
    assert_eq!(config.get_filelist_command(KeyCode::Tab), None);
    assert_eq!(config.get_filelist_command(KeyCode::Null), None);
}

#[test]
fn unbound_characters_are_written_in_the_overlays() {
    let config = Config::init(None).ok().unwrap();
    assert_eq!(config.get_finder_command(KeyCode::Char('q')), Some(FinderCommand::Write('q')));
    assert_eq!(config.get_finder_command(KeyCode::Char('é')), Some(FinderCommand::Write('é')));
    assert_eq!(config.get_finder_command(KeyCode::Tab), None);
    assert_eq!(config.get_finder_command(KeyCode::Up), Some(FinderCommand::EntryScroll(false)));
    assert_eq!(config.get_omnibar_command(KeyCode::Char('n')), Some(OmnibarCommand::Write('n')));
    assert_eq!(config.get_omnibar_command(KeyCode::Enter), Some(OmnibarCommand::Submit));
    assert_eq!(config.get_omnibar_command(KeyCode::Down), None);
}

#[test]
fn a_binding_moves_a_command_to_another_key() {
    let config = Config::from_bindings(&vec![
        binding("filelist", "scroll_down", "j"),
        binding("filelist", "scroll_up", "k"),
        binding("finder", "exit", "tab"),
    ])
    .ok()
    .unwrap();
    assert_eq!(config.get_filelist_command(KeyCode::Char('j')), Some(FileListCommand::EntryScroll(true)));
    assert_eq!(config.get_filelist_command(KeyCode::Char('k')), Some(FileListCommand::EntryScroll(false)));
    assert_eq!(config.get_filelist_command(KeyCode::Char('n')), None);
    assert_eq!(config.get_filelist_command(KeyCode::Char('e')), None);
    assert_eq!(config.get_filelist_command(KeyCode::Char('q')), Some(FileListCommand::Exit));
    assert_eq!(config.get_finder_command(KeyCode::Tab), Some(FinderCommand::Exit));
    assert_eq!(config.get_finder_command(KeyCode::Esc), None);
}

#[test]
fn a_later_binding_replaces_an_earlier_one() {
    let config = Config::from_bindings(&vec![
        binding("filelist", "exit", "x"),
        binding("filelist", "exit", "w"),
    ])
    .ok()
    .unwrap();
    assert_eq!(config.get_filelist_command(KeyCode::Char('w')), Some(FileListCommand::Exit));
    assert_eq!(config.get_filelist_command(KeyCode::Char('x')), Some(FileListCommand::Yank(true)));
    assert_eq!(config.get_filelist_command(KeyCode::Char('q')), None);
}

#[test]
fn of_two_commands_on_one_key_the_later_in_the_list_wins() {
    let config = Config::from_bindings(&vec![binding("filelist", "scroll_down", "q")]).ok().unwrap();
    assert_eq!(config.get_filelist_command(KeyCode::Char('q')), Some(FileListCommand::Exit));
    assert_eq!(config.get_filelist_command(KeyCode::Char('n')), None);
    let config = Config::from_bindings(&vec![binding("filelist", "exit", "n")]).ok().unwrap();
    assert_eq!(config.get_filelist_command(KeyCode::Char('n')), Some(FileListCommand::Exit));
}

#[test]
fn bindings_of_other_sections_and_commands_are_ignored() {
    let config = Config::from_bindings(&vec![
        binding("omnibar", "scroll_down", "tab"),
        binding("other", "exit", "tab"),
        binding("filelist", "delete", "d"),
    ])
    .ok()
    .unwrap();
    assert_eq!(config.get_omnibar_command(KeyCode::Tab), None);
    assert_eq!(config.get_filelist_command(KeyCode::Tab), None);
    assert_eq!(config.get_filelist_command(KeyCode::Char('d')), None);
}

#[test]
fn an_unknown_key_name_binds_the_command_to_no_key() {
    let config = Config::from_bindings(&vec![binding("filelist", "exit", "escape")]).ok().unwrap();
    assert_eq!(config.get_filelist_command(KeyCode::Char('q')), None);
    assert_eq!(config.get_filelist_command(KeyCode::Null), Some(FileListCommand::Exit));
}

#[test]
fn a_character_key_in_an_overlay_is_refused() {
    assert_eq!(
        Config::from_bindings(&vec![binding("finder", "exit", "q")]).err(),
        Some(Error::ConfigError)
    );
    assert_eq!(
        Config::from_bindings(&vec![binding("omnibar", "submit", "s")]).err(),
        Some(Error::ConfigError)
    );
    assert_eq!(
        Config::from_bindings(&vec![binding("omnibar", "submit", "")]).err(),
        Some(Error::ConfigError)
    );
    assert!(Config::from_bindings(&vec![binding("filelist", "exit", "s")]).is_ok());
    assert!(Config::from_bindings(&vec![binding("finder", "other", "s")]).is_ok());
    assert!(Config::from_bindings(&vec![binding("finder", "exit", "é")]).is_ok());
}

#[test]
fn a_configuration_file_is_read() {
    let text = "[filelist]\nscroll_down = \"j\"\nexit = \"esc\"\n\n[finder]\nscroll_down = \"tab\"\n\n[omnibar]\nexit = \"tab\"\n";
    let config = Config::init(Some(text)).ok().unwrap();
    assert_eq!(config.get_filelist_command(KeyCode::Char('j')), Some(FileListCommand::EntryScroll(true)));
    assert_eq!(config.get_filelist_command(KeyCode::Char('n')), None);
    assert_eq!(config.get_filelist_command(KeyCode::Esc), Some(FileListCommand::ExitHint));
    assert_eq!(config.get_filelist_command(KeyCode::Char('q')), None);
    assert_eq!(config.get_filelist_command(KeyCode::Char('e')), Some(FileListCommand::EntryScroll(false)));
    assert_eq!(config.get_finder_command(KeyCode::Tab), Some(FinderCommand::EntryScroll(true)));
    assert_eq!(config.get_finder_command(KeyCode::Down), None);
    assert_eq!(config.get_omnibar_command(KeyCode::Tab), Some(OmnibarCommand::Exit));
    assert_eq!(config.get_omnibar_command(KeyCode::Esc), None);
}

#[test]
fn an_empty_configuration_file_gives_the_built_in_keys() {
    let config = Config::init(Some("")).ok().unwrap();
    assert_eq!(config.get_filelist_command(KeyCode::Char('q')), Some(FileListCommand::Exit));
    assert_eq!(config.get_finder_command(KeyCode::Esc), Some(FinderCommand::Exit));
    assert_eq!(config.get_omnibar_command(KeyCode::Enter), Some(OmnibarCommand::Submit));
}

#[test]
fn entries_of_other_types_count_as_missing() {
    let text = "filelist = 3\n[finder]\nexit = 7\nscroll_up = [\"a\"]\n";
    let config = Config::init(Some(text)).ok().unwrap();
    assert_eq!(config.get_filelist_command(KeyCode::Char('q')), Some(FileListCommand::Exit));
    assert_eq!(config.get_finder_command(KeyCode::Esc), Some(FinderCommand::Exit));
    assert_eq!(config.get_finder_command(KeyCode::Up), Some(FinderCommand::EntryScroll(false)));
}

#[test]
fn a_malformed_configuration_file_is_refused() {
    assert_eq!(Config::init(Some("[filelist")).err(), Some(Error::ConfigError));
    assert_eq!(Config::init(Some("exit = ")).err(), Some(Error::ConfigError));
    assert_eq!(Config::init(Some("[a]\nb = 1\nb = 2\n")).err(), Some(Error::ConfigError));
}

#[test]
fn a_character_key_in_an_overlay_section_of_a_file_is_refused() {
    assert_eq!(Config::init(Some("[finder]\nexit = \"q\"\n")).err(), Some(Error::ConfigError));
    assert_eq!(Config::init(Some("[omnibar]\nbackspace = \"\"\n")).err(), Some(Error::ConfigError));
}
