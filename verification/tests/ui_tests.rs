use oxidisk::burn_logic::BurnEvent;
use oxidisk::hw_enum::{DriveInfo, MEDIA_TYPE_CDR};
use oxidisk::ui::{Action, App, Color, CurrentMenu, CurrentOption, CurrentScreen, HighlightStyle, Key};

fn dashboard(drives: usize, files: &[&str]) -> App {
    let mut app = App::new();
    let mut found = Vec::new();
    for k in 0..drives {
        found.push(DriveInfo::with_media(&format!("drive-{}", k), &format!("Writer {}", k), MEDIA_TYPE_CDR, 100));
    }
    app.finish_enumeration(found);
    app.add_files(files.iter().map(|s| s.to_string()).collect());
    app
}

fn type_command(app: &mut App, text: &str) -> Action {
    for c in text.chars() {
        assert!(matches!(app.handle_key(Key::Char(c)), Action::Nothing));
    }
    app.handle_key(Key::Enter)
}

#[test]
fn menus_cycle() {
    assert!(CurrentMenu::Files.next() == CurrentMenu::Status);
    assert!(CurrentMenu::Status.next() == CurrentMenu::Media);
    assert!(CurrentMenu::Media.next() == CurrentMenu::Files);
    assert!(CurrentMenu::Files.prev() == CurrentMenu::Media);
    assert!(CurrentMenu::Media.prev() == CurrentMenu::Status);
    assert!(CurrentMenu::Status.prev() == CurrentMenu::Files);
    for m in [CurrentMenu::Media, CurrentMenu::Files, CurrentMenu::Status] {
        assert!(m.next().prev() == m);
        assert!(m.next().next().next() == m);
    }
}

#[test]
fn options_cycle() {
    assert!(CurrentOption::VolumeLabel.next() == CurrentOption::Speed);
    assert!(CurrentOption::Speed.next() == CurrentOption::Finalize);
    assert!(CurrentOption::Finalize.next() == CurrentOption::Burn);
    assert!(CurrentOption::Burn.next() == CurrentOption::VolumeLabel);
    assert!(CurrentOption::VolumeLabel.prev() == CurrentOption::Burn);
    for o in [CurrentOption::VolumeLabel, CurrentOption::Speed, CurrentOption::Finalize, CurrentOption::Burn] {
        assert!(o.prev().next() == o);
        assert!(o.next().next().next().next() == o);
    }
}

#[test]
fn new_app_defaults() {
    let app = App::new();
    assert!(app.current_screen == CurrentScreen::Splash);
    assert!(app.current_menu == CurrentMenu::Files);
    assert!(app.current_option == CurrentOption::VolumeLabel);
    assert_eq!(app.volume_label, "NEW DISK");
    assert_eq!(app.burn_speed, "8x");
    assert!(app.finalize);
    assert!(app.input_mode);
    assert!(app.files.is_empty() && app.drives.is_empty() && app.logs.is_empty());
    assert_eq!(app.drive_selected, None);
    assert_eq!(app.file_selected, None);
    assert_eq!(app.throbber_index, 0);
}

#[test]
fn spinner_advances_and_wraps() {
    let mut app = App::new();
    app.tick();
    assert_eq!(app.throbber_index, 1);
    app.throbber_index = 127;
    app.tick();
    assert_eq!(app.throbber_index, 0);
    app.throbber_index = -3;
    app.tick();
    assert_eq!(app.throbber_index, -2);
}

#[test]
fn enumeration_shows_dashboard() {
    let app = dashboard(2, &[]);
    assert!(app.current_screen == CurrentScreen::Dashboard);
    assert_eq!(app.drive_selected, Some(0));
    let none = dashboard(0, &[]);
    assert_eq!(none.drive_selected, None);
    assert!(none.current_screen == CurrentScreen::Dashboard);
}

#[test]
fn colours() {
    let mut app = App::new();
    assert!(app.set_color(CurrentMenu::Files, CurrentMenu::Files) == Color::White);
    assert!(app.input_color() == Color::Green);
    app.input_mode = false;
    assert!(app.set_color(CurrentMenu::Files, CurrentMenu::Files) == Color::Blue);
    assert!(app.set_color(CurrentMenu::Files, CurrentMenu::Media) == Color::White);
    assert!(app.input_color() == Color::White);
    assert!(app.set_bg(CurrentOption::Speed, CurrentOption::Speed) == Color::Reset);
    app.current_menu = CurrentMenu::Status;
    assert!(app.set_bg(CurrentOption::Speed, CurrentOption::Speed) == Color::Blue);
    assert!(app.set_bg(CurrentOption::Speed, CurrentOption::Burn) == Color::Reset);
    assert!(
        app.get_highlight_style(CurrentMenu::Status)
            == HighlightStyle { fg: Color::White, bg: Color::Blue, bold: true }
    );
    assert!(
        app.get_highlight_style(CurrentMenu::Files)
            == HighlightStyle { fg: Color::Blue, bg: Color::Reset, bold: false }
    );
}

#[test]
fn arrows_wrap_in_lists() {
    let mut app = dashboard(2, &["a", "b", "c"]);
    app.input_mode = false;
    assert_eq!(app.file_selected, Some(0));
    app.upkey();
    assert_eq!(app.file_selected, Some(2));
    app.donkey();
    assert_eq!(app.file_selected, Some(0));
    app.donkey();
    assert_eq!(app.file_selected, Some(1));
    app.upkey();
    assert_eq!(app.file_selected, Some(0));
    app.file_selected = None;
    app.donkey();
    assert_eq!(app.file_selected, Some(0));
    app.file_selected = Some(9);
    app.donkey();
    assert_eq!(app.file_selected, Some(0));
    app.current_menu = CurrentMenu::Media;
    app.donkey();
    assert_eq!(app.drive_selected, Some(1));
    app.donkey();
    assert_eq!(app.drive_selected, Some(0));
    app.current_menu = CurrentMenu::Status;
    app.donkey();
    assert!(app.current_option == CurrentOption::Speed);
    app.upkey();
    assert!(app.current_option == CurrentOption::VolumeLabel);
}

#[test]
fn enter_in_file_panel_notes_row_number() {
    let mut app = dashboard(1, &["a", "b", "c", "d", "e", "f", "g", "h", "i", "j", "k", "l"]);
    app.file_selected = Some(11);
    assert!(matches!(app.select(), Action::Nothing));
    assert_eq!(app.selected_files, vec!["11".to_string()]);
}

#[test]
fn speed_option_cycles() {
    let mut app = dashboard(1, &[]);
    app.current_menu = CurrentMenu::Status;
    app.current_option = CurrentOption::Speed;
    let mut seen = Vec::new();
    for _ in 0..4 {
        app.select();
        seen.push(app.burn_speed.clone());
    }
    assert_eq!(seen, vec!["16x", "24x", "4x", "8x"]);
    app.burn_speed = "1x".to_string();
    app.select();
    assert_eq!(app.burn_speed, "1x");
}

#[test]
fn finalize_option_toggles() {
    let mut app = dashboard(1, &[]);
    app.current_menu = CurrentMenu::Status;
    app.current_option = CurrentOption::Finalize;
    app.select();
    assert!(!app.finalize);
    app.select();
    assert!(app.finalize);
}

#[test]
fn burn_option_asks_for_a_job() {
    let mut app = dashboard(2, &["x.iso"]);
    app.current_menu = CurrentMenu::Status;
    app.current_option = CurrentOption::Burn;
    app.drive_selected = Some(1);
    match app.select() {
        Action::StartBurn(job) => {
            assert_eq!(job.drive_id, "drive-1");
            assert_eq!(job.files, vec!["x.iso".to_string()]);
            assert_eq!(job.volume_label, "NEW DISK");
            assert!(job.finalize);
        }
        _ => panic!("expected a job"),
    }
    assert!(app.current_screen == CurrentScreen::Dashboard);
    app.drive_selected = None;
    assert!(matches!(app.select(), Action::OpenChannel));
}

#[test]
fn remove_highlighted_file() {
    let mut app = dashboard(0, &["a", "b", "c"]);
    app.file_selected = Some(1);
    app.remove();
    assert_eq!(app.files, vec!["a".to_string(), "c".to_string()]);
    app.file_selected = None;
    app.remove();
    assert_eq!(app.files.len(), 2);
}

#[test]
fn added_files_append_and_highlight_first() {
    let mut app = dashboard(0, &[]);
    app.add_files(vec![]);
    assert_eq!(app.file_selected, None);
    app.add_files(vec!["a".to_string()]);
    app.file_selected = Some(0);
    app.add_files(vec!["b".to_string(), "c".to_string()]);
    assert_eq!(app.files, vec!["a", "b", "c"]);
    assert_eq!(app.file_selected, Some(0));
}

#[test]
fn typing_and_backspace() {
    let mut app = dashboard(0, &[]);
    app.handle_key(Key::Char('h'));
    app.handle_key(Key::Char('é'));
    assert_eq!(app.input_buffer, "hé");
    app.handle_key(Key::Backspace);
    assert_eq!(app.input_buffer, "h");
    app.handle_key(Key::Backspace);
    app.handle_key(Key::Backspace);
    assert_eq!(app.input_buffer, "");
    app.handle_key(Key::Esc);
    assert!(!app.input_mode);
    app.handle_key(Key::Char('i'));
    assert!(app.input_mode);
}

#[test]
fn command_text_is_trimmed_and_lowered() {
    let mut app = dashboard(0, &[]);
    app.input_buffer = "  SetFinalize \t".to_string();
    assert_eq!(app.command(), "setfinalize");
}

#[test]
fn quit_and_exit_commands() {
    let mut app = dashboard(0, &[]);
    assert!(matches!(type_command(&mut app, "quit"), Action::Quit));
    let mut app = dashboard(0, &[]);
    assert!(matches!(type_command(&mut app, " EXIT "), Action::Quit));
    assert_eq!(app.input_buffer, " EXIT ");
}

#[test]
fn dialog_commands() {
    let mut app = dashboard(0, &[]);
    assert!(matches!(type_command(&mut app, "add"), Action::PickFiles));
    assert_eq!(app.input_buffer, "");
    assert!(matches!(type_command(&mut app, "addfolder"), Action::PickFolder));
    assert!(matches!(type_command(&mut app, "added"), Action::Nothing));
}

#[test]
fn help_and_finalize_commands() {
    let mut app = dashboard(0, &[]);
    type_command(&mut app, "setfinalize");
    assert!(!app.finalize);
    type_command(&mut app, "setfinalize");
    assert!(app.finalize);
    type_command(&mut app, "help");
    assert!(app.current_screen == CurrentScreen::Help);
    assert!(matches!(app.handle_key(Key::Char('x')), Action::Nothing));
    assert!(app.current_screen == CurrentScreen::Help);
    app.handle_key(Key::Esc);
    assert!(app.current_screen == CurrentScreen::Dashboard);
}

#[test]
fn q_leaves_the_help_page() {
    let mut app = dashboard(0, &[]);
    type_command(&mut app, "help");
    assert!(matches!(app.handle_key(Key::Char('q')), Action::Nothing));
    assert!(app.current_screen == CurrentScreen::Dashboard);
    app.handle_key(Key::Esc);
    app.handle_key(Key::Char('h'));
    assert!(app.current_screen == CurrentScreen::Help);
    app.handle_key(Key::Char('q'));
    assert!(app.current_screen == CurrentScreen::Dashboard);
}

#[test]
fn q_does_not_leave_the_burn_screen() {
    let mut app = dashboard(1, &["a"]);
    type_command(&mut app, "burn");
    app.handle_key(Key::Char('q'));
    assert!(app.current_screen == CurrentScreen::ActiveBurn);
}

#[test]
fn burn_command() {
    let mut app = dashboard(1, &["a"]);
    app.logs.push("old".to_string());
    match type_command(&mut app, "burn") {
        Action::StartBurn(job) => {
            assert_eq!(job.drive_id, "drive-0");
            assert_eq!(job.files, vec!["a"]);
        }
        _ => panic!("expected a job"),
    }
    assert!(app.current_screen == CurrentScreen::ActiveBurn);
    assert!(app.logs.is_empty());
    assert_eq!(app.input_buffer, "");
    app.handle_key(Key::Esc);
    assert!(app.current_screen == CurrentScreen::Dashboard);
}

#[test]
fn burn_command_without_drive_quits() {
    let mut app = dashboard(0, &["a"]);
    assert!(matches!(type_command(&mut app, "burn"), Action::Quit));
}

#[test]
fn volume_label_command() {
    let mut app = dashboard(0, &[]);
    type_command(&mut app, "setvl My Disc");
    assert_eq!(app.volume_label, " my disc");
    type_command(&mut app, "xsetvl");
    assert_eq!(app.volume_label, "l");
    type_command(&mut app, "setvl");
    assert_eq!(app.volume_label, "l");
}

#[test]
fn speed_command_takes_an_integer() {
    let mut app = dashboard(0, &[]);
    type_command(&mut app, "setspeed 4");
    assert_eq!(app.burn_speed, "4x");
    type_command(&mut app, "setspeed 16");
    assert_eq!(app.burn_speed, "16x");
    type_command(&mut app, "SETSPEED 12");
    assert_eq!(app.burn_speed, "12x");
    type_command(&mut app, "setspeed fast");
    assert_eq!(app.burn_speed, "12x");
    type_command(&mut app, "setspeed 2x");
    assert_eq!(app.burn_speed, "12x");
    type_command(&mut app, "setspeed1");
    assert_eq!(app.burn_speed, "12x");
}

#[test]
fn remove_command_takes_a_file_number() {
    let mut app = dashboard(0, &["a", "b", "c"]);
    type_command(&mut app, "remove 1");
    assert_eq!(app.files, vec!["a", "c"]);
    assert_eq!(app.input_buffer, "");
    type_command(&mut app, "remove 2");
    assert_eq!(app.files, vec!["a", "c"]);
    type_command(&mut app, "remove 99999999999999999999999999");
    assert_eq!(app.files, vec!["a", "c"]);
    type_command(&mut app, "remove x");
    assert_eq!(app.files, vec!["a", "c"]);
    type_command(&mut app, "remove");
    assert_eq!(app.files, vec!["a", "c"]);
    type_command(&mut app, " Remove 0 ");
    assert_eq!(app.files, vec!["c"]);
}

#[test]
fn failing_commands_are_refused() {
    let mut app = dashboard(0, &[]);
    for c in "setspeed ".chars() {
        app.handle_key(Key::Char(c));
    }
    assert!(app.accepts_key(Key::Enter));
    assert!(matches!(app.try_handle_key(Key::Enter), Some(Action::Nothing)));
    assert_eq!(app.burn_speed, "8x");
    for c in "setspeed1".chars() {
        app.handle_key(Key::Char(c));
    }
    assert!(app.accepts_key(Key::Enter));
    assert!(matches!(app.try_handle_key(Key::Enter), Some(Action::Nothing)));
    assert_eq!(app.burn_speed, "8x");
    app.input_buffer = "ééésetvl".to_string();
    let cmd = app.command();
    assert!(!app.accepts_command(&cmd));
    app.input_buffer = "éésetvl".to_string();
    assert!(app.accepts_key(Key::Enter));
    assert!(matches!(app.try_handle_key(Key::Enter), Some(Action::Nothing)));
    assert_eq!(app.volume_label, "etvl");
}

#[test]
fn browsing_keys() {
    let mut app = dashboard(1, &["a", "b"]);
    app.handle_key(Key::Esc);
    assert!(matches!(app.handle_key(Key::Char('a')), Action::PickFiles));
    app.handle_key(Key::Tab);
    assert!(app.current_menu == CurrentMenu::Status);
    app.handle_key(Key::BackTab);
    assert!(app.current_menu == CurrentMenu::Files);
    app.handle_key(Key::Down);
    assert_eq!(app.file_selected, Some(1));
    app.handle_key(Key::Char('r'));
    assert_eq!(app.files, vec!["a"]);
    assert!(!app.accepts_key(Key::Char('r')));
    assert!(app.try_handle_key(Key::Char('r')).is_none());
    app.handle_key(Key::Char('h'));
    assert!(app.current_screen == CurrentScreen::Help);
    app.handle_key(Key::Esc);
    assert!(matches!(app.handle_key(Key::Char('q')), Action::Quit));
}

#[test]
fn empty_lists_refuse_moves_that_would_fail() {
    let mut app = dashboard(0, &[]);
    app.handle_key(Key::Esc);
    app.file_selected = Some(0);
    assert!(!app.accepts_key(Key::Up));
    assert!(!app.accepts_key(Key::Down));
    app.file_selected = None;
    assert!(app.accepts_key(Key::Up));
    app.handle_key(Key::Up);
    assert_eq!(app.file_selected, Some(0));
}

#[test]
fn splash_ignores_keys() {
    let mut app = App::new();
    assert!(matches!(app.handle_key(Key::Char('q')), Action::Nothing));
    assert!(app.current_screen == CurrentScreen::Splash);
}

#[test]
fn burn_messages_reach_the_log() {
    let mut app = dashboard(0, &[]);
    app.apply_burn_event(BurnEvent::Log("Setting recorder".to_string()));
    app.apply_burn_event(BurnEvent::Progress { written: 5, total: 10 });
    app.apply_burn_event(BurnEvent::Error("Burn Failed: 0x80070057".to_string()));
    app.apply_burn_event(BurnEvent::Finished);
    assert_eq!(
        app.logs,
        vec![
            "Setting recorder",
            "Error: Burn Failed: 0x80070057",
            "Burn Finished",
            "press any key to continue",
        ]
    );
}
