use vrchat_chat_bridge::ipc::IPCCommand;
use vrchat_chat_bridge::osc::OSCCommand;
use vrchat_chat_bridge::ui::{CheckAction, Ui, WindowAction, CHECK_INTERVAL_SECS, CLEAR_COUNT};

fn chat(text: &str) -> OSCCommand {
    OSCCommand::SendChat { contents: text.to_string(), immediately: true }
}

#[test]
fn new_window_is_hidden_and_empty() {
    let ui = Ui::new();
    assert!(!ui.is_visible());
    assert_eq!(ui.input_text(), "");
    assert_eq!(ui.clear_counter(), 0);
}

#[test]
fn show_shows_and_focuses() {
    let mut ui = Ui::new();
    assert_eq!(ui.handle_ipc_command(IPCCommand::Show), WindowAction::ShowAndFocus);
    assert!(ui.is_visible());
    assert_eq!(ui.handle_ipc_command(IPCCommand::Show), WindowAction::ShowAndFocus);
    assert!(ui.is_visible());
}

#[test]
fn hide_hides() {
    let mut ui = Ui::new();
    ui.handle_ipc_command(IPCCommand::Show);
    assert_eq!(ui.handle_ipc_command(IPCCommand::Hide), WindowAction::Hide);
    assert!(!ui.is_visible());
    assert_eq!(ui.handle_ipc_command(IPCCommand::Hide), WindowAction::Hide);
    assert!(!ui.is_visible());
}

#[test]
fn toggle_flips_and_twice_restores() {
    let mut ui = Ui::new();
    assert_eq!(ui.handle_ipc_command(IPCCommand::Toggle), WindowAction::ShowAndFocus);
    assert!(ui.is_visible());
    assert_eq!(ui.handle_ipc_command(IPCCommand::Toggle), WindowAction::Hide);
    assert!(!ui.is_visible());
}

#[test]
fn setting_forgets_history() {
    let mut a = Ui::new();
    let mut b = Ui::new();
    for cmd in [IPCCommand::Toggle, IPCCommand::Toggle, IPCCommand::Toggle] {
        a.handle_ipc_command(cmd);
    }
    b.handle_ipc_command(IPCCommand::Show);
    a.handle_ipc_command(IPCCommand::Hide);
    b.handle_ipc_command(IPCCommand::Hide);
    a.handle_ipc_command(IPCCommand::Toggle);
    b.handle_ipc_command(IPCCommand::Toggle);
    assert_eq!(a.is_visible(), b.is_visible());
    assert!(a.is_visible());
}

#[test]
fn commands_leave_text_alone() {
    let mut ui = Ui::new();
    ui.edit("abc".to_string());
    ui.handle_ipc_command(IPCCommand::Toggle);
    assert_eq!(ui.input_text(), "abc");
}

#[test]
fn edit_replaces_text() {
    let mut ui = Ui::new();
    ui.edit("hello".to_string());
    assert_eq!(ui.input_text(), "hello");
    ui.edit("world".to_string());
    assert_eq!(ui.input_text(), "world");
}

#[test]
fn submit_sends_text_and_clears() {
    let mut ui = Ui::new();
    ui.edit("draft".to_string());
    ui.check_input();
    let cmd = ui.submit("final words".to_string());
    assert_eq!(cmd, chat("final words"));
    assert_eq!(ui.input_text(), "");
    assert_eq!(ui.clear_counter(), 0);
}

#[test]
fn submit_resets_blank_count() {
    let mut ui = Ui::new();
    ui.check_input();
    ui.check_input();
    assert_eq!(ui.clear_counter(), 2);
    assert_eq!(ui.submit(String::new()), chat(""));
    assert_eq!(ui.clear_counter(), 0);
}

#[test]
fn check_sends_text_unchanged() {
    let mut ui = Ui::new();
    ui.edit("  hi there ".to_string());
    for _ in 0..5 {
        assert_eq!(ui.check_input(), CheckAction::Send(chat("  hi there ")));
        assert_eq!(ui.input_text(), "  hi there ");
        assert_eq!(ui.clear_counter(), 0);
    }
}

#[test]
fn whitespace_only_text_is_blank() {
    let mut ui = Ui::new();
    ui.edit(" \t\n\u{3000}".to_string());
    assert_eq!(ui.check_input(), CheckAction::Wait);
    assert_eq!(ui.clear_counter(), 1);
}

#[test]
fn blank_input_waits_then_stops() {
    let mut ui = Ui::new();
    for expected in 1..=CLEAR_COUNT {
        assert_eq!(ui.check_input(), CheckAction::Wait);
        assert_eq!(ui.clear_counter(), expected);
    }
    assert_eq!(ui.check_input(), CheckAction::Stop);
    assert_eq!(ui.clear_counter(), 0);
}

#[test]
fn non_blank_check_keeps_count() {
    let mut ui = Ui::new();
    ui.check_input();
    ui.edit("x".to_string());
    assert_eq!(ui.check_input(), CheckAction::Send(chat("x")));
    assert_eq!(ui.clear_counter(), 1);
    ui.edit(String::new());
    ui.check_input();
    ui.check_input();
    assert_eq!(ui.clear_counter(), 3);
    assert_eq!(ui.check_input(), CheckAction::Stop);
}

#[test]
fn constants() {
    assert_eq!(CLEAR_COUNT, 3);
    assert_eq!(CHECK_INTERVAL_SECS, 5);
}

#[test]
fn toggle_after_user_closed_window_shows_it() {
    let mut ui = Ui::new();
    ui.handle_ipc_command(IPCCommand::Show);
    ui.window_closed();
    assert!(!ui.is_visible());
    assert_eq!(ui.handle_ipc_command(IPCCommand::Toggle), WindowAction::ShowAndFocus);
    assert!(ui.is_visible());
}

#[test]
fn closing_keeps_text_and_count() {
    let mut ui = Ui::new();
    ui.check_input();
    ui.edit("kept".to_string());
    ui.window_closed();
    assert_eq!(ui.input_text(), "kept");
    assert_eq!(ui.clear_counter(), 1);
}

#[test]
fn every_unicode_space_is_blank() {
    let spaces = "\u{9}\u{a}\u{b}\u{c}\u{d}\u{20}\u{85}\u{a0}\u{1680}\u{2000}\u{2001}\u{2002}\u{2003}\u{2004}\u{2005}\u{2006}\u{2007}\u{2008}\u{2009}\u{200a}\u{2028}\u{2029}\u{202f}\u{205f}\u{3000}";
    let mut ui = Ui::new();
    ui.edit(spaces.to_string());
    assert_eq!(ui.check_input(), CheckAction::Wait);
}

#[test]
fn zero_width_space_is_not_blank() {
    let mut ui = Ui::new();
    ui.edit("\u{200b}".to_string());
    assert_eq!(ui.check_input(), CheckAction::Send(chat("\u{200b}")));
}

#[test]
fn submit_then_checks_wait_then_stop() {
    let mut ui = Ui::new();
    ui.edit("typed".to_string());
    ui.submit("typed".to_string());
    for _ in 0..CLEAR_COUNT {
        assert_eq!(ui.check_input(), CheckAction::Wait);
    }
    assert_eq!(ui.check_input(), CheckAction::Stop);
}
