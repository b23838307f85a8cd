use openbatrangs::cli::Cli;
use openbatrangs::tui::{input_height, strip_ansi, App, Key, KeyOutcome, UiEvent};

fn cli() -> Cli {
    Cli {
        task: Vec::new(),
        ollama_url: "http://localhost:11434".to_string(),
        model: None,
        cwd: ".".to_string(),
        max_steps: 12,
        is_read_only: false,
        should_confirm: false,
        is_auto_pull_disabled: false,
        min_context: 8_192,
        max_ctx: 8_192,
        engine: "ollama".to_string(),
    }
}

fn type_text(app: &mut App, text: &str) {
    for c in text.chars() {
        app.handle_key(Key::Char(c));
    }
}

fn input(app: &App) -> String {
    app.input.iter().collect()
}

#[test]
fn strip_ansi_removes_escape_sequences() {
    assert_eq!(strip_ansi("\x1b[1;33m📁 Files\x1b[0m"), "📁 Files");
    assert_eq!(strip_ansi("plain"), "plain");
    assert_eq!(strip_ansi("a\x1b]8;;file:///x\x1b\\b"), "aile:///xb");
    assert_eq!(strip_ansi("tail\x1b[12"), "tail");
}

#[test]
fn new_app_shows_banner_and_greeting() {
    let app = App::new(&cli());
    assert!(app.log.len() > 2);
    assert_eq!(app.log[app.log.len() - 2], "");
    assert!(app.log.last().unwrap().starts_with("Type a task, or /help."));
    assert_eq!(app.status, "ready");
    assert_eq!(app.status_line(), "ready");
}

#[test]
fn typing_and_editing_the_input() {
    let mut app = App::new(&cli());
    type_text(&mut app, "helo");
    app.handle_key(Key::Left);
    app.handle_key(Key::Char('l'));
    assert_eq!(input(&app), "hello");
    app.handle_key(Key::Home);
    app.handle_key(Key::Delete);
    assert_eq!(input(&app), "ello");
    app.handle_key(Key::End);
    app.handle_key(Key::Backspace);
    assert_eq!(input(&app), "ell");
    app.handle_key(Key::Char('\r'));
    assert_eq!(input(&app), "ell");
    app.handle_key(Key::ShiftEnter);
    app.handle_key(Key::Char('x'));
    assert_eq!(input(&app), "ell\nx");
    assert_eq!(app.cursor_position(), (1, 1));
    assert_eq!(input_height(&app.input), 4);
}

#[test]
fn enter_starts_a_task_and_queues_while_running() {
    let mut app = App::new(&cli());
    type_text(&mut app, "  fix the build  ");
    assert_eq!(
        app.handle_key(Key::Enter),
        KeyOutcome::StartTask("fix the build".to_string())
    );
    assert!(app.running);
    assert_eq!(app.log.last().unwrap(), "🦇 fix the build");
    assert!(app.input.is_empty());
    type_text(&mut app, "next one");
    assert_eq!(app.handle_key(Key::Enter), KeyOutcome::Nothing);
    assert_eq!(app.task_queue, vec!["next one".to_string()]);
    assert_eq!(app.status_line(), format!("{} running — thinking...", app.spinner()));
    assert_eq!(
        app.handle_event(UiEvent::Done(Ok(()))),
        Some("next one".to_string())
    );
    assert!(app.running);
    assert!(app.task_queue.is_empty());
    assert_eq!(app.handle_event(UiEvent::Done(Err("boom".to_string()))), None);
    assert!(!app.running);
    assert_eq!(app.status, "ready");
    assert!(app.log.iter().any(|line| line == "⚠️ boom"));
}

#[test]
fn history_is_recalled_with_up_and_down() {
    let mut app = App::new(&cli());
    type_text(&mut app, "/confirm");
    app.handle_key(Key::Enter);
    type_text(&mut app, "/read-only");
    app.handle_key(Key::Enter);
    assert!(app.confirm);
    assert!(app.read_only);
    app.handle_key(Key::Up);
    assert_eq!(input(&app), "/read-only");
}

#[test]
fn history_navigation_without_suggestions() {
    let mut app = App::new(&cli());
    app.history = vec!["first".to_string(), "second".to_string()];
    app.handle_key(Key::Up);
    assert_eq!(input(&app), "second");
    app.handle_key(Key::Up);
    assert_eq!(input(&app), "first");
    app.handle_key(Key::Up);
    assert_eq!(input(&app), "first");
    app.handle_key(Key::Down);
    assert_eq!(input(&app), "second");
    app.handle_key(Key::Down);
    assert_eq!(input(&app), "");
    assert_eq!(app.history_idx, None);
}

#[test]
fn slash_suggestions_complete_with_tab() {
    let mut app = App::new(&cli());
    type_text(&mut app, "/mo");
    assert_eq!(app.suggestions(), vec!["/models".to_string(), "/model".to_string()]);
    app.handle_key(Key::Down);
    assert!(app.can_complete());
    app.handle_key(Key::Tab);
    assert_eq!(input(&app), "/model");
    assert_eq!(app.cursor, 6);
}

#[test]
fn slash_commands_change_settings() {
    let mut app = App::new(&cli());
    type_text(&mut app, "/steps 7");
    app.handle_key(Key::Enter);
    assert_eq!(app.max_steps, 7);
    assert_eq!(app.log.last().unwrap(), "Max steps set to 7");
    type_text(&mut app, "/steps 0");
    app.handle_key(Key::Enter);
    assert_eq!(app.max_steps, 7);
    assert_eq!(app.log.last().unwrap(), "Usage: /steps <positive number>");
    type_text(&mut app, "/cwd   /srv/code  ");
    app.handle_key(Key::Enter);
    assert_eq!(app.cwd, "/srv/code");
    type_text(&mut app, "/bogus");
    app.handle_key(Key::Enter);
    assert_eq!(app.log.last().unwrap(), "Unknown command: /bogus. Try /help");
    type_text(&mut app, "/model qwen:7b");
    assert_eq!(
        app.handle_key(Key::Enter),
        KeyOutcome::CheckModel("qwen:7b".to_string())
    );
    app.choose_model("qwen:7b", &vec!["qwen:7b".to_string()]);
    assert_eq!(app.model.as_deref(), Some("qwen:7b"));
    type_text(&mut app, "/clear");
    app.handle_key(Key::Enter);
    assert!(app.log.is_empty());
    type_text(&mut app, "/quit");
    app.handle_key(Key::Enter);
    assert!(app.quit);
}

#[test]
fn model_picker_selects_a_model() {
    let mut app = App::new(&cli());
    type_text(&mut app, "/models");
    assert_eq!(app.handle_key(Key::Enter), KeyOutcome::ListModels);
    app.show_models(vec!["a:1b".to_string(), "b:3b".to_string()]);
    assert_eq!(app.status_line(), "↑↓ select · Enter confirm · Esc cancel");
    app.handle_key(Key::Down);
    app.handle_key(Key::Down);
    app.handle_key(Key::Enter);
    assert_eq!(app.model.as_deref(), Some("b:3b"));
    assert!(app.picker.is_none());
    assert_eq!(app.log.last().unwrap(), "✅ Model set to b:3b");
}

#[test]
fn agent_events_fill_the_log_and_live_line() {
    let mut app = App::new(&cli());
    app.log.clear();
    app.handle_event(UiEvent::Chunk("thinking ".to_string()));
    app.handle_event(UiEvent::Chunk("hard".to_string()));
    assert_eq!(app.chat_text(), "thinking hard");
    app.handle_event(UiEvent::Log("🔧 read_file → a.rs ".to_string()));
    assert_eq!(app.last_action, "🔧 read_file → a.rs");
    assert_eq!(app.log, vec!["thinking hard".to_string(), "🔧 read_file → a.rs ".to_string()]);
    assert!(app.live.is_empty());
    app.handle_event(UiEvent::Log(String::new()));
    assert_eq!(app.log.len(), 2);
    assert_eq!(app.chat_text(), "thinking hard\n🔧 read_file → a.rs ");
}

#[test]
fn esc_quits_and_backspace_undoes_typing() {
    let mut app = App::new(&cli());
    type_text(&mut app, "ab");
    app.handle_key(Key::Char('c'));
    app.handle_key(Key::Backspace);
    assert_eq!(input(&app), "ab");
    app.handle_key(Key::Esc);
    assert!(app.quit);
}
