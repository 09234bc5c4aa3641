use bw_tui::app::{App, Screen, StatusMsg, Tab, VaultMode};
use bw_tui::config::Config;
use bw_tui::display::Tone;
use bw_tui::keys::{KeyCode, KeyEvent};
use bw_tui::form::{ItemForm, ItemFormField, ItemFormMode, ItemKind};
use bw_tui::model::{Folder, GenerateOptions, Item, Status};
use bw_tui::screens::{
    account_lines, folder_bar_char_count, folder_bar_rows, folder_entry_text, form_ctrl_hints, form_field_text,
    form_title, generator_option_lines, generator_result_line, help_text, item_count_text, masked, progress_line,
    search_bar_text, status_line, unlock_prompt, wrapped_line_count,
};
use ratatui::backend::TestBackend;
use ratatui::layout::Rect;
use ratatui::text::{Line, Span};
use ratatui::widgets::{Block, Borders, Paragraph, Wrap};
use ratatui::Terminal;

fn item(name: &str, folder_id: Option<&str>) -> Item {
    Item {
        id: name.to_string(),
        name: name.to_string(),
        item_type: 1,
        login: None,
        card: None,
        identity: None,
        fields: None,
        notes: None,
        folder_id: folder_id.map(str::to_string),
    }
}

fn vault_app(items: Vec<Item>, folders: Vec<Folder>) -> App {
    let mut app = App::new(Config::default());
    app.screen = Screen::Main;
    app.tab = Tab::Vault;
    app.items = items;
    app.folders = folders;
    app.refilter();
    app
}

#[test]
fn folder_bar_wraps_instead_of_clipping_at_narrow_width() {
    let folders: Vec<Folder> = (0..12)
        .map(|i| Folder { id: Some(format!("f{i}")), name: format!("Folder{i:02}") })
        .collect();
    let app = vault_app(vec![item("Alpha", None)], folders);

    let backend = TestBackend::new(90, 28);
    let mut terminal = Terminal::new(backend).unwrap();
    terminal
        .draw(|frame| {
            let area = frame.area();
            let rows = folder_bar_rows(&app, area.width);
            let bar = Rect::new(area.x, area.y, area.width, rows + 2);
            let block = Block::default().borders(Borders::TOP | Borders::BOTTOM);
            let inner = block.inner(bar);
            frame.render_widget(block, bar);
            let mut spans = Vec::new();
            for i in 0..app.folders.len() + 2 {
                if i > 0 {
                    spans.push(Span::raw("  "));
                }
                spans.push(Span::raw(folder_entry_text(&app, i)));
            }
            frame.render_widget(Paragraph::new(Line::from(spans)).wrap(Wrap { trim: false }), inner);
        })
        .unwrap();

    let rendered: String = terminal.backend().buffer().content().iter().map(|cell| cell.symbol()).collect();

    for i in 0..12 {
        let label = format!("Folder{i:02}");
        assert!(rendered.contains(&label), "expected to find '{label}' in the rendered frame");
    }
}

#[test]
fn folder_bar_width_and_rows() {
    let app = vault_app(vec![], vec![Folder { id: Some("f".into()), name: "Work".into() }]);
    // " All " + "  " + " No folder " + "  " + " Work "
    assert_eq!(folder_bar_char_count(&app), 5 + 2 + 11 + 2 + 6);
    assert_eq!(folder_bar_rows(&app, 200), 1);
    assert_eq!(folder_bar_rows(&app, 10), 3);
    assert_eq!(folder_bar_rows(&app, 2), 4, "the bar never takes more than four rows");
    assert_eq!(folder_entry_text(&app, 2), " Work ");
    assert_eq!(wrapped_line_count(0, 10), 1);
    assert_eq!(wrapped_line_count(10, 10), 1);
    assert_eq!(wrapped_line_count(11, 10), 2);
    assert_eq!(wrapped_line_count(5, 0), 1);
}

#[test]
fn status_line_shows_message_and_timer() {
    let mut app = vault_app(vec![], vec![]);
    app.session_started = 1000;
    let (text, tone) = status_line(&app, 1000 + 65);
    assert_eq!(text, "Session expires in 28:55");
    assert_eq!(tone, Tone::Accent);
    app.status = Some(StatusMsg { text: "✅ done".into(), shown_at: 0 });
    let (text, _) = status_line(&app, 1000 + 1795);
    assert_eq!(text, "✅ done   |   Session expires in 00:05");
    let (text, _) = status_line(&app, 1000 + 5000);
    assert_eq!(text, "✅ done   |   Session expires in 00:00");
    app.busy = true;
    app.busy_label = Some("Syncing…".into());
    let (text, tone) = status_line(&app, 1000);
    assert_eq!(text, "⠋ Syncing…   |   Session expires in 30:00");
    assert_eq!(tone, Tone::Warn);
}

#[test]
fn help_follows_the_tab_and_mode() {
    let mut app = vault_app(vec![item("A", None)], vec![]);
    assert!(help_text(&app).starts_with("j/k: move"));
    app.vault_mode = VaultMode::Search;
    assert_eq!(help_text(&app), "type to filter  Enter: confirm  Esc: cancel");
    app.detail_open = true;
    assert!(help_text(&app).starts_with("Enter: copy password"));
    app.item_form = Some(ItemForm::new());
    assert!(help_text(&app).starts_with("Tab: field"));
    app.tab = Tab::Account;
    assert_eq!(help_text(&app), "s: sync  l: lock  o: log out  Tab: switch view  Esc: quit");
}

#[test]
fn search_bar_and_count() {
    let mut app = vault_app(vec![item("Netflix", None), item("Amazon", None)], vec![]);
    assert_eq!(item_count_text(&app), "Items  2/2");
    assert_eq!(search_bar_text(&app), ("press / to search".to_string(), Tone::Muted));
    app.query = "net".into();
    app.refilter();
    assert_eq!(item_count_text(&app), "Items  1/2");
    assert_eq!(search_bar_text(&app), ("/net  (Esc to clear)".to_string(), Tone::Plain));
    app.vault_mode = VaultMode::Search;
    assert_eq!(search_bar_text(&app), ("/net".to_string(), Tone::Accent));
}

#[test]
fn form_texts() {
    let mut form = ItemForm::new();
    assert_eq!(form_title(&form), " New login item ");
    assert_eq!(form_ctrl_hints(&form), "Ctrl+T: change type  Ctrl+G: random password");
    form.password = "abc".into();
    assert_eq!(form_field_text(&form, ItemFormField::Password), "Password: ***");
    form.password_revealed = true;
    assert_eq!(form_field_text(&form, ItemFormField::Password), "Password: abc");
    form.kind = ItemKind::Card;
    form.number = "4111111111111111".into();
    assert_eq!(form_field_text(&form, ItemFormField::Number), "Number: 4111 1111 1111 1111");
    assert_eq!(form_ctrl_hints(&form), "Ctrl+T: change type");
    form.mode = ItemFormMode::Edit { id: "x".into() };
    assert_eq!(form_title(&form), " Edit card item ");
    assert_eq!(form_ctrl_hints(&form), "");
    form.kind = ItemKind::Login;
    assert_eq!(form_ctrl_hints(&form), "Ctrl+G: random password  Ctrl+R: view current password");
    assert_eq!(masked("pässwörd"), "********");
}

#[test]
fn generator_texts() {
    let opts = GenerateOptions { length: 24, uppercase: true, lowercase: false, numbers: true, special: false };
    let lines = generator_option_lines(&opts);
    assert_eq!(lines.len(), 5);
    assert_eq!(lines[0].text, "Length: 24 (↑/↓)");
    assert_eq!(lines[1].text, "[u] Uppercase: yes");
    assert_eq!(lines[1].tone, Tone::Good);
    assert_eq!(lines[2].text, "[l] Lowercase: no");
    assert_eq!(lines[2].tone, Tone::Muted);
    let mut app = vault_app(vec![], vec![]);
    assert_eq!(generator_result_line(&app, "(c: copy)"), ("Enter: generate".to_string(), Tone::Muted));
    app.generator.result = Some("pw".into());
    assert_eq!(generator_result_line(&app, "(c: copy)"), ("> pw  (c: copy)".to_string(), Tone::Warn));
    assert_eq!(generator_result_line(&app, ""), ("> pw".to_string(), Tone::Warn));
    app.generator.error = Some("boom".into());
    assert_eq!(generator_result_line(&app, ""), ("\u{f071} boom".to_string(), Tone::Error));
}

#[test]
fn account_tab_lines() {
    let mut app = vault_app(vec![item("A", None)], vec![]);
    let lines = account_lines(&app);
    assert_eq!(lines.len(), 6);
    assert_eq!(lines[1].text, "Cached items: 1");
    app.server_status = Some(Status { server_url: None, last_sync: None, user_email: Some("me@x".into()), status: "unlocked".into() });
    app.confirm_logout = true;
    let lines = account_lines(&app);
    assert_eq!(lines.len(), 7);
    assert_eq!((lines[0].label.as_str(), lines[0].text.as_str()), ("Server: ", "bitwarden.com"));
    assert_eq!(lines[1].text, "me@x");
    assert_eq!(lines[2].text, "never");
    assert_eq!(lines[6].tone, Tone::Error);
}

#[test]
fn sign_in_texts() {
    assert_eq!(unlock_prompt(&None, &None), "Enter your master password:");
    assert_eq!(unlock_prompt(&Some("me@x".into()), &None), "Enter the master password for me@x:");
    assert_eq!(unlock_prompt(&Some("me@x".into()), &Some("🔒 expired".into())), "🔒 expired");
    assert_eq!(progress_line(true, &Some("e".into()), "⠋", "Unlocking..."), Some(("⠋ Unlocking...".to_string(), Tone::Warn)));
    assert_eq!(progress_line(false, &Some("bad".into()), "⠋", "Unlocking..."), Some(("\u{f071} bad".to_string(), Tone::Error)));
    assert_eq!(progress_line(false, &None, "⠋", "Unlocking..."), None);
}

#[test]
fn f_hides_and_shows_the_folder_bar() {
    let folders = vec![Folder { id: Some("f1".into()), name: "Work".into() }];
    let mut app = vault_app(vec![item("A", Some("f1")), item("B", None)], folders);
    assert!(app.show_folders, "the folder bar shows by default");
    app.handle_key(KeyEvent::plain(KeyCode::Char('f')));
    assert!(!app.show_folders);
    assert_eq!(item_count_text(&app), "Items  2/2");
    app.handle_key(KeyEvent::plain(KeyCode::Char('l')));
    app.handle_key(KeyEvent::plain(KeyCode::Char('l')));
    assert_eq!(item_count_text(&app), "Items  1/2  ·  Work  (f: folders)");
    app.handle_key(KeyEvent::plain(KeyCode::Char('f')));
    assert!(app.show_folders);
    assert_eq!(item_count_text(&app), "Items  1/2");
}
