use bw_tui::app::{App, Screen, Tab, TwoFactorMethod, VaultMode};
use bw_tui::commands::{
    bw_command_parts, create_item_args, edit_item_args, failure, generate_args, login_args, login_outcome,
    login_timed_out, split_words, unlock_args, unlock_key,
};
use bw_tui::config::Config;
use bw_tui::display::{detail_footer, group_digits_by_four, mask_card_number};
use bw_tui::effects::{autoclear_note, BwEvent, BwJob, Effect};
use bw_tui::commands::patch_edits_of;
use bw_tui::itemjson::{apply_edits, ItemJson, JsonEntry, JsonLeaf};
use bw_tui::flows::{compute_start, BwCall, BwReply, Flow, FlowResult, Next};
use bw_tui::form::{ItemForm, ItemFormField, ItemKind};
use bw_tui::keys::{KeyCode, KeyEvent};
use bw_tui::model::{Folder, GenerateOptions, Item, LoginData, LoginOutcome, StartOutcome, Status, VaultLoad};
use bw_tui::search::filter_items;
use bw_tui::session::{cached_session, session_time_text};

fn login_item(id: &str, name: &str, user: Option<&str>, folder: Option<&str>) -> Item {
    Item {
        id: id.to_string(),
        name: name.to_string(),
        item_type: 1,
        login: Some(LoginData {
            username: user.map(str::to_string),
            password: None,
            totp: None,
            uris: None,
        }),
        card: None,
        identity: None,
        fields: None,
        notes: None,
        folder_id: folder.map(str::to_string),
    }
}

fn vault(items: Vec<Item>, folders: Vec<Folder>) -> App {
    let mut app = App::new(Config::default());
    app.screen = Screen::Main;
    app.tab = Tab::Vault;
    app.session = Some("key".to_string());
    app.items = items;
    app.folders = folders;
    app.refilter();
    app
}

fn press(app: &mut App, code: KeyCode) -> Effect {
    app.handle_key(KeyEvent::plain(code))
}

fn names(app: &App) -> Vec<String> {
    app.filtered.iter().map(|&i| app.items[i].name.clone()).collect()
}

fn strings(v: &[&str]) -> Vec<String> {
    v.iter().map(|s| s.to_string()).collect()
}

// ---- laws on concrete values ---------------------------------------------------

#[test]
fn moving_down_then_up_returns_to_the_same_item() {
    let items = vec![
        login_item("1", "Alpha", None, None),
        login_item("2", "Beta", None, None),
        login_item("3", "Gamma", None, None),
        login_item("4", "Delta", None, None),
    ];
    let mut app = vault(items, vec![]);
    for start in 0..4 {
        app.selected = start;
        app.move_selection(3);
        app.move_selection(-3);
        assert_eq!(app.selected, start);
    }
}

#[test]
fn folder_right_then_left_restores_the_list() {
    let folders = vec![Folder { id: Some("f1".into()), name: "Work".into() }];
    let items = vec![login_item("1", "A", None, Some("f1")), login_item("2", "B", None, None)];
    let mut app = vault(items, folders);
    let before = app.filtered.clone();
    app.cycle_folder(1);
    assert_eq!(app.folder_index, 1);
    app.cycle_folder(-1);
    assert_eq!(app.folder_index, 0);
    assert_eq!(app.filtered, before);
    app.cycle_folder(-1);
    assert_eq!(app.folder_index, 2, "h from All wraps to the last folder");
}

#[test]
fn refiltering_twice_gives_the_same_list() {
    let items = vec![
        login_item("1", "Netflix", Some("me@mail"), None),
        login_item("2", "Amazon", None, None),
        login_item("3", "Netgear", None, None),
    ];
    let mut app = vault(items, vec![]);
    app.query = "net".to_string();
    app.refilter();
    let first = app.filtered.clone();
    let sel = app.selected;
    app.refilter();
    assert_eq!(app.filtered, first);
    assert_eq!(app.selected, sel);
}

#[test]
fn tabs_cycle_both_ways() {
    for t in [Tab::Vault, Tab::Generator, Tab::Account] {
        assert_eq!(t.next().prev(), t);
        assert_eq!(t.prev().next(), t);
        assert_eq!(t.next().next().next(), t);
    }
    assert_eq!(Tab::Vault.next(), Tab::Generator);
    assert_eq!(Tab::Vault.prev(), Tab::Account);
}

#[test]
fn two_factor_method_toggles_back() {
    assert_eq!(TwoFactorMethod::Authenticator.toggled(), TwoFactorMethod::Email);
    assert_eq!(TwoFactorMethod::Email.toggled().toggled(), TwoFactorMethod::Email);
    assert_eq!(TwoFactorMethod::Authenticator.code(), "0");
    assert_eq!(TwoFactorMethod::Email.code(), "1");
}

#[test]
fn item_kinds_cycle_and_round_trip_through_type_numbers() {
    for k in [ItemKind::Login, ItemKind::Note, ItemKind::Card, ItemKind::Identity] {
        assert_eq!(k.next().prev(), k);
        assert_eq!(ItemKind::from_item_type(k.item_type()), k);
    }
    assert_eq!(ItemKind::from_item_type(9), ItemKind::Login);
    assert_eq!(ItemKind::Card.fields().len(), 8);
}

#[test]
fn form_focus_forward_and_back() {
    let mut form = ItemForm::new();
    form.kind = ItemKind::Card;
    form.focus = ItemFormField::Number;
    form.cycle_focus(2);
    assert_eq!(form.focus, ItemFormField::ExpYear);
    form.cycle_focus(-2);
    assert_eq!(form.focus, ItemFormField::Number);
    form.focus = ItemFormField::Name;
    form.cycle_focus(-1);
    assert_eq!(form.focus, ItemFormField::Notes, "focus wraps backwards");
}

#[test]
fn typing_then_backspace_restores_the_field() {
    let mut form = ItemForm::new();
    form.focus = ItemFormField::Username;
    form.username = "bob".to_string();
    form.type_char('x');
    assert_eq!(form.field_value(ItemFormField::Username), "bobx");
    form.backspace();
    assert_eq!(form.field_value(ItemFormField::Username), "bob");
    assert_eq!(form.field_value(ItemFormField::Name), "");
}

#[test]
fn full_field_ignores_typing() {
    let mut form = ItemForm::new();
    form.kind = ItemKind::Card;
    form.focus = ItemFormField::ExpMonth;
    let max = ItemFormField::ExpMonth.max_len().expect("the month has a limit");
    for _ in 0..max + 3 {
        form.type_char('1');
    }
    assert_eq!(form.field_value(ItemFormField::ExpMonth).chars().count(), max);
}

// ---- the session cache ----------------------------------------------------------

#[test]
fn saved_session_loads_back() {
    let text = session_time_text(1_700_000_000);
    assert_eq!(text, "1700000000");
    let got = cached_session(Some("abc123\n".into()), Some(text), 1_700_000_100, 1800);
    assert_eq!(got, Some(("abc123".to_string(), 1_700_000_000)));
}

#[test]
fn expired_or_broken_sessions_are_not_used() {
    assert_eq!(cached_session(Some("k".into()), Some("100".into()), 2000, 1800), None);
    assert_eq!(cached_session(Some("k".into()), Some("100".into()), 1900, 1800), Some(("k".to_string(), 100)));
    assert_eq!(cached_session(Some("  \n".into()), Some("100".into()), 100, 1800), None);
    assert_eq!(cached_session(Some("k".into()), Some("soon".into()), 100, 1800), None);
    assert_eq!(cached_session(None, Some("100".into()), 100, 1800), None);
    assert_eq!(cached_session(Some("k".into()), None, 100, 1800), None);
}

#[test]
fn expired_session_relocks_on_tick() {
    let mut app = vault(vec![login_item("1", "A", None, None)], vec![]);
    app.session_started = 10;
    let e = app.on_tick(5000, 10 + 1800);
    assert!(matches!(e, Effect::Nothing));
    assert!(app.session.is_some());
    let e = app.on_tick(6000, 10 + 1801);
    assert!(matches!(e, Effect::ClearSession));
    assert!(app.session.is_none());
    assert!(app.items.is_empty());
    assert!(matches!(app.screen, Screen::Unlock { .. }));
}

// ---- the command lines --------------------------------------------------------------

#[test]
fn configured_command_is_split_into_words() {
    let (prog, args) = bw_command_parts("flatpak run --command=bw  com.bitwarden.desktop");
    assert_eq!(prog, "flatpak");
    assert_eq!(args, strings(&["run", "--command=bw", "com.bitwarden.desktop"]));
    let (prog, args) = bw_command_parts("   ");
    assert_eq!(prog, "bw");
    assert!(args.is_empty());
    assert_eq!(split_words("\ta  b\n"), strings(&["a", "b"]));
}

#[test]
fn item_payloads_are_sent_base64_encoded() {
    let args = create_item_args("{}", "S");
    assert_eq!(args, strings(&["create", "item", "e30=", "--session", "S"]));
    let args = edit_item_args("id1", "{\"a\":1}", "S");
    assert_eq!(args, strings(&["edit", "item", "id1", "eyJhIjoxfQ==", "--session", "S"]));
}

#[test]
fn login_and_unlock_arguments() {
    assert_eq!(unlock_args(), strings(&["unlock", "--raw", "--passwordenv", "BW_TUI_PASSWORD"]));
    assert_eq!(
        login_args("me@x.org", Some(("1", "123456"))),
        strings(&["login", "me@x.org", "--raw", "--passwordenv", "BW_TUI_PASSWORD", "--method", "1", "--code", "123456"])
    );
    assert_eq!(login_args("me@x.org", None).len(), 5);
}

#[test]
fn generator_arguments_clamp_the_length() {
    let opts = GenerateOptions { length: 3, uppercase: true, lowercase: false, numbers: true, special: true };
    assert_eq!(
        generate_args(&opts),
        strings(&["generate", "--length", "5", "--uppercase", "--number", "--special"])
    );
    let d = GenerateOptions::default();
    assert_eq!(generate_args(&d), strings(&["generate", "--length", "20", "--uppercase", "--lowercase", "--number"]));
}

#[test]
fn command_results_are_read() {
    assert_eq!(unlock_key(true, " key\n", ""), Ok("key".to_string()));
    assert_eq!(unlock_key(true, "\n", ""), Err("wrong master password".to_string()));
    assert_eq!(unlock_key(false, "", "Invalid master password.\n"), Err("bw unlock failed: Invalid master password.".to_string()));
    assert!(matches!(login_outcome(false, "", "Two-step login code required"), Ok(LoginOutcome::TwoFactorRequired)));
    assert!(matches!(login_outcome(false, "", "Enter 2FA CODE"), Ok(LoginOutcome::TwoFactorRequired)));
    assert!(matches!(login_outcome(false, "", "Username or password is incorrect."),
        Err(e) if e == "bw login failed: Username or password is incorrect."));
    assert!(matches!(login_outcome(true, "sess\n", ""), Ok(LoginOutcome::Success(k)) if k == "sess"));
    assert!(matches!(login_outcome(true, "  ", ""), Err(e) if e == "could not log in"));
    assert!(matches!(login_timed_out(false), Ok(LoginOutcome::TwoFactorRequired)));
    assert!(matches!(login_timed_out(true), Err(e) if e == "bw login timed out waiting for a response"));
    assert_eq!(failure("could not sync: ", "  boom \n"), "could not sync: boom");
}

// ---- what the screens show ---------------------------------------------------------

#[test]
fn card_numbers_are_masked_and_grouped() {
    assert_eq!(mask_card_number("4111111111111234"), "•••• •••• •••• 1234");
    assert_eq!(mask_card_number("12"), "•••• •••• •••• 12");
    assert_eq!(mask_card_number(""), "•••• •••• •••• ••••");
    assert_eq!(group_digits_by_four("4111111111111111"), "4111 1111 1111 1111");
    assert_eq!(group_digits_by_four("12345"), "1234 5");
    assert_eq!(group_digits_by_four(""), "");
}

#[test]
fn detail_footer_lists_the_keys_of_the_item() {
    let mut item = login_item("1", "A", None, None);
    assert_eq!(detail_footer(&item), "Enter: copy password  u: username  t: TOTP  r: reveal  e: edit  Esc: close");
    item.notes = Some("hi".into());
    assert_eq!(
        detail_footer(&item),
        "Enter: copy password  u: username  t: TOTP  r: reveal  n: notes  e: edit  Esc: close"
    );
    item.item_type = 2;
    assert_eq!(detail_footer(&item), "Enter: copy notes  e: edit  Esc: close");
    item.item_type = 7;
    assert_eq!(detail_footer(&item), "n: notes  Esc: close");
}

#[test]
fn copied_messages_say_when_the_clipboard_clears() {
    assert_eq!(autoclear_note(true, 9), " (clears in 9s)");
    assert_eq!(autoclear_note(false, 9), "");
}

// ---- search ----------------------------------------------------------------------

#[test]
fn search_matches_names_and_usernames() {
    let items = vec![
        login_item("1", "Mail", Some("netflix-fan"), None),
        login_item("2", "Amazon", None, None),
        login_item("3", "Netflix", None, None),
    ];
    let folders = vec![];
    let found = filter_items(&items, &folders, 0, "netflix");
    assert_eq!(found.len(), 2);
    assert!(found.contains(&0) && found.contains(&2));
    assert!(filter_items(&items, &folders, 0, "zzz").is_empty());
    assert_eq!(filter_items(&items, &folders, 0, ""), vec![0, 1, 2]);
    assert_eq!(filter_items(&items, &folders, 1, ""), vec![0, 1, 2], "no item has a folder");
}

#[test]
fn folder_entries_filter_the_list() {
    let folders = vec![
        Folder { id: Some("f1".into()), name: "Work".into() },
        Folder { id: None, name: "Loose".into() },
    ];
    let items = vec![
        login_item("1", "A", None, Some("f1")),
        login_item("2", "B", None, None),
        login_item("3", "C", None, Some("")),
    ];
    assert_eq!(filter_items(&items, &folders, 0, ""), vec![0, 1, 2]);
    assert_eq!(filter_items(&items, &folders, 1, ""), vec![1]);
    assert_eq!(filter_items(&items, &folders, 2, ""), vec![0]);
    assert_eq!(filter_items(&items, &folders, 3, ""), vec![2]);
    let app = vault(items, folders);
    assert_eq!(app.folder_label(0), "All");
    assert_eq!(app.folder_label(1), "No folder");
    assert_eq!(app.folder_label(2), "Work");
    assert_eq!(app.folder_label(9), "");
}

#[test]
fn search_mode_typing_and_backspace() {
    let mut app = vault(vec![login_item("1", "Netflix", None, None), login_item("2", "Amazon", None, None)], vec![]);
    press(&mut app, KeyCode::Char('/'));
    press(&mut app, KeyCode::Char('a'));
    press(&mut app, KeyCode::Char('m'));
    assert_eq!(names(&app), vec!["Amazon".to_string()]);
    press(&mut app, KeyCode::Backspace);
    press(&mut app, KeyCode::Backspace);
    assert_eq!(app.query, "");
    assert_eq!(app.filtered.len(), 2);
    assert_eq!(app.vault_mode, VaultMode::Search);
}

// ---- jobs and events ----------------------------------------------------------------

#[test]
fn copying_a_password_runs_a_job_then_copies() {
    let mut app = vault(vec![login_item("id7", "Bank", Some("me"), None)], vec![]);
    let e = app.copy_password();
    match e {
        Effect::Run(BwJob::CopyPassword { id, item_name, session }) => {
            assert_eq!(id, "id7");
            assert_eq!(item_name, "Bank");
            assert_eq!(session, "key");
        }
        _ => panic!("expected a CopyPassword job"),
    }
    assert!(app.busy);
    let e = app.apply_bw_event(BwEvent::PasswordCopied { item_name: "Bank".into(), result: Ok("pw".into()) });
    match e {
        Effect::Copy(job) => assert_eq!(job.text, "pw"),
        _ => panic!("expected a copy"),
    }
    assert!(!app.busy);
}

#[test]
fn start_flow_uses_a_cached_session() {
    let (flow, call) = compute_start();
    assert!(matches!(call, BwCall::LoadCachedSession));
    let (flow, next) = flow.advance(BwReply::CachedSession(Some(("k".into(), 5))));
    assert!(matches!(next, Next::Call(BwCall::ListItems { ref session }) if session == "k"));
    let (flow, next) = flow.advance(BwReply::Items(Ok(vec![login_item("1", "A", None, None)])));
    assert!(matches!(next, Next::Call(BwCall::ListFolders { .. })));
    let (flow, next) = flow.advance(BwReply::Folders(Err("no folders".into())));
    assert!(matches!(flow, Flow::Finished));
    match next {
        Next::Done(FlowResult::Start(StartOutcome::Vault(VaultLoad { key, ts, items, folders }))) => {
            assert_eq!(key, "k");
            assert_eq!(ts, 5);
            assert_eq!(items.len(), 1);
            assert!(folders.is_empty());
        }
        _ => panic!("expected the vault"),
    }
}

#[test]
fn start_flow_without_cache_asks_status() {
    let (flow, _) = compute_start();
    let (flow, next) = flow.advance(BwReply::CachedSession(None));
    assert!(matches!(next, Next::Call(BwCall::Status)));
    let status = Status { server_url: None, last_sync: None, user_email: None, status: "unauthenticated".into() };
    let (_, next) = flow.advance(BwReply::Status(Ok(status)));
    assert!(matches!(next, Next::Done(FlowResult::Start(StartOutcome::NeedsServerConfig(_)))));
}

#[test]
fn unlock_screen_submits_the_password() {
    let mut app = App::new(Config::default());
    app.screen = Screen::Unlock { email: None, password: String::new(), error: None, busy: false, relock_message: None };
    assert!(matches!(press(&mut app, KeyCode::Enter), Effect::Nothing), "an empty password is not sent");
    for c in "pw".chars() {
        press(&mut app, KeyCode::Char(c));
    }
    match press(&mut app, KeyCode::Enter) {
        Effect::Run(BwJob::Unlock { password }) => assert_eq!(password, "pw"),
        _ => panic!("expected an unlock job"),
    }
}

#[test]
fn failed_jobs_are_reported() {
    let mut app = vault(vec![login_item("1", "A", None, None)], vec![]);
    app.apply_bw_event(BwEvent::ItemsRefreshed(Err("offline".into())));
    assert_eq!(app.status.as_ref().map(|m| m.text.clone()), Some("⚠️ Could not refresh: offline".to_string()));
    app.apply_bw_event(BwEvent::PasswordCopied { item_name: "A".into(), result: Ok(String::new()) });
    assert_eq!(app.status.as_ref().map(|m| m.text.clone()), Some("⚠️ This item has no password".to_string()));
    app.apply_bw_event(BwEvent::TotpCopied { item_name: "A".into(), result: Err("no totp".into()) });
    assert_eq!(app.status.as_ref().map(|m| m.text.clone()), Some("⚠️ no totp".to_string()));
}

#[test]
fn unlock_flow_stops_at_the_first_error() {
    let (flow, call) = bw_tui::flows::unlock_and_load("pw".into());
    assert!(matches!(call, BwCall::Unlock { ref password } if password == "pw"));
    let (flow, next) = flow.advance(BwReply::Unlocked(Err("wrong master password".into())));
    assert!(matches!(flow, Flow::Finished));
    assert!(matches!(next, Next::Done(FlowResult::Unlock(Err(ref e))) if e == "wrong master password"));
}

#[test]
fn item_edits_keep_other_keys_and_check_shapes() {
    use_item_json_edits();
}

fn use_item_json_edits() {
    let patch = bw_tui::model::ItemPatch {
        name: "New".into(),
        notes: None,
        folder_id: Some("f".into()),
        login: Some(bw_tui::model::NewLogin { username: Some("bob".into()), password: None }),
        card: None,
        identity: None,
    };
    let json = ItemJson {
        entries: vec![
            ("id".to_string(), JsonEntry::Text("x".into())),
            ("name".to_string(), JsonEntry::Text("Old".into())),
            ("type".to_string(), JsonEntry::Kept(0)),
            ("notes".to_string(), JsonEntry::Text("n".into())),
            (
                "login".to_string(),
                JsonEntry::Object(vec![
                    ("username".to_string(), JsonLeaf::Text("al".into())),
                    ("uris".to_string(), JsonLeaf::Kept(1)),
                ]),
            ),
        ],
    };
    let out = apply_edits(Some(json), patch_edits_of(&patch)).expect("the item is an object");
    let keys: Vec<&str> = out.entries.iter().map(|(k, _)| k.as_str()).collect();
    assert_eq!(keys, vec!["id", "name", "type", "notes", "login", "folderId"]);
    assert!(matches!(&out.entries[1].1, JsonEntry::Text(s) if s == "New"));
    assert!(matches!(&out.entries[2].1, JsonEntry::Kept(0)));
    assert!(matches!(&out.entries[3].1, JsonEntry::Null));
    match &out.entries[4].1 {
        JsonEntry::Object(fields) => {
            assert_eq!(fields.len(), 2);
            assert!(matches!(&fields[0].1, JsonLeaf::Text(s) if s == "bob"));
            assert!(matches!(&fields[1].1, JsonLeaf::Kept(1)));
        }
        _ => panic!("login stays an object"),
    }

    let missing = ItemJson { entries: vec![] };
    let out = apply_edits(Some(missing), patch_edits_of(&patch)).expect("sections are created");
    assert!(matches!(&out.entries[3].1, JsonEntry::Object(f) if f.len() == 1));

    let wrong = ItemJson { entries: vec![("login".to_string(), JsonEntry::Kept(3))] };
    assert_eq!(apply_edits(Some(wrong), patch_edits_of(&patch)).err(), Some("unexpected login shape from bw".to_string()));
    assert_eq!(apply_edits(None, patch_edits_of(&patch)).err(), Some("unexpected item shape from bw".to_string()));
}

#[test]
fn cached_session_start_lands_in_the_vault_list() {
    let mut app = App::new(Config::default());
    app.tab = Tab::Account;
    app.busy = true;
    app.busy_label = Some("Logging out…".into());
    let load = VaultLoad {
        key: "k".into(),
        ts: 7,
        items: vec![login_item("1", "A", None, None), login_item("2", "B", None, None)],
        folders: vec![],
    };
    app.apply_bw_event(BwEvent::LoggedOut(Ok(StartOutcome::Vault(load))));
    assert!(matches!(app.screen, Screen::Main));
    assert_eq!(app.tab, Tab::Vault);
    assert_eq!(app.folder_index, 0);
    assert_eq!(app.filtered, vec![0, 1]);
    assert!(!app.busy);
    assert!(app.busy_label.is_none());
    assert_eq!(app.session.as_deref(), Some("k"));
}
