//! The program's state and the transitions that do not depend on a key:
//! entering and leaving the vault, the folder filter and search, the list
//! cursor, copying and revealing secrets, the generator and the account
//! actions.
use vstd::prelude::*;
use crate::arith::wrap_index;
use crate::config::Config;
use crate::effects::{autoclear_note, autoclear_note_spec, BwJob, CopyJob, Effect};
use crate::form::ItemForm;
use crate::model::{opt_view, Folder, GenerateOptions, Item, Status};
use crate::search::{filter_items, filter_result};
use crate::text::{concat, concat3, to_string, trim, trim_spec};

verus! {

/// The focused field of the login screen.
#[derive(Clone, Copy, PartialEq, Eq, Structural, Debug)]
pub enum LoginField {
    Email,
    Password,
}

/// The two-step login method.
#[derive(Clone, Copy, PartialEq, Eq, Structural, Debug)]
pub enum TwoFactorMethod {
    Authenticator,
    Email,
}

impl TwoFactorMethod {
    /// The number `bw login --method` takes for a method.
    pub open spec fn code_spec(self) -> Seq<char> {
        match self {
            TwoFactorMethod::Authenticator => "0"@,
            TwoFactorMethod::Email => "1"@,
        }
    }

    pub open spec fn toggled_spec(self) -> TwoFactorMethod {
        match self {
            TwoFactorMethod::Authenticator => TwoFactorMethod::Email,
            TwoFactorMethod::Email => TwoFactorMethod::Authenticator,
        }
    }

    pub fn code(self) -> (r: &'static str)
        ensures
            r@ == self.code_spec(),
    {
        match self {
            TwoFactorMethod::Authenticator => "0",
            TwoFactorMethod::Email => "1",
        }
    }

    pub fn label(self) -> (r: &'static str)
        ensures
            r@ == (match self {
                TwoFactorMethod::Authenticator => "Authenticator app"@,
                TwoFactorMethod::Email => "Email"@,
            }),
    {
        match self {
            TwoFactorMethod::Authenticator => "Authenticator app",
            TwoFactorMethod::Email => "Email",
        }
    }

    pub fn toggled(self) -> (r: TwoFactorMethod)
        ensures
            r == self.toggled_spec(),
    {
        match self {
            TwoFactorMethod::Authenticator => TwoFactorMethod::Email,
            TwoFactorMethod::Email => TwoFactorMethod::Authenticator,
        }
    }
}

/// The screen on show.
pub enum Screen {
    /// Not logged in: asks for the server URL.
    ServerConfig { url: String, error: Option<String>, busy: bool },
    /// Logging in, possibly waiting for a two-step code.
    Login {
        email: String,
        password: String,
        focus: LoginField,
        awaiting_2fa: bool,
        code: String,
        method: TwoFactorMethod,
        error: Option<String>,
        busy: bool,
    },
    /// Logged in but locked: asks for the master password.
    Unlock {
        email: Option<String>,
        password: String,
        error: Option<String>,
        busy: bool,
        relock_message: Option<String>,
    },
    /// Deciding the first screen.
    Loading,
    /// The tabs.
    Main,
}

/// A tab of the main screen.
#[derive(Clone, Copy, PartialEq, Eq, Structural, Debug)]
pub enum Tab {
    Vault,
    Generator,
    Account,
}

impl Tab {
    pub open spec fn next_spec(self) -> Tab {
        match self {
            Tab::Vault => Tab::Generator,
            Tab::Generator => Tab::Account,
            Tab::Account => Tab::Vault,
        }
    }

    pub open spec fn prev_spec(self) -> Tab {
        match self {
            Tab::Vault => Tab::Account,
            Tab::Generator => Tab::Vault,
            Tab::Account => Tab::Generator,
        }
    }

    pub fn next(self) -> (r: Tab)
        ensures
            r == self.next_spec(),
    {
        match self {
            Tab::Vault => Tab::Generator,
            Tab::Generator => Tab::Account,
            Tab::Account => Tab::Vault,
        }
    }

    pub fn prev(self) -> (r: Tab)
        ensures
            r == self.prev_spec(),
    {
        match self {
            Tab::Vault => Tab::Account,
            Tab::Generator => Tab::Vault,
            Tab::Account => Tab::Generator,
        }
    }
}

/// The input mode of the vault tab: single-key motions, or typing a search.
#[derive(Clone, Copy, PartialEq, Eq, Structural, Debug)]
pub enum VaultMode {
    Normal,
    Search,
}

/// The generator's options and its last result or error.
pub struct GeneratorState {
    pub opts: GenerateOptions,
    pub result: Option<String>,
    pub error: Option<String>,
}

/// A status-bar message and when it was shown (milliseconds, on the
/// driver's clock).
pub struct StatusMsg {
    pub text: String,
    pub shown_at: u64,
}

/// The whole state of the program.
pub struct App {
    pub screen: Screen,
    pub tab: Tab,
    pub session: Option<String>,
    pub session_started: u64,
    pub items: Vec<Item>,
    /// Indices into `items` of the listed items, in display order.
    pub filtered: Vec<usize>,
    pub folders: Vec<Folder>,
    /// 0 is "All", 1 is "No folder", `i + 2` is `folders[i]`.
    pub folder_index: usize,
    /// Whether the folder bar is shown (`f` hides and shows it).
    pub show_folders: bool,
    pub vault_mode: VaultMode,
    /// A first `g` was typed; a second one jumps to the top.
    pub pending_g: bool,
    pub query: String,
    /// Position in `filtered` of the selected item.
    pub selected: usize,
    pub status: Option<StatusMsg>,
    pub should_quit: bool,
    /// The id of the item whose secret is shown, and the secret.
    pub reveal: Option<(String, String)>,
    pub reveal_cvv: Option<String>,
    pub detail_open: bool,
    pub item_form: Option<ItemForm>,
    pub server_status: Option<Status>,
    pub generator: GeneratorState,
    pub confirm_logout: bool,
    pub busy: bool,
    pub busy_label: Option<String>,
    pub tick_count: u64,
    pub config: Config,
    /// The driver's clock at the last tick, in milliseconds.
    pub clock_ms: u64,
    /// Whether the clipboard can be cleared after a copy on this host.
    pub autoclear_supported: bool,
}

/// The spinner frame for a tick.
pub open spec fn spinner_spec(tick: u64) -> Seq<char> {
    let f = tick % 10;
    if f == 0 { "⠋"@ }
    else if f == 1 { "⠙"@ }
    else if f == 2 { "⠹"@ }
    else if f == 3 { "⠸"@ }
    else if f == 4 { "⠼"@ }
    else if f == 5 { "⠴"@ }
    else if f == 6 { "⠦"@ }
    else if f == 7 { "⠧"@ }
    else if f == 8 { "⠇"@ }
    else { "⠏"@ }
}

/// The folder-bar label of an entry.
pub open spec fn folder_label_spec(folders: Seq<Folder>, index: usize) -> Seq<char> {
    if index == 0 {
        "All"@
    } else if index == 1 {
        "No folder"@
    } else if index - 2 < folders.len() {
        folders[index - 2].name@
    } else {
        Seq::empty()
    }
}

/// The selection after the list was rebuilt with `len` entries: kept when
/// still inside the list, else moved to the last entry (or 0).
pub open spec fn clamp_selection(selected: usize, len: nat) -> usize {
    if selected >= len {
        if len == 0 { 0 } else { (len - 1) as usize }
    } else {
        selected
    }
}

/// A blank login screen, focused on the email.
pub open spec fn is_blank_login(s: Screen) -> bool {
    s matches Screen::Login { email, password, focus, awaiting_2fa, code, method, error, busy }
        && email@.len() == 0 && password@.len() == 0 && focus == LoginField::Email && !awaiting_2fa
        && code@.len() == 0 && method == TwoFactorMethod::Authenticator && error is None && !busy
}

/// The message shown when a `bw` call failed.
pub open spec fn warn_spec(e: Seq<char>) -> Seq<char> {
    "⚠️ "@ + e
}

fn warn(e: &str) -> (r: String)
    ensures
        r@ == warn_spec(e@),
{
    concat("⚠️ ", e)
}

pub fn blank_login() -> (r: Screen)
    ensures
        is_blank_login(r),
{
    Screen::Login {
        email: String::new(),
        password: String::new(),
        focus: LoginField::Email,
        awaiting_2fa: false,
        code: String::new(),
        method: TwoFactorMethod::Authenticator,
        error: None,
        busy: false,
    }
}

impl App {
    /// The lists agree: every listed index names an item, and the selection
    /// is inside a non-empty list.
    pub open spec fn wf(&self) -> bool {
        &&& forall|k: int| 0 <= k < self.filtered@.len() ==> #[trigger] self.filtered@[k] < self.items@.len()
        &&& self.filtered@.len() > 0 ==> self.selected < self.filtered@.len()
    }

    /// The selected item, if the list is not empty.
    pub open spec fn selected_spec(&self) -> Option<Item> {
        if self.selected < self.filtered@.len() {
            Some(self.items@[self.filtered@[self.selected as int] as int])
        } else {
            None
        }
    }

    /// The status bar shows `text`, stamped with the current clock.
    pub open spec fn shows(&self, text: Seq<char>) -> bool {
        self.status matches Some(m) && m.text@ == text && m.shown_at == self.clock_ms
    }

    /// The note appended to "copied" messages.
    pub open spec fn note_spec(&self) -> Seq<char> {
        autoclear_note_spec(self.autoclear_supported, self.config.clipboard_clear_secs)
    }

    /// The state with `status` taken from `other`.
    pub open spec fn with_status_of(self, other: App) -> App {
        App { status: other.status, ..self }
    }

    /// The state after a selection move: the secrets and the detail popup close.
    pub open spec fn with_selection(self, selected: usize) -> App {
        App { selected, reveal: None, reveal_cvv: None, detail_open: false, ..self }
    }

    /// A fresh state on the loading screen.
    pub fn new(config: Config) -> (r: App)
        ensures
            r.screen is Loading,
            r.tab == Tab::Vault,
            r.session is None,
            r.session_started == 0,
            r.items@.len() == 0,
            r.filtered@.len() == 0,
            r.folders@.len() == 0,
            r.folder_index == 0,
            r.show_folders,
            r.vault_mode == VaultMode::Normal,
            !r.pending_g,
            r.query@.len() == 0,
            r.selected == 0,
            r.status is None,
            !r.should_quit,
            r.reveal is None,
            r.reveal_cvv is None,
            !r.detail_open,
            r.item_form is None,
            r.server_status is None,
            r.generator.opts == config.generator,
            r.generator.result is None,
            r.generator.error is None,
            !r.confirm_logout,
            !r.busy,
            r.busy_label is None,
            r.tick_count == 0,
            r.config == config,
            r.clock_ms == 0,
            r.autoclear_supported,
            r.wf(),
    {
        let opts = config.generator;
        App {
            screen: Screen::Loading,
            tab: Tab::Vault,
            session: None,
            session_started: 0,
            items: Vec::new(),
            filtered: Vec::new(),
            folders: Vec::new(),
            folder_index: 0,
            show_folders: true,
            vault_mode: VaultMode::Normal,
            pending_g: false,
            query: String::new(),
            selected: 0,
            status: None,
            should_quit: false,
            reveal: None,
            reveal_cvv: None,
            detail_open: false,
            item_form: None,
            server_status: None,
            generator: GeneratorState { opts, result: None, error: None },
            confirm_logout: false,
            busy: false,
            busy_label: None,
            tick_count: 0,
            config,
            clock_ms: 0,
            autoclear_supported: true,
        }
    }

    /// Asks for the first screen.
    pub fn start(&mut self) -> (r: Effect)
        ensures
            *final(self) == (App { screen: Screen::Loading, ..*old(self) }),
            r matches Effect::Run(BwJob::ComputeStart),
    {
        self.screen = Screen::Loading;
        Effect::Run(BwJob::ComputeStart)
    }

    pub fn set_status(&mut self, text: String)
        ensures
            *final(self) == (App { status: Some(StatusMsg { text, shown_at: old(self).clock_ms }), ..*old(self) }),
    {
        self.status = Some(StatusMsg { text, shown_at: self.clock_ms });
    }

    pub fn spinner(&self) -> (r: &'static str)
        ensures
            r@ == spinner_spec(self.tick_count),
    {
        let f = self.tick_count % 10;
        if f == 0 { "⠋" }
        else if f == 1 { "⠙" }
        else if f == 2 { "⠹" }
        else if f == 3 { "⠸" }
        else if f == 4 { "⠼" }
        else if f == 5 { "⠴" }
        else if f == 6 { "⠦" }
        else if f == 7 { "⠧" }
        else if f == 8 { "⠇" }
        else { "⠏" }
    }

    /// Seconds since the session was created.
    pub fn session_age(&self, now_secs: u64) -> (r: u64)
        ensures
            r == (if now_secs >= self.session_started { (now_secs - self.session_started) as u64 } else { 0 }),
    {
        now_secs.saturating_sub(self.session_started)
    }

    /// Seconds left before the session expires.
    pub fn session_remaining(&self, now_secs: u64) -> (r: u64)
        ensures
            ({
                let age = if now_secs >= self.session_started { now_secs - self.session_started } else { 0 };
                r == (if self.config.session_max_age_secs >= age { (self.config.session_max_age_secs - age) as u64 } else { 0 })
            }),
    {
        let age = self.session_age(now_secs);
        self.config.session_max_age_secs.saturating_sub(age)
    }

    /// The expired-session rule: on the main screen, a session older than
    /// the configured maximum locks the vault.
    pub open spec fn session_expired(&self, now_secs: u64) -> bool {
        self.screen is Main
            && (if now_secs >= self.session_started { now_secs - self.session_started } else { 0 })
                > self.config.session_max_age_secs
    }

    /// One tick of the driver's clock: advances the spinner, drops a status
    /// message older than four seconds, and locks an expired session.
    pub fn on_tick(&mut self, now_ms: u64, now_secs: u64) -> (r: Effect)
        requires
            old(self).wf(),
        ensures
            final(self).wf(),
            final(self).tick_count == (if old(self).tick_count == u64::MAX { 0 } else { (old(self).tick_count + 1) as u64 }),
            final(self).clock_ms == now_ms,
            ({
                let status_after = match old(self).status {
                    Some(m) => if now_ms >= m.shown_at && now_ms - m.shown_at > 4000 { None } else { old(self).status },
                    None => None,
                };
                let ticked = App {
                    tick_count: final(self).tick_count,
                    clock_ms: now_ms,
                    status: status_after,
                    ..*old(self)
                };
                if old(self).session_expired(now_secs) {
                    &&& r is ClearSession
                    &&& final(self).locked_from(ticked, "🔒 Session expired, enter your master password again:"@)
                } else {
                    &&& r is Nothing
                    &&& *final(self) == ticked
                }
            }),
    {
        self.tick_count = self.tick_count.wrapping_add(1);
        self.clock_ms = now_ms;
        let expired = match &self.status {
            Some(m) => now_ms >= m.shown_at && now_ms - m.shown_at > 4000,
            None => false,
        };
        if expired {
            self.status = None;
        }
        let age = self.session_age(now_secs);
        if matches!(self.screen, Screen::Main) && age > self.config.session_max_age_secs {
            return self.relock("🔒 Session expired, enter your master password again:");
        }
        Effect::Nothing
    }

    /// The state `self` is `before` locked with `message`: the session, the
    /// lists, the query and the secrets are gone, and the unlock screen
    /// asks for the master password of the account it knew.
    pub open spec fn locked_from(&self, before: App, message: Seq<char>) -> bool {
        &&& self.session is None
        &&& self.items@.len() == 0
        &&& self.filtered@.len() == 0
        &&& self.folders@.len() == 0
        &&& self.query@.len() == 0
        &&& self.screen matches Screen::Unlock { email, password, error, busy, relock_message }
            && opt_view(email) == (match before.server_status { Some(s) => opt_view(s.user_email), None => None })
            && password@.len() == 0 && error is None && !busy
            && relock_message is Some && relock_message->0@ == message
        &&& *self == (App {
            screen: self.screen,
            session: None,
            items: self.items,
            filtered: self.filtered,
            folders: self.folders,
            query: self.query,
            reveal: None,
            reveal_cvv: None,
            detail_open: false,
            ..before
        })
    }

    /// Locks the vault: forgets the session and its data and shows the
    /// unlock screen with `message`.
    pub fn relock(&mut self, message: &str) -> (r: Effect)
        ensures
            final(self).locked_from(*old(self), message@),
            final(self).wf(),
            r is ClearSession,
    {
        let email = match &self.server_status {
            Some(s) => match &s.user_email {
                Some(e) => Some(e.clone()),
                None => None,
            },
            None => None,
        };
        self.session = None;
        self.items = Vec::new();
        self.filtered = Vec::new();
        self.folders = Vec::new();
        self.query = String::new();
        self.reveal = None;
        self.reveal_cvv = None;
        self.detail_open = false;
        self.screen = Screen::Unlock {
            email,
            password: String::new(),
            error: None,
            busy: false,
            relock_message: Some(to_string(message)),
        };
        Effect::ClearSession
    }

    /// Enters the vault with a session key and what it unlocked.
    /// What `enter_vault` does, from `self` to `after`.
    pub open spec fn enter_vault_post(self, after: App, key: String, ts: u64, items: Vec<Item>, folders: Vec<Folder>) -> bool {
        &&& (after.wf())
        &&& (filter_result(after.filtered@, items@, folders@, 0, self.query@))
        &&& (after.selected == clamp_selection(self.selected, after.filtered@.len()))
        &&& (after == (App {
                screen: Screen::Main,
                tab: Tab::Vault,
                session: Some(key),
                session_started: ts,
                items,
                filtered: after.filtered,
                folders,
                folder_index: 0,
                show_folders: true,
                vault_mode: VaultMode::Normal,
                selected: after.selected,
                reveal: None,
                reveal_cvv: None,
                detail_open: false,
                ..self
            }))
    }

    pub fn enter_vault(&mut self, key: String, ts: u64, items: Vec<Item>, folders: Vec<Folder>)
        ensures
            old(self).enter_vault_post(*final(self), key, ts, items, folders),
            final(self).wf(),
    {
        self.folders = folders;
        self.session = Some(key);
        self.session_started = ts;
        self.items = items;
        self.folder_index = 0;
        self.show_folders = true;
        self.vault_mode = VaultMode::Normal;
        self.reveal = None;
        self.reveal_cvv = None;
        self.detail_open = false;
        self.refilter();
        self.screen = Screen::Main;
        self.tab = Tab::Vault;
    }

    /// Rebuilds the list from the folder entry and the query, keeps the
    /// selection inside it, and closes any shown secret and the popup.
    /// What `refilter` does, from `self` to `after`.
    pub open spec fn refilter_post(self, after: App) -> bool {
        &&& (after.wf())
        &&& (filter_result(after.filtered@, self.items@, self.folders@, self.folder_index, self.query@))
        &&& (after.selected == clamp_selection(self.selected, after.filtered@.len()))
        &&& (after == (App {
                filtered: after.filtered,
                selected: after.selected,
                reveal: None,
                reveal_cvv: None,
                detail_open: false,
                ..self
            }))
    }

    pub fn refilter(&mut self)
        ensures
            old(self).refilter_post(*final(self)),
            final(self).wf(),
    {
        let filtered = filter_items(&self.items, &self.folders, self.folder_index, self.query.as_str());
        self.filtered = filtered;
        if self.selected >= self.filtered.len() {
            self.selected = self.filtered.len().saturating_sub(1);
        }
        self.reveal = None;
        self.reveal_cvv = None;
        self.detail_open = false;
    }

    pub fn selected_item(&self) -> (r: Option<&Item>)
        requires
            self.wf(),
        ensures
            r matches Some(it) ==> self.selected_spec() == Some(*it),
            r is None <==> self.selected_spec() is None,
    {
        if self.selected < self.filtered.len() {
            let i = self.filtered[self.selected];
            Some(&self.items[i])
        } else {
            None
        }
    }

    /// Moves the selection `delta` places, wrapping around the list.
    /// What `move_selection` does, from `self` to `after`.
    pub open spec fn move_selection_post(self, after: App, delta: i32) -> bool {
        &&& (after.wf())
        &&& (self.filtered@.len() == 0 ==> after == self)
        &&& (self.filtered@.len() > 0 ==> after == self.with_selection(
                ((self.selected + delta) % (self.filtered@.len() as int)) as usize))
    }

    pub fn move_selection(&mut self, delta: i32)
        requires
            old(self).wf(),
        ensures
            old(self).move_selection_post(*final(self), delta),
            final(self).wf(),
    {
        if self.filtered.len() == 0 {
            return;
        }
        self.selected = wrap_index(self.selected, delta, self.filtered.len());
        self.reveal = None;
        self.reveal_cvv = None;
        self.detail_open = false;
    }

    /// What `toggle_folder_bar` does, from `self` to `after`.
    pub open spec fn toggle_folder_bar_post(self, after: App) -> bool {
        &&& (after == (App { show_folders: !self.show_folders, ..self }))
    }

    pub fn toggle_folder_bar(&mut self)
        ensures
            old(self).toggle_folder_bar_post(*final(self)),
    {
        self.show_folders = !self.show_folders;
    }

    /// Moves to the folder entry `delta` places away ("All", "No folder",
    /// then each folder), wrapping around, and rebuilds the list.
    /// What `cycle_folder` does, from `self` to `after`.
    pub open spec fn cycle_folder_post(self, after: App, delta: i32) -> bool {
        &&& (after.wf())
        &&& (after.folder_index as int
                == (self.folder_index + delta) % ((self.folders@.len() + 2) as int))
        &&& (filter_result(after.filtered@, self.items@, self.folders@, after.folder_index, self.query@))
        &&& (after.selected == clamp_selection(self.selected, after.filtered@.len()))
        &&& (after == (App {
                folder_index: after.folder_index,
                filtered: after.filtered,
                selected: after.selected,
                reveal: None,
                reveal_cvv: None,
                detail_open: false,
                ..self
            }))
    }

    pub fn cycle_folder(&mut self, delta: i32)
        requires
            old(self).folders@.len() + 2 <= usize::MAX,
        ensures
            old(self).cycle_folder_post(*final(self), delta),
            final(self).wf(),
    {
        let total = self.folders.len() + 2;
        self.folder_index = wrap_index(self.folder_index, delta, total);
        self.refilter();
    }

    pub fn folder_label(&self, index: usize) -> (r: String)
        ensures
            r@ == folder_label_spec(self.folders@, index),
    {
        if index == 0 {
            to_string("All")
        } else if index == 1 {
            to_string("No folder")
        } else if index - 2 < self.folders.len() {
            self.folders[index - 2].name.clone()
        } else {
            String::new()
        }
    }

    /// Reports the outcome of a clipboard copy asked for by an
    /// `Effect::Copy`: the success message, or the error.
    pub fn finish_copy(&mut self, success: String, result: Result<(), String>)
        ensures
            *final(self) == old(self).with_status_of(*final(self)),
            result is Ok ==> final(self).shows(success@),
            result matches Err(e) ==> final(self).shows(warn_spec(e@)),
    {
        match result {
            Ok(()) => self.set_status(success),
            Err(e) => {
                let msg = warn(e.as_str());
                self.set_status(msg);
            },
        }
    }
}

} // verus!
