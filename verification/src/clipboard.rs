//! The clipboard rules: which host the program runs on, which tool copies,
//! what the clipboard reads back as, and the job that clears a copied
//! secret again after a delay.
//!
//! The driver runs the tools and the clock; the clearing job is a state
//! machine that [`Autoclear::step`] advances from one event to the next.
use vstd::prelude::*;
use crate::text::{concat3, contains, contains_spec, push_char, str_eq, string_from_chars, chars_of};

verus! {

// ---- the host -------------------------------------------------------------------

/// A character with ASCII capitals made small, as `char::to_ascii_lowercase` does.
pub open spec fn ascii_lower(c: char) -> char {
    if 'A' <= c && c <= 'Z' { ((c as u32) + 32) as char } else { c }
}

/// A text with ASCII capitals made small.
pub open spec fn ascii_lowercase_spec(s: Seq<char>) -> Seq<char> {
    s.map_values(|c: char| ascii_lower(c))
}

fn lower_char(c: char) -> (r: char)
    ensures
        r == ascii_lower(c),
{
    if 'A' <= c && c <= 'Z' {
        let b = (c as u32) as u8;
        assert(b as u32 == c as u32);
        let r = (b + 32) as char;
        assert(r as u32 == b as u32 + 32);
        r
    } else {
        c
    }
}

/// `str::to_ascii_lowercase`, character by character.
pub fn ascii_lowercase(s: &str) -> (r: String)
    ensures
        r@ == ascii_lowercase_spec(s@),
{
    let chars = chars_of(s);
    let mut out = String::new();
    let mut i: usize = 0;
    while i < chars.len()
        invariant
            i <= chars@.len(),
            chars@ == s@,
            out@ == ascii_lowercase_spec(s@.subrange(0, i as int)),
        decreases chars@.len() - i,
    {
        push_char(&mut out, lower_char(chars[i]));
        i = i + 1;
        assert(out@ =~= ascii_lowercase_spec(s@.subrange(0, i as int)));
    }
    assert(s@.subrange(0, i as int) =~= s@);
    out
}

/// Whether the program runs under WSL: either WSL variable is set
/// (`WSL_DISTRO_NAME`, `WSL_INTEROP`), or `/proc/version`, read and
/// lowercased, names Microsoft.
pub open spec fn wsl_detected_spec(distro_set: bool, interop_set: bool, proc_version: Option<Seq<char>>) -> bool {
    distro_set || interop_set || (proc_version matches Some(v) && contains_spec(ascii_lowercase_spec(v), "microsoft"@))
}

pub fn wsl_detected(distro_set: bool, interop_set: bool, proc_version: Option<&str>) -> (r: bool)
    ensures
        r == wsl_detected_spec(distro_set, interop_set, crate::model::opt_str_view(proc_version)),
{
    if distro_set || interop_set {
        return true;
    }
    match proc_version {
        Some(v) => {
            let lower = ascii_lowercase(v);
            contains(lower.as_str(), "microsoft")
        },
        None => false,
    }
}

/// The tool that puts text on the clipboard.
#[derive(Clone, Copy, PartialEq, Eq, Structural, Debug)]
pub enum ClipboardTool {
    /// `win32yank.exe -i`, under WSL when it is installed.
    Win32yank,
    /// `clip.exe`, under WSL otherwise.
    ClipExe,
    /// `wl-copy`, on a Wayland host.
    WlCopy,
}

pub open spec fn copy_tool_spec(wsl: bool, win32yank: bool) -> ClipboardTool {
    if wsl {
        if win32yank { ClipboardTool::Win32yank } else { ClipboardTool::ClipExe }
    } else {
        ClipboardTool::WlCopy
    }
}

pub fn copy_tool(wsl: bool, win32yank: bool) -> (r: ClipboardTool)
    ensures
        r == copy_tool_spec(wsl, win32yank),
{
    if wsl {
        if win32yank { ClipboardTool::Win32yank } else { ClipboardTool::ClipExe }
    } else {
        ClipboardTool::WlCopy
    }
}

impl ClipboardTool {
    /// The program to run.
    pub fn program(self) -> (r: &'static str)
        ensures
            r@ == (match self {
                ClipboardTool::Win32yank => "win32yank.exe"@,
                ClipboardTool::ClipExe => "clip.exe"@,
                ClipboardTool::WlCopy => "wl-copy"@,
            }),
    {
        match self {
            ClipboardTool::Win32yank => "win32yank.exe",
            ClipboardTool::ClipExe => "clip.exe",
            ClipboardTool::WlCopy => "wl-copy",
        }
    }

    /// Its arguments for copying: `-i` for win32yank, none otherwise.
    pub fn copy_args(self) -> (r: Vec<&'static str>)
        ensures
            self == ClipboardTool::Win32yank ==> r@.len() == 1 && r@[0]@ == "-i"@,
            self != ClipboardTool::Win32yank ==> r@.len() == 0,
    {
        match self {
            ClipboardTool::Win32yank => {
                let v = vec!["-i"];
                v
            },
            _ => Vec::new(),
        }
    }

    /// What to check when the tool cannot be started.
    pub fn hint(self) -> (r: &'static str)
        ensures
            r@ == (match self {
                ClipboardTool::Win32yank => "is win32yank.exe on PATH?"@,
                ClipboardTool::ClipExe => "is Windows interop enabled?"@,
                ClipboardTool::WlCopy => "are you in a Wayland session?"@,
            }),
    {
        match self {
            ClipboardTool::Win32yank => "is win32yank.exe on PATH?",
            ClipboardTool::ClipExe => "is Windows interop enabled?",
            ClipboardTool::WlCopy => "are you in a Wayland session?",
        }
    }
}

/// Whether a copied secret can be cleared again: not under WSL without
/// win32yank, which has no way to read the clipboard back.
pub open spec fn autoclear_supported_spec(wsl: bool, win32yank: bool) -> bool {
    !(wsl && !win32yank)
}

pub fn autoclear_supported(wsl: bool, win32yank: bool) -> (r: bool)
    ensures
        r == autoclear_supported_spec(wsl, win32yank),
{
    !(wsl && !win32yank)
}

/// `s` without its trailing carriage returns and line feeds.
pub open spec fn trim_line_ends(s: Seq<char>) -> Seq<char>
    decreases s.len(),
{
    if s.len() > 0 && (s.last() == '\r' || s.last() == '\n') { trim_line_ends(s.drop_last()) } else { s }
}

/// What the clipboard holds, from the paste tool's output: under WSL
/// (win32yank) without the trailing line ends Windows adds; on Wayland
/// (`wl-paste -n`) as it is.
pub open spec fn clipboard_text_spec(wsl: bool, raw: Seq<char>) -> Seq<char> {
    if wsl { trim_line_ends(raw) } else { raw }
}

pub fn clipboard_text(wsl: bool, raw: &str) -> (r: String)
    ensures
        r@ == clipboard_text_spec(wsl, raw@),
{
    let chars = chars_of(raw);
    if !wsl {
        return string_from_chars(&chars, 0, chars.len());
    }
    let mut end = chars.len();
    assert(raw@.subrange(0, chars@.len() as int) =~= raw@);
    while end > 0 && (chars[end - 1] == '\r' || chars[end - 1] == '\n')
        invariant
            end <= chars@.len(),
            chars@ == raw@,
            trim_line_ends(raw@) == trim_line_ends(raw@.subrange(0, end as int)),
        decreases end,
    {
        assert(raw@.subrange(0, end as int).drop_last() =~= raw@.subrange(0, end - 1));
        end = end - 1;
    }
    string_from_chars(&chars, 0, end)
}

// ---- clearing a copied secret ----------------------------------------------------------

/// How long the job sleeps between two looks at the clipboard history.
pub const POLL_MS: u64 = 300;

/// Where the clearing job stands.
#[derive(Clone, Copy, PartialEq, Eq, Structural, Debug)]
pub enum AutoclearPhase {
    /// Waiting to hear whether the secret is in the clipboard history.
    Checking,
    /// Waiting for the history to be purged, before the deadline.
    Purging,
    /// Waiting for a sleep to end.
    Waiting,
    /// Waiting for the history to be purged at the deadline.
    FinalPurge,
    /// Waiting for the clipboard's content.
    Reading,
    /// Waiting for the clipboard to be cleared.
    Clearing,
    /// Waiting for the notification to be sent.
    Notifying,
    /// Done.
    Finished,
}

/// How far a phase is on the way to the end; the first three repeat.
pub open spec fn phase_rank(p: AutoclearPhase) -> int {
    match p {
        AutoclearPhase::Checking => 0,
        AutoclearPhase::Purging => 0,
        AutoclearPhase::Waiting => 0,
        AutoclearPhase::FinalPurge => 1,
        AutoclearPhase::Reading => 2,
        AutoclearPhase::Clearing => 3,
        AutoclearPhase::Notifying => 4,
        AutoclearPhase::Finished => 5,
    }
}

/// The clearing job of one copied secret. On WSL the clipboard history is
/// left alone (Windows keeps its own) and no notification is sent.
pub struct Autoclear {
    pub wsl: bool,
    /// Milliseconds left before the clipboard is cleared.
    pub remaining_ms: u64,
    /// Whether the secret was already purged from the history before the deadline.
    pub purged: bool,
    pub secret: String,
    /// What the secret was ("password", "TOTP", ...), for the notification.
    pub label: String,
    pub phase: AutoclearPhase,
}

/// What the job reports back to the clearing job.
pub enum AutoclearEvent {
    /// Whether the clipboard history holds the secret.
    History(bool),
    /// A sleep ended after this many milliseconds.
    Waited(u64),
    /// What the clipboard holds, if it could be read.
    Clipboard(Option<String>),
    /// The asked action was carried out.
    Performed,
}

/// What the driver must do next for the clearing job.
pub enum AutoclearAction {
    /// Look whether the secret is in the clipboard history.
    CheckHistory,
    /// Delete the secret from the clipboard history.
    PurgeHistory,
    /// Sleep this many milliseconds.
    Wait(u64),
    /// Read the clipboard.
    ReadClipboard,
    /// Empty the clipboard.
    Clear,
    /// Send this desktop notification.
    Notify(String),
    /// Nothing more: the job is over.
    Done,
}

/// The spec-level value of the job.
pub struct AutoclearView {
    pub wsl: bool,
    pub remaining_ms: u64,
    pub purged: bool,
    pub secret: Seq<char>,
    pub label: Seq<char>,
    pub phase: AutoclearPhase,
}

pub enum ActionView {
    CheckHistory,
    PurgeHistory,
    Wait(u64),
    ReadClipboard,
    Clear,
    Notify(Seq<char>),
    Done,
}

pub open spec fn action_view(a: AutoclearAction) -> ActionView {
    match a {
        AutoclearAction::CheckHistory => ActionView::CheckHistory,
        AutoclearAction::PurgeHistory => ActionView::PurgeHistory,
        AutoclearAction::Wait(ms) => ActionView::Wait(ms),
        AutoclearAction::ReadClipboard => ActionView::ReadClipboard,
        AutoclearAction::Clear => ActionView::Clear,
        AutoclearAction::Notify(m) => ActionView::Notify(m@),
        AutoclearAction::Done => ActionView::Done,
    }
}

/// The notification sent once the clipboard was cleared.
pub open spec fn cleared_message(label: Seq<char>) -> Seq<char> {
    "🧹 Clipboard cleared ("@ + label + ")."@
}

impl Autoclear {
    pub open spec fn view(&self) -> AutoclearView {
        AutoclearView {
            wsl: self.wsl,
            remaining_ms: self.remaining_ms,
            purged: self.purged,
            secret: self.secret@,
            label: self.label@,
            phase: self.phase,
        }
    }
}

impl AutoclearView {
    pub open spec fn with_phase(self, phase: AutoclearPhase) -> AutoclearView {
        AutoclearView { phase, ..self }
    }

    /// At the deadline: purge the history once more (not on WSL), then
    /// read the clipboard.
    pub open spec fn at_deadline(self) -> (AutoclearView, ActionView) {
        if !self.wsl {
            (self.with_phase(AutoclearPhase::FinalPurge), ActionView::PurgeHistory)
        } else {
            (self.with_phase(AutoclearPhase::Reading), ActionView::ReadClipboard)
        }
    }

    /// One round before the deadline: look in the history while the secret
    /// was not purged yet (not on WSL), else sleep; at the deadline, end.
    pub open spec fn round(self) -> (AutoclearView, ActionView) {
        if self.remaining_ms == 0 {
            self.at_deadline()
        } else if !self.wsl && !self.purged {
            (self.with_phase(AutoclearPhase::Checking), ActionView::CheckHistory)
        } else {
            (self.with_phase(AutoclearPhase::Waiting), ActionView::Wait(POLL_MS))
        }
    }

    /// Whether the job waits for this kind of event.
    pub open spec fn expects(self, e: AutoclearEvent) -> bool {
        match self.phase {
            AutoclearPhase::Checking => e is History,
            AutoclearPhase::Purging => e is Performed,
            AutoclearPhase::Waiting => e is Waited,
            AutoclearPhase::FinalPurge => e is Performed,
            AutoclearPhase::Reading => e is Clipboard,
            AutoclearPhase::Clearing => e is Performed,
            AutoclearPhase::Notifying => e is Performed,
            AutoclearPhase::Finished => false,
        }
    }

    /// One step of the job: its next state and what to do next.
    pub open spec fn next(self, e: AutoclearEvent) -> (AutoclearView, ActionView) {
        match self.phase {
            AutoclearPhase::Checking => match e {
                AutoclearEvent::History(true) =>
                    (AutoclearView { purged: true, phase: AutoclearPhase::Purging, ..self }, ActionView::PurgeHistory),
                _ => (self.with_phase(AutoclearPhase::Waiting), ActionView::Wait(POLL_MS)),
            },
            AutoclearPhase::Purging => (self.with_phase(AutoclearPhase::Waiting), ActionView::Wait(POLL_MS)),
            AutoclearPhase::Waiting => match e {
                AutoclearEvent::Waited(ms) => AutoclearView {
                    remaining_ms: if self.remaining_ms >= ms { (self.remaining_ms - ms) as u64 } else { 0 },
                    ..self
                }.round(),
                _ => (self, ActionView::Done),
            },
            AutoclearPhase::FinalPurge => (self.with_phase(AutoclearPhase::Reading), ActionView::ReadClipboard),
            AutoclearPhase::Reading => match e {
                AutoclearEvent::Clipboard(Some(c)) => if c@ == self.secret {
                    (self.with_phase(AutoclearPhase::Clearing), ActionView::Clear)
                } else {
                    (self.with_phase(AutoclearPhase::Finished), ActionView::Done)
                },
                _ => (self.with_phase(AutoclearPhase::Finished), ActionView::Done),
            },
            AutoclearPhase::Clearing => if !self.wsl {
                (self.with_phase(AutoclearPhase::Notifying), ActionView::Notify(cleared_message(self.label)))
            } else {
                (self.with_phase(AutoclearPhase::Finished), ActionView::Done)
            },
            AutoclearPhase::Notifying => (self.with_phase(AutoclearPhase::Finished), ActionView::Done),
            AutoclearPhase::Finished => (self, ActionView::Done),
        }
    }
}

/// Starts clearing `secret` after `secs` seconds; when clearing is not
/// supported on this host the job is over at once.
pub fn autoclear_start(supported: bool, wsl: bool, secs: u64, secret: String, label: String) -> (r: (Autoclear, AutoclearAction))
    ensures
        !supported ==> r.0.view().phase == AutoclearPhase::Finished && action_view(r.1) == ActionView::Done,
        supported ==> (r.0.view(), action_view(r.1)) == (AutoclearView {
            wsl,
            remaining_ms: if secs <= u64::MAX / 1000 { (secs * 1000) as u64 } else { u64::MAX },
            purged: false,
            secret: secret@,
            label: label@,
            phase: AutoclearPhase::Waiting,
        }).round(),
        r.0.secret@ == secret@,
        r.0.label@ == label@,
        r.0.wsl == wsl,
{
    let remaining_ms = if secs <= u64::MAX / 1000 { secs * 1000 } else { u64::MAX };
    let mut job = Autoclear { wsl, remaining_ms, purged: false, secret, label, phase: AutoclearPhase::Waiting };
    if !supported {
        job.phase = AutoclearPhase::Finished;
        return (job, AutoclearAction::Done);
    }
    let a = job.begin_round();
    (job, a)
}

impl Autoclear {
    fn begin_round(&mut self) -> (r: AutoclearAction)
        ensures
            (final(self).view(), action_view(r)) == old(self).view().round(),
            final(self).secret == old(self).secret,
            final(self).label == old(self).label,
    {
        if self.remaining_ms == 0 {
            if !self.wsl {
                self.phase = AutoclearPhase::FinalPurge;
                AutoclearAction::PurgeHistory
            } else {
                self.phase = AutoclearPhase::Reading;
                AutoclearAction::ReadClipboard
            }
        } else if !self.wsl && !self.purged {
            self.phase = AutoclearPhase::Checking;
            AutoclearAction::CheckHistory
        } else {
            self.phase = AutoclearPhase::Waiting;
            AutoclearAction::Wait(POLL_MS)
        }
    }

    /// Whether the job waits for this kind of event.
    pub fn expects_event(&self, e: &AutoclearEvent) -> (r: bool)
        ensures
            r == self.view().expects(*e),
    {
        match self.phase {
            AutoclearPhase::Checking => matches!(e, AutoclearEvent::History(_)),
            AutoclearPhase::Purging => matches!(e, AutoclearEvent::Performed),
            AutoclearPhase::Waiting => matches!(e, AutoclearEvent::Waited(_)),
            AutoclearPhase::FinalPurge => matches!(e, AutoclearEvent::Performed),
            AutoclearPhase::Reading => matches!(e, AutoclearEvent::Clipboard(_)),
            AutoclearPhase::Clearing => matches!(e, AutoclearEvent::Performed),
            AutoclearPhase::Notifying => matches!(e, AutoclearEvent::Performed),
            AutoclearPhase::Finished => false,
        }
    }

    /// Takes the report of the last action; returns what to do next.
    pub fn step(&mut self, event: AutoclearEvent) -> (r: AutoclearAction)
        requires
            old(self).view().expects(event),
        ensures
            (final(self).view(), action_view(r)) == old(self).view().next(event),
    {
        match self.phase {
            AutoclearPhase::Checking => match event {
                AutoclearEvent::History(true) => {
                    self.purged = true;
                    self.phase = AutoclearPhase::Purging;
                    AutoclearAction::PurgeHistory
                },
                _ => {
                    self.phase = AutoclearPhase::Waiting;
                    AutoclearAction::Wait(POLL_MS)
                },
            },
            AutoclearPhase::Purging => {
                self.phase = AutoclearPhase::Waiting;
                AutoclearAction::Wait(POLL_MS)
            },
            AutoclearPhase::Waiting => match event {
                AutoclearEvent::Waited(ms) => {
                    self.remaining_ms = self.remaining_ms.saturating_sub(ms);
                    self.begin_round()
                },
                _ => AutoclearAction::Done,
            },
            AutoclearPhase::FinalPurge => {
                self.phase = AutoclearPhase::Reading;
                AutoclearAction::ReadClipboard
            },
            AutoclearPhase::Reading => {
                let same = match &event {
                    AutoclearEvent::Clipboard(Some(c)) => str_eq(c.as_str(), self.secret.as_str()),
                    _ => false,
                };
                if same {
                    self.phase = AutoclearPhase::Clearing;
                    AutoclearAction::Clear
                } else {
                    self.phase = AutoclearPhase::Finished;
                    AutoclearAction::Done
                }
            },
            AutoclearPhase::Clearing => {
                if !self.wsl {
                    self.phase = AutoclearPhase::Notifying;
                    AutoclearAction::Notify(concat3("🧹 Clipboard cleared (", self.label.as_str(), ")."))
                } else {
                    self.phase = AutoclearPhase::Finished;
                    AutoclearAction::Done
                }
            },
            AutoclearPhase::Notifying => {
                self.phase = AutoclearPhase::Finished;
                AutoclearAction::Done
            },
            AutoclearPhase::Finished => AutoclearAction::Done,
        }
    }
}

} // verus!
