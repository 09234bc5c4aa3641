use bw_tui::clipboard::{
    ascii_lowercase, autoclear_start, autoclear_supported, clipboard_text, copy_tool, wsl_detected, AutoclearAction,
    AutoclearEvent, ClipboardTool,
};
use bw_tui::commands::LOGIN_TIMEOUT_SECS;

fn kind(a: &AutoclearAction) -> String {
    match a {
        AutoclearAction::CheckHistory => "check".into(),
        AutoclearAction::PurgeHistory => "purge".into(),
        AutoclearAction::Wait(ms) => format!("wait {ms}"),
        AutoclearAction::ReadClipboard => "read".into(),
        AutoclearAction::Clear => "clear".into(),
        AutoclearAction::Notify(m) => format!("notify {m}"),
        AutoclearAction::Done => "done".into(),
    }
}

/// Runs a clearing job against a scripted host: whether the secret is in
/// the history on each look, and what the clipboard holds at the end.
fn run(wsl: bool, secs: u64, history: &[bool], clipboard: Option<&str>) -> Vec<String> {
    let (mut job, mut action) = autoclear_start(true, wsl, secs, "s3cret".into(), "password".into());
    let mut seen = Vec::new();
    let mut looks = history.iter();
    loop {
        seen.push(kind(&action));
        let event = match &action {
            AutoclearAction::Done => break,
            AutoclearAction::CheckHistory => AutoclearEvent::History(*looks.next().unwrap_or(&false)),
            AutoclearAction::Wait(ms) => AutoclearEvent::Waited(*ms),
            AutoclearAction::ReadClipboard => AutoclearEvent::Clipboard(clipboard.map(str::to_string)),
            _ => AutoclearEvent::Performed,
        };
        assert!(job.expects_event(&event));
        action = job.step(event);
    }
    seen
}

#[test]
fn host_detection() {
    assert!(wsl_detected(true, false, None));
    assert!(wsl_detected(false, true, None));
    assert!(wsl_detected(false, false, Some("Linux version 5.15.90.1-Microsoft-standard-WSL2")));
    assert!(!wsl_detected(false, false, Some("Linux version 6.8.0-arch1")));
    assert!(!wsl_detected(false, false, None));
    assert_eq!(ascii_lowercase("MicroSOFT Ä"), "microsoft Ä");
}

#[test]
fn copy_tool_follows_the_host() {
    assert_eq!(copy_tool(true, true), ClipboardTool::Win32yank);
    assert_eq!(copy_tool(true, false), ClipboardTool::ClipExe);
    assert_eq!(copy_tool(false, true), ClipboardTool::WlCopy);
    assert_eq!(ClipboardTool::Win32yank.program(), "win32yank.exe");
    assert_eq!(ClipboardTool::Win32yank.copy_args(), vec!["-i"]);
    assert!(ClipboardTool::WlCopy.copy_args().is_empty());
    assert_eq!(ClipboardTool::ClipExe.hint(), "is Windows interop enabled?");
    assert!(!autoclear_supported(true, false));
    assert!(autoclear_supported(true, true));
    assert!(autoclear_supported(false, false));
}

#[test]
fn clipboard_text_drops_windows_line_ends() {
    assert_eq!(clipboard_text(true, "abc\r\n"), "abc");
    assert_eq!(clipboard_text(true, "a\nb\n\n"), "a\nb");
    assert_eq!(clipboard_text(false, "abc\n"), "abc\n");
}

#[test]
fn wayland_job_purges_history_clears_and_notifies() {
    let steps = run(false, 1, &[false, true], Some("s3cret"));
    assert_eq!(
        steps,
        vec![
            "check", "wait 300", "check", "purge", "wait 300", "wait 300", "wait 300", "purge", "read", "clear",
            "notify 🧹 Clipboard cleared (password).", "done",
        ]
    );
}

#[test]
fn job_leaves_a_changed_clipboard_alone() {
    let steps = run(false, 0, &[], Some("something else"));
    assert_eq!(steps, vec!["purge", "read", "done"]);
}

#[test]
fn wsl_job_skips_history_and_notification() {
    let steps = run(true, 1, &[true], Some("s3cret"));
    assert_eq!(steps, vec!["wait 300", "wait 300", "wait 300", "wait 300", "read", "clear", "done"]);
}

#[test]
fn unsupported_host_does_nothing() {
    let (_, action) = autoclear_start(false, true, 9, "x".into(), "TOTP".into());
    assert!(matches!(action, AutoclearAction::Done));
}

#[test]
fn login_gets_twenty_seconds() {
    assert_eq!(LOGIN_TIMEOUT_SECS, 20);
}
