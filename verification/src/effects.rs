//! What the state machine asks its driver to do, and what the driver
//! reports back.
//!
//! The library never talks to the `bw` client or the clipboard itself: a
//! transition returns an [`Effect`], the driver performs it, and the result
//! of a background `bw` job comes back as a [`BwEvent`].
use vstd::prelude::*;
use crate::model::{
    GenerateOptions, Item, ItemPatch, ItemsLoad, LoginFlowResult, NewItem, StartOutcome, SyncLoad,
    VaultLoad,
};
use crate::text::{concat, u64_to_decimal, concat3, decimal};

verus! {

/// A `bw` job to run in the background; each one answers with one
/// [`BwEvent`].
pub enum BwJob {
    /// Decide the first screen (cached session, then `bw status`).
    ComputeStart,
    /// `bw config server <url>`.
    ConfigServer { url: String },
    /// Log in (with a two-step method and code on the second try) and load the vault.
    Login { email: String, password: String, two_factor: Option<(String, String)> },
    /// Unlock with the master password and load the vault.
    Unlock { password: String },
    /// List items and folders again.
    RefreshItems { session: String },
    /// Fetch a login's password to copy it.
    CopyPassword { id: String, item_name: String, session: String },
    /// Fetch a login's TOTP code to copy it.
    CopyTotp { id: String, item_name: String, session: String },
    /// Fetch a login's password to show it in the detail popup.
    RevealPassword { id: String, session: String },
    /// Fetch the current password of the login being edited.
    FormPassword { id: String, session: String },
    /// `bw generate` with the given options.
    Generate { opts: GenerateOptions },
    /// Sync with the server, then list everything again.
    Sync { session: String },
    /// Log out, then decide the next screen.
    Logout,
    /// Create an item.
    CreateItem { item: NewItem, session: String },
    /// Edit an item.
    EditItem { id: String, patch: ItemPatch, session: String },
}

/// Text to put on the clipboard. On success the driver shows `success`,
/// sends `notify` as a desktop notification when present, and schedules
/// the clipboard to be cleared (naming the secret `autoclear`) when present.
pub struct CopyJob {
    pub text: String,
    pub success: String,
    pub notify: Option<String>,
    pub autoclear: Option<String>,
}

/// What a transition asks the driver to do next.
pub enum Effect {
    /// Nothing.
    Nothing,
    /// Run a `bw` job in the background.
    Run(BwJob),
    /// Copy to the clipboard now and report the outcome with `App::finish_copy`.
    Copy(CopyJob),
    /// Lock the vault and delete the cached session, in the background.
    ClearSession,
}

/// The outcome of a background job.
pub enum BwEvent {
    Started(StartOutcome),
    ServerConfigured { url: String, result: Result<(), String> },
    LoggedIn(Result<LoginFlowResult, String>),
    Unlocked(Result<VaultLoad, String>),
    ItemsRefreshed(Result<ItemsLoad, String>),
    PasswordCopied { item_name: String, result: Result<String, String> },
    TotpCopied { item_name: String, result: Result<String, String> },
    Revealed { item_id: String, result: Result<String, String> },
    Generated(Result<String, String>),
    Synced(Result<SyncLoad, String>),
    LoggedOut(Result<StartOutcome, String>),
    ItemCreated(Result<Item, String>),
    ItemEdited(Result<Item, String>),
    ItemFormPasswordRevealed(Result<String, String>),
}

/// The note appended to a "copied" message when the clipboard will be
/// cleared: " (clears in Ns)", or nothing when clearing is not available.
pub open spec fn autoclear_note_spec(supported: bool, secs: u64) -> Seq<char> {
    if supported {
        " (clears in "@ + decimal(secs as nat) + "s)"@
    } else {
        Seq::empty()
    }
}

/// The note appended to a "copied" message; `supported` says whether the
/// clipboard can be cleared on this host.
pub fn autoclear_note(supported: bool, secs: u64) -> (r: String)
    ensures
        r@ == autoclear_note_spec(supported, secs),
{
    if supported {
        let n = u64_to_decimal(secs);
        concat3(" (clears in ", n.as_str(), "s)")
    } else {
        String::new()
    }
}

} // verus!
