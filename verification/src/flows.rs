//! The chained client operations that a background job runs from start to
//! finish: deciding the first screen, logging in or unlocking and loading
//! the vault, refreshing, syncing and logging out.
//!
//! Each is a small state machine: the driver runs the [`BwCall`] it is
//! given, hands the [`BwReply`] to [`Flow::advance`], and repeats until the
//! flow is done.
use vstd::prelude::*;
use crate::model::{
    Folder, Item, ItemsLoad, LoginFlowResult, LoginOutcome, StartOutcome, Status, SyncLoad, VaultLoad,
};
use crate::text::str_eq;

verus! {

/// One call of the client (or of the session cache).
pub enum BwCall {
    /// Read the cached session.
    LoadCachedSession,
    /// Lock the vault and delete the cached session.
    ClearCachedSession,
    /// `bw status`.
    Status,
    /// `bw list items`.
    ListItems { session: String },
    /// `bw list folders`.
    ListFolders { session: String },
    /// `bw login`.
    Login { email: String, password: String, two_factor: Option<(String, String)> },
    /// `bw unlock`.
    Unlock { password: String },
    /// Write the session cache; answers with the time stamp written.
    SaveSession { key: String },
    /// `bw sync`.
    Sync { session: String },
    /// `bw logout` (which also clears the cache).
    Logout,
}

/// The answer to a [`BwCall`].
pub enum BwReply {
    CachedSession(Option<(String, u64)>),
    Cleared,
    Status(Result<Status, String>),
    Items(Result<Vec<Item>, String>),
    Folders(Result<Vec<Folder>, String>),
    LoggedIn(Result<LoginOutcome, String>),
    Unlocked(Result<String, String>),
    Saved(Result<u64, String>),
    Synced(Result<(), String>),
    LoggedOut(Result<(), String>),
}

/// Where a flow stands: what it waits for, and what it holds so far.
/// `logout` marks the start decision that follows a logout.
pub enum Flow {
    StartCache { logout: bool },
    StartItems { logout: bool, key: String, ts: u64 },
    StartFolders { logout: bool, key: String, ts: u64, items: Vec<Item> },
    StartCleared { logout: bool },
    StartStatus { logout: bool },
    LoginWait,
    UnlockWait,
    LoadSave { login: bool, key: String },
    LoadItems { login: bool, key: String, ts: u64 },
    LoadFolders { login: bool, key: String, ts: u64, items: Vec<Item> },
    RefreshItems { session: String },
    RefreshFolders { items: Vec<Item> },
    SyncWait { session: String },
    SyncStatus { session: String },
    SyncItems { session: String, status: Option<Status> },
    SyncFolders { status: Option<Status>, items: Vec<Item> },
    LogoutWait,
    Finished,
}

/// What a flow ends with.
pub enum FlowResult {
    Start(StartOutcome),
    Login(Result<LoginFlowResult, String>),
    Unlock(Result<VaultLoad, String>),
    Refresh(Result<ItemsLoad, String>),
    Sync(Result<SyncLoad, String>),
    Logout(Result<StartOutcome, String>),
}

/// The next thing to do: another call, or the end.
pub enum Next {
    Call(BwCall),
    Done(FlowResult),
}

/// Folders when listed, else none (a failed folder list is not an error).
pub open spec fn folders_or_empty(r: Result<Vec<Folder>, String>, folders: Vec<Folder>) -> bool {
    match r {
        Ok(f) => folders == f,
        Err(_) => folders@.len() == 0,
    }
}

fn folders_or_default(r: Result<Vec<Folder>, String>) -> (f: Vec<Folder>)
    ensures
        folders_or_empty(r, f),
{
    match r {
        Ok(f) => f,
        Err(_) => Vec::new(),
    }
}

/// Wraps the start decision for the flow that asked for it.
pub open spec fn start_result(logout: bool, outcome: StartOutcome) -> FlowResult {
    if logout { FlowResult::Logout(Ok(outcome)) } else { FlowResult::Start(outcome) }
}

/// The start decision for a status: an unauthenticated client needs the
/// server configured and a login; any other needs an unlock.
pub open spec fn status_outcome(s: Status) -> StartOutcome {
    if s.status@ == "unauthenticated"@ { StartOutcome::NeedsServerConfig(s) } else { StartOutcome::NeedsUnlock(s) }
}

/// Decides the first screen: first the cached session.
pub fn compute_start() -> (r: (Flow, BwCall))
    ensures
        r.0 == (Flow::StartCache { logout: false }),
        r.1 is LoadCachedSession,
{
    (Flow::StartCache { logout: false }, BwCall::LoadCachedSession)
}

/// Logs in (with a two-step method and code on the second try), then
/// saves the session and loads the vault.
pub fn login_and_load(email: String, password: String, two_factor: Option<(String, String)>) -> (r: (Flow, BwCall))
    ensures
        r.0 is LoginWait,
        r.1 == (BwCall::Login { email, password, two_factor }),
{
    (Flow::LoginWait, BwCall::Login { email, password, two_factor })
}

/// Unlocks with the master password, then saves the session and loads the vault.
pub fn unlock_and_load(password: String) -> (r: (Flow, BwCall))
    ensures
        r.0 is UnlockWait,
        r.1 == (BwCall::Unlock { password }),
{
    (Flow::UnlockWait, BwCall::Unlock { password })
}

/// Lists the items and folders again.
pub fn refresh_items(session: String) -> (r: (Flow, BwCall))
    ensures
        r.0 matches Flow::RefreshItems { session: s } && s@ == session@,
        r.1 matches BwCall::ListItems { session: s } && s == session,
{
    let kept = session.clone();
    (Flow::RefreshItems { session: kept }, BwCall::ListItems { session })
}

/// Syncs with the server, then reads the status and lists everything again.
pub fn sync_and_refresh(session: String) -> (r: (Flow, BwCall))
    ensures
        r.0 matches Flow::SyncWait { session: s } && s@ == session@,
        r.1 matches BwCall::Sync { session: s } && s == session,
{
    let kept = session.clone();
    (Flow::SyncWait { session: kept }, BwCall::Sync { session })
}

/// Logs out, then decides the next screen.
pub fn logout_and_restart() -> (r: (Flow, BwCall))
    ensures
        r.0 is LogoutWait,
        r.1 is Logout,
{
    (Flow::LogoutWait, BwCall::Logout)
}

impl Flow {
    /// Whether the flow waits for this kind of reply.
    pub open spec fn accepts(self, reply: BwReply) -> bool {
        match self {
            Flow::StartCache { .. } => reply is CachedSession,
            Flow::StartItems { .. } => reply is Items,
            Flow::StartFolders { .. } => reply is Folders,
            Flow::StartCleared { .. } => reply is Cleared,
            Flow::StartStatus { .. } => reply is Status,
            Flow::LoginWait => reply is LoggedIn,
            Flow::UnlockWait => reply is Unlocked,
            Flow::LoadSave { .. } => reply is Saved,
            Flow::LoadItems { .. } => reply is Items,
            Flow::LoadFolders { .. } => reply is Folders,
            Flow::RefreshItems { .. } => reply is Items,
            Flow::RefreshFolders { .. } => reply is Folders,
            Flow::SyncWait { .. } => reply is Synced,
            Flow::SyncStatus { .. } => reply is Status,
            Flow::SyncItems { .. } => reply is Items,
            Flow::SyncFolders { .. } => reply is Folders,
            Flow::LogoutWait => reply is LoggedOut,
            Flow::Finished => false,
        }
    }

    /// Whether the flow waits for this kind of reply.
    pub fn accepts_reply(&self, reply: &BwReply) -> (r: bool)
        ensures
            r == self.accepts(*reply),
    {
        match self {
            Flow::StartCache { .. } => matches!(reply, BwReply::CachedSession(_)),
            Flow::StartItems { .. } => matches!(reply, BwReply::Items(_)),
            Flow::StartFolders { .. } => matches!(reply, BwReply::Folders(_)),
            Flow::StartCleared { .. } => matches!(reply, BwReply::Cleared),
            Flow::StartStatus { .. } => matches!(reply, BwReply::Status(_)),
            Flow::LoginWait => matches!(reply, BwReply::LoggedIn(_)),
            Flow::UnlockWait => matches!(reply, BwReply::Unlocked(_)),
            Flow::LoadSave { .. } => matches!(reply, BwReply::Saved(_)),
            Flow::LoadItems { .. } => matches!(reply, BwReply::Items(_)),
            Flow::LoadFolders { .. } => matches!(reply, BwReply::Folders(_)),
            Flow::RefreshItems { .. } => matches!(reply, BwReply::Items(_)),
            Flow::RefreshFolders { .. } => matches!(reply, BwReply::Folders(_)),
            Flow::SyncWait { .. } => matches!(reply, BwReply::Synced(_)),
            Flow::SyncStatus { .. } => matches!(reply, BwReply::Status(_)),
            Flow::SyncItems { .. } => matches!(reply, BwReply::Items(_)),
            Flow::SyncFolders { .. } => matches!(reply, BwReply::Folders(_)),
            Flow::LogoutWait => matches!(reply, BwReply::LoggedOut(_)),
            Flow::Finished => false,
        }
    }

    /// One step of a flow: what the reply to its last call leads to.
    pub open spec fn advance_post(self, reply: BwReply, next: Flow, r: Next) -> bool {
        match self {
            Flow::StartCache { logout } => match reply {
                BwReply::CachedSession(Some((key, ts))) => {
                    &&& next matches Flow::StartItems { logout: l, key: k, ts: t } && l == logout && k@ == key@ && t == ts
                    &&& r matches Next::Call(BwCall::ListItems { session }) && session@ == key@
                },
                _ => next == (Flow::StartStatus { logout }) && r matches Next::Call(BwCall::Status),
            },
            Flow::StartItems { logout, key, ts } => match reply {
                BwReply::Items(Ok(items)) => {
                    &&& next matches Flow::StartFolders { logout: l, key: k, ts: t, items: i } && l == logout && k == key && t == ts && i == items
                    &&& r matches Next::Call(BwCall::ListFolders { session }) && session@ == key@
                },
                _ => next == (Flow::StartCleared { logout }) && r matches Next::Call(BwCall::ClearCachedSession),
            },
            Flow::StartFolders { logout, key, ts, items } => match reply {
                BwReply::Folders(fr) => {
                    &&& next is Finished
                    &&& r matches Next::Done(res)
                        && (if logout { res matches FlowResult::Logout(Ok(StartOutcome::Vault(load))) && load.key == key && load.ts == ts && load.items == items && folders_or_empty(fr, load.folders) }
                            else { res matches FlowResult::Start(StartOutcome::Vault(load)) && load.key == key && load.ts == ts && load.items == items && folders_or_empty(fr, load.folders) })
                },
                _ => true,
            },
            Flow::StartCleared { logout } => next == (Flow::StartStatus { logout }) && r matches Next::Call(BwCall::Status),
            Flow::StartStatus { logout } => match reply {
                BwReply::Status(Ok(s)) => next is Finished && r == Next::Done(start_result(logout, status_outcome(s))),
                BwReply::Status(Err(e)) => next is Finished && r == Next::Done(start_result(logout, StartOutcome::Error(e))),
                _ => true,
            },
            Flow::LoginWait => match reply {
                BwReply::LoggedIn(Ok(LoginOutcome::Success(key))) => {
                    &&& next matches Flow::LoadSave { login, key: k } && login && k@ == key@
                    &&& r matches Next::Call(BwCall::SaveSession { key: k }) && k == key
                },
                BwReply::LoggedIn(Ok(LoginOutcome::TwoFactorRequired)) =>
                    next is Finished && r == Next::Done(FlowResult::Login(Ok(LoginFlowResult::TwoFactorRequired))),
                BwReply::LoggedIn(Err(e)) => next is Finished && r == Next::Done(FlowResult::Login(Err(e))),
                _ => true,
            },
            Flow::UnlockWait => match reply {
                BwReply::Unlocked(Ok(key)) => {
                    &&& next matches Flow::LoadSave { login, key: k } && !login && k@ == key@
                    &&& r matches Next::Call(BwCall::SaveSession { key: k }) && k == key
                },
                BwReply::Unlocked(Err(e)) => next is Finished && r == Next::Done(FlowResult::Unlock(Err(e))),
                _ => true,
            },
            Flow::LoadSave { login, key } => match reply {
                BwReply::Saved(Ok(ts)) => {
                    &&& next matches Flow::LoadItems { login: l, key: k, ts: t } && l == login && k == key && t == ts
                    &&& r matches Next::Call(BwCall::ListItems { session }) && session@ == key@
                },
                BwReply::Saved(Err(e)) => next is Finished
                    && r == Next::Done(if login { FlowResult::Login(Err(e)) } else { FlowResult::Unlock(Err(e)) }),
                _ => true,
            },
            Flow::LoadItems { login, key, ts } => match reply {
                BwReply::Items(Ok(items)) => {
                    &&& next matches Flow::LoadFolders { login: l, key: k, ts: t, items: i } && l == login && k == key && t == ts && i == items
                    &&& r matches Next::Call(BwCall::ListFolders { session }) && session@ == key@
                },
                BwReply::Items(Err(e)) => next is Finished
                    && r == Next::Done(if login { FlowResult::Login(Err(e)) } else { FlowResult::Unlock(Err(e)) }),
                _ => true,
            },
            Flow::LoadFolders { login, key, ts, items } => match reply {
                BwReply::Folders(fr) => {
                    &&& next is Finished
                    &&& r matches Next::Done(res)
                        && (if login { res matches FlowResult::Login(Ok(LoginFlowResult::LoggedIn(load))) && load.key == key && load.ts == ts && load.items == items && folders_or_empty(fr, load.folders) }
                            else { res matches FlowResult::Unlock(Ok(load)) && load.key == key && load.ts == ts && load.items == items && folders_or_empty(fr, load.folders) })
                },
                _ => true,
            },
            Flow::RefreshItems { session } => match reply {
                BwReply::Items(Ok(items)) => {
                    &&& next == (Flow::RefreshFolders { items })
                    &&& r matches Next::Call(BwCall::ListFolders { session: s }) && s == session
                },
                BwReply::Items(Err(e)) => next is Finished && r == Next::Done(FlowResult::Refresh(Err(e))),
                _ => true,
            },
            Flow::RefreshFolders { items } => match reply {
                BwReply::Folders(fr) => {
                    &&& next is Finished
                    &&& r matches Next::Done(FlowResult::Refresh(Ok(load)))
                        && load.items == items && folders_or_empty(fr, load.folders)
                },
                _ => true,
            },
            Flow::SyncWait { session } => match reply {
                BwReply::Synced(Ok(())) => next == (Flow::SyncStatus { session }) && r matches Next::Call(BwCall::Status),
                BwReply::Synced(Err(e)) => next is Finished && r == Next::Done(FlowResult::Sync(Err(e))),
                _ => true,
            },
            Flow::SyncStatus { session } => match reply {
                BwReply::Status(sr) => {
                    &&& next matches Flow::SyncItems { session: s, status } && s@ == session@
                        && status == (match sr { Ok(st) => Some(st), Err(_) => None })
                    &&& r matches Next::Call(BwCall::ListItems { session: s }) && s == session
                },
                _ => true,
            },
            Flow::SyncItems { session, status } => match reply {
                BwReply::Items(Ok(items)) => {
                    &&& next == (Flow::SyncFolders { status, items })
                    &&& r matches Next::Call(BwCall::ListFolders { session: s }) && s == session
                },
                BwReply::Items(Err(e)) => next is Finished && r == Next::Done(FlowResult::Sync(Err(e))),
                _ => true,
            },
            Flow::SyncFolders { status, items } => match reply {
                BwReply::Folders(fr) => {
                    &&& next is Finished
                    &&& r matches Next::Done(FlowResult::Sync(Ok(load)))
                        && load.status == status && load.items == items && folders_or_empty(fr, load.folders)
                },
                _ => true,
            },
            Flow::LogoutWait => match reply {
                BwReply::LoggedOut(Ok(())) => next == (Flow::StartCache { logout: true }) && r matches Next::Call(BwCall::LoadCachedSession),
                BwReply::LoggedOut(Err(e)) => next is Finished && r == Next::Done(FlowResult::Logout(Err(e))),
                _ => true,
            },
            Flow::Finished => true,
        }
    }

    /// Takes the reply to the flow's last call; returns the flow's new
    /// state and what to do next.
    pub fn advance(self, reply: BwReply) -> (r: (Flow, Next))
        requires
            self.accepts(reply),
        ensures
            self.advance_post(reply, r.0, r.1),
    {
        match self {
            Flow::StartCache { logout } => match reply {
                BwReply::CachedSession(Some((key, ts))) => {
                    let session = key.clone();
                    (Flow::StartItems { logout, key, ts }, Next::Call(BwCall::ListItems { session }))
                },
                _ => (Flow::StartStatus { logout }, Next::Call(BwCall::Status)),
            },
            Flow::StartItems { logout, key, ts } => match reply {
                BwReply::Items(Ok(items)) => {
                    let session = key.clone();
                    (Flow::StartFolders { logout, key, ts, items }, Next::Call(BwCall::ListFolders { session }))
                },
                _ => (Flow::StartCleared { logout }, Next::Call(BwCall::ClearCachedSession)),
            },
            Flow::StartFolders { logout, key, ts, items } => match reply {
                BwReply::Folders(fr) => {
                    let load = VaultLoad { key, ts, items, folders: folders_or_default(fr) };
                    let res = if logout {
                        FlowResult::Logout(Ok(StartOutcome::Vault(load)))
                    } else {
                        FlowResult::Start(StartOutcome::Vault(load))
                    };
                    (Flow::Finished, Next::Done(res))
                },
                _ => (Flow::Finished, Next::Call(BwCall::Status)),
            },
            Flow::StartCleared { logout } => (Flow::StartStatus { logout }, Next::Call(BwCall::Status)),
            Flow::StartStatus { logout } => match reply {
                BwReply::Status(Ok(s)) => {
                    let unauthenticated = str_eq(s.status.as_str(), "unauthenticated");
                    let outcome = if unauthenticated { StartOutcome::NeedsServerConfig(s) } else { StartOutcome::NeedsUnlock(s) };
                    let res = if logout { FlowResult::Logout(Ok(outcome)) } else { FlowResult::Start(outcome) };
                    (Flow::Finished, Next::Done(res))
                },
                BwReply::Status(Err(e)) => {
                    let outcome = StartOutcome::Error(e);
                    let res = if logout { FlowResult::Logout(Ok(outcome)) } else { FlowResult::Start(outcome) };
                    (Flow::Finished, Next::Done(res))
                },
                _ => (Flow::Finished, Next::Call(BwCall::Status)),
            },
            Flow::LoginWait => match reply {
                BwReply::LoggedIn(Ok(LoginOutcome::Success(key))) => {
                    let kept = key.clone();
                    (Flow::LoadSave { login: true, key: kept }, Next::Call(BwCall::SaveSession { key }))
                },
                BwReply::LoggedIn(Ok(LoginOutcome::TwoFactorRequired)) =>
                    (Flow::Finished, Next::Done(FlowResult::Login(Ok(LoginFlowResult::TwoFactorRequired)))),
                BwReply::LoggedIn(Err(e)) => (Flow::Finished, Next::Done(FlowResult::Login(Err(e)))),
                _ => (Flow::Finished, Next::Call(BwCall::Status)),
            },
            Flow::UnlockWait => match reply {
                BwReply::Unlocked(Ok(key)) => {
                    let kept = key.clone();
                    (Flow::LoadSave { login: false, key: kept }, Next::Call(BwCall::SaveSession { key }))
                },
                BwReply::Unlocked(Err(e)) => (Flow::Finished, Next::Done(FlowResult::Unlock(Err(e)))),
                _ => (Flow::Finished, Next::Call(BwCall::Status)),
            },
            Flow::LoadSave { login, key } => match reply {
                BwReply::Saved(Ok(ts)) => {
                    let session = key.clone();
                    (Flow::LoadItems { login, key, ts }, Next::Call(BwCall::ListItems { session }))
                },
                BwReply::Saved(Err(e)) => {
                    let res = if login { FlowResult::Login(Err(e)) } else { FlowResult::Unlock(Err(e)) };
                    (Flow::Finished, Next::Done(res))
                },
                _ => (Flow::Finished, Next::Call(BwCall::Status)),
            },
            Flow::LoadItems { login, key, ts } => match reply {
                BwReply::Items(Ok(items)) => {
                    let session = key.clone();
                    (Flow::LoadFolders { login, key, ts, items }, Next::Call(BwCall::ListFolders { session }))
                },
                BwReply::Items(Err(e)) => {
                    let res = if login { FlowResult::Login(Err(e)) } else { FlowResult::Unlock(Err(e)) };
                    (Flow::Finished, Next::Done(res))
                },
                _ => (Flow::Finished, Next::Call(BwCall::Status)),
            },
            Flow::LoadFolders { login, key, ts, items } => match reply {
                BwReply::Folders(fr) => {
                    let load = VaultLoad { key, ts, items, folders: folders_or_default(fr) };
                    let res = if login {
                        FlowResult::Login(Ok(LoginFlowResult::LoggedIn(load)))
                    } else {
                        FlowResult::Unlock(Ok(load))
                    };
                    (Flow::Finished, Next::Done(res))
                },
                _ => (Flow::Finished, Next::Call(BwCall::Status)),
            },
            Flow::RefreshItems { session } => match reply {
                BwReply::Items(Ok(items)) => (Flow::RefreshFolders { items }, Next::Call(BwCall::ListFolders { session })),
                BwReply::Items(Err(e)) => (Flow::Finished, Next::Done(FlowResult::Refresh(Err(e)))),
                _ => (Flow::Finished, Next::Call(BwCall::Status)),
            },
            Flow::RefreshFolders { items } => match reply {
                BwReply::Folders(fr) => {
                    let load = ItemsLoad { items, folders: folders_or_default(fr) };
                    (Flow::Finished, Next::Done(FlowResult::Refresh(Ok(load))))
                },
                _ => (Flow::Finished, Next::Call(BwCall::Status)),
            },
            Flow::SyncWait { session } => match reply {
                BwReply::Synced(Ok(())) => (Flow::SyncStatus { session }, Next::Call(BwCall::Status)),
                BwReply::Synced(Err(e)) => (Flow::Finished, Next::Done(FlowResult::Sync(Err(e)))),
                _ => (Flow::Finished, Next::Call(BwCall::Status)),
            },
            Flow::SyncStatus { session } => match reply {
                BwReply::Status(sr) => {
                    let status = match sr {
                        Ok(st) => Some(st),
                        Err(_) => None,
                    };
                    let kept = session.clone();
                    (Flow::SyncItems { session: kept, status }, Next::Call(BwCall::ListItems { session }))
                },
                _ => (Flow::Finished, Next::Call(BwCall::Status)),
            },
            Flow::SyncItems { session, status } => match reply {
                BwReply::Items(Ok(items)) => (Flow::SyncFolders { status, items }, Next::Call(BwCall::ListFolders { session })),
                BwReply::Items(Err(e)) => (Flow::Finished, Next::Done(FlowResult::Sync(Err(e)))),
                _ => (Flow::Finished, Next::Call(BwCall::Status)),
            },
            Flow::SyncFolders { status, items } => match reply {
                BwReply::Folders(fr) => {
                    let load = SyncLoad { status, items, folders: folders_or_default(fr) };
                    (Flow::Finished, Next::Done(FlowResult::Sync(Ok(load))))
                },
                _ => (Flow::Finished, Next::Call(BwCall::Status)),
            },
            Flow::LogoutWait => match reply {
                BwReply::LoggedOut(Ok(())) => (Flow::StartCache { logout: true }, Next::Call(BwCall::LoadCachedSession)),
                BwReply::LoggedOut(Err(e)) => (Flow::Finished, Next::Done(FlowResult::Logout(Err(e)))),
                _ => (Flow::Finished, Next::Call(BwCall::Status)),
            },
            Flow::Finished => (Flow::Finished, Next::Call(BwCall::Status)),
        }
    }
}

} // verus!
