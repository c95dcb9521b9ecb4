use vstd::prelude::*;

verus! {

/// What the user asked to reopen when the editor starts.
#[derive(Clone, Copy, Debug, PartialEq, Eq, Structural)]
pub enum RestoreOnStartup {
    /// Reopen nothing.
    Nothing,
    /// Reopen the workspace that was open last.
    LastWorkspace,
    /// Reopen every window of the previous session.
    LastSession,
}

/// Where the workspaces to reopen are looked up.
#[derive(Debug, PartialEq, Eq)]
pub enum RestoreSource {
    /// Nothing is restored.
    Nothing,
    /// The workspace opened last.
    LastWorkspace,
    /// The windows of the session with this identifier.
    LastSession(String),
}

/// Decides where to look for the workspaces to reopen, given the setting and
/// the identifier of the previous session, if one was recorded. Without a
/// previous session, restoring the last session falls back to the last
/// workspace.
pub fn restore_source(setting: RestoreOnStartup, last_session_id: Option<String>) -> (r:
    RestoreSource)
    ensures
        setting == RestoreOnStartup::Nothing ==> r == RestoreSource::Nothing,
        setting == RestoreOnStartup::LastWorkspace ==> r == RestoreSource::LastWorkspace,
        setting == RestoreOnStartup::LastSession ==> match last_session_id {
            Some(id) => r == RestoreSource::LastSession(id),
            None => r == RestoreSource::LastWorkspace,
        },
{
    match setting {
        RestoreOnStartup::Nothing => RestoreSource::Nothing,
        RestoreOnStartup::LastWorkspace => RestoreSource::LastWorkspace,
        RestoreOnStartup::LastSession => match last_session_id {
            Some(id) => RestoreSource::LastSession(id),
            None => RestoreSource::LastWorkspace,
        },
    }
}

/// The workspaces to reopen when the last opened workspace is restored: that
/// one workspace, if there is one.
pub fn last_workspace_locations<T>(last: Option<T>) -> (r: Option<Vec<T>>)
    ensures
        match last {
            Some(l) => r matches Some(v) && v@ == seq![l],
            None => r is None,
        },
{
    match last {
        Some(l) => Some(vec![l]),
        None => None,
    }
}

/// The session's workspaces in the order in which they are opened. A
/// session without workspaces restores nothing. When the session recorded
/// its window stack, front to back, the list is reversed so that the window
/// that was in front last is opened last and ends up in front again.
pub fn session_locations<T>(locations: Option<Vec<T>>, ordered: bool) -> (r: Option<Vec<T>>)
    ensures
        match locations {
            None => r is None,
            Some(v) => if v@.len() == 0 {
                r is None
            } else if ordered {
                r matches Some(w) && w@ == v@.reverse()
            } else {
                r matches Some(w) && w@ == v@
            },
        },
{
    match locations {
        None => None,
        Some(v) => {
            if v.len() == 0 {
                None
            } else if ordered {
                Some(reversed(v))
            } else {
                Some(v)
            }
        },
    }
}

/// The items of `v` in the opposite order.
fn reversed<T>(v: Vec<T>) -> (r: Vec<T>)
    ensures
        r@ == v@.reverse(),
{
    let ghost items = v@;
    let mut rest = v;
    let mut out: Vec<T> = Vec::new();
    while rest.len() > 0
        invariant
            rest@ == items.subrange(0, rest@.len() as int),
            out@.len() + rest@.len() == items.len(),
            forall|i: int|
                0 <= i < out@.len() ==> out@[i] == items[items.len() - 1 - i],
        decreases rest@.len(),
    {
        let x = rest.pop();
        match x {
            Some(item) => out.push(item),
            None => {},
        }
    }
    assert(out@ =~= items.reverse());
    out
}

/// What the editor does once it has started.
#[derive(Debug)]
pub enum StartupAction<T> {
    /// Open these workspaces, in this order.
    OpenWorkspaces(Vec<T>),
    /// Nobody has used the editor here yet: show the welcome page.
    ShowWelcome,
    /// Open an empty editor in a new window.
    OpenNewFile,
}

/// Chooses what to open at startup from the workspaces that can be restored
/// and from reading the stored first-open marker. The welcome page shows
/// only where that read succeeded and found no marker; a failed read counts
/// as a returning user.
pub fn startup_action<T, E>(
    restorable: Option<Vec<T>>,
    first_open_marker: Result<Option<String>, E>,
) -> (r: StartupAction<T>)
    ensures
        match restorable {
            Some(v) => r matches StartupAction::OpenWorkspaces(w) && w@ == v@,
            None => if first_open_marker matches Ok(None) {
                r is ShowWelcome
            } else {
                r is OpenNewFile
            },
        },
{
    match restorable {
        Some(v) => StartupAction::OpenWorkspaces(v),
        None => match first_open_marker {
            Ok(None) => StartupAction::ShowWelcome,
            _ => StartupAction::OpenNewFile,
        },
    }
}

} // verus!
