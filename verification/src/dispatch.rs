//! The menu command dispatcher and the settings-window policy.
//!
//! Two fixed menu identifiers drive two actions: `"settings"` opens the
//! settings surface and `"quit"` terminates the process. Any other
//! identifier is ignored. Performing the actions (creating the window,
//! exiting) is the host's work; the decisions are made here.

use vstd::prelude::*;
use vstd::string::StringExecFns;

verus! {

/// What a menu event commands. `Ignore` is the action of every identifier
/// other than the two fixed ones.
#[derive(PartialEq, Eq, Structural, Clone, Copy, Debug)]
pub enum MenuAction {
    OpenSettings,
    Quit,
    Ignore,
}

/// The two failure kinds of the shell. Every other operation is total:
/// missing or ill-typed input is defaulted or ignored, never rejected.
#[derive(PartialEq, Eq, Structural, Clone, Copy, Debug)]
pub enum ShellError {
    /// The settings surface could not be created.
    SurfaceCreation,
    /// The store could not be flushed to disk.
    Persistence,
}

/// What [`ShellError::message`] returns for each failure kind.
pub open spec fn message_spec(e: ShellError) -> Seq<char> {
    match e {
        ShellError::SurfaceCreation => "the settings window could not be created"@,
        ShellError::Persistence => "the settings store could not be saved"@,
    }
}

impl ShellError {
    /// The opaque message a failure is surfaced as.
    pub fn message(&self) -> (m: String)
        ensures
            m@ == message_spec(*self),
    {
        match self {
            ShellError::SurfaceCreation => String::from_str(
                "the settings window could not be created",
            ),
            ShellError::Persistence => String::from_str("the settings store could not be saved"),
        }
    }
}

/// Maps a menu identifier to its action: `"settings"` opens the settings
/// surface, `"quit"` terminates the process, anything else is a no-op.
pub fn dispatch(id: &str) -> (a: MenuAction)
    ensures
        id@ == "settings"@ ==> a == MenuAction::OpenSettings,
        id@ == "quit"@ ==> a == MenuAction::Quit,
        id@ != "settings"@ && id@ != "quit"@ ==> a == MenuAction::Ignore,
{
    proof {
        reveal_strlit("settings");
        reveal_strlit("quit");
        assert("settings"@ != "quit"@) by {
            assert("settings"@.len() == 8);
            assert("quit"@.len() == 4);
        }
    }
    let id_owned: String = id.to_owned();
    let settings_id: String = String::from_str("settings");
    let quit_id: String = String::from_str("quit");
    if id_owned == settings_id {
        MenuAction::OpenSettings
    } else if id_owned == quit_id {
        MenuAction::Quit
    } else {
        MenuAction::Ignore
    }
}

/// Whether a request to open the settings surface succeeds, given whether
/// that surface is already shown.
///
/// The surface carries one fixed identifier, so the shell's policy is:
/// while the surface is shown, a second open fails cleanly with a
/// surface-creation error; otherwise the open succeeds. The host performs
/// the creation only when this returns `Ok`.
pub fn open_settings(already_open: bool) -> (r: Result<(), ShellError>)
    ensures
        r is Ok <==> !already_open,
        already_open ==> r == Result::<(), ShellError>::Err(ShellError::SurfaceCreation),
{
    if already_open {
        Err(ShellError::SurfaceCreation)
    } else {
        Ok(())
    }
}

} // verus!
