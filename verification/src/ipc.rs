//! Dispatch of commands arriving over the local control socket.
//!
//! Clients send one command per line; the server answers each with one
//! response. Which action a command calls for, and the exact response in
//! every case that needs no host work, is decided here; the host layer
//! performs the file and window work for the rest and builds its responses
//! through the constructors below.

use vstd::prelude::*;
use vstd::string::StringExecFns;

verus! {

/// A command received from an external process.
pub struct IpcCommand {
    /// The command name: `open`, `ping` or `show`.
    pub command: String,
    /// The file path argument, required by `open` and ignored elsewhere.
    pub path: Option<String>,
}

/// The response sent back to the client.
pub struct IpcResponse {
    /// Whether the command completed successfully.
    pub success: bool,
    /// A human-readable description of the failure, exactly when the
    /// command did not succeed.
    pub error: Option<String>,
}

/// What a received command calls for.
pub enum IpcAction {
    /// Resolve the path and open the file in the application.
    OpenFile(String),
    /// Bring the main window to the foreground, then answer success.
    ShowWindow,
    /// Answer immediately with this response; no host work is needed.
    Respond(IpcResponse),
}

/// The successful response.
pub fn ok_response() -> (r: IpcResponse)
    ensures
        r.success,
        r.error is None,
{
    IpcResponse { success: true, error: None }
}

/// Decides what a command calls for. `open` with a path hands the path on;
/// `open` without one, and any unknown command, are rejected immediately
/// with their exact messages; `ping` succeeds with no side effects; `show`
/// asks for the window.
pub fn route_command(cmd: IpcCommand) -> (r: IpcAction)
    ensures
        cmd.command@ == "open"@ && cmd.path is Some ==> (r matches IpcAction::OpenFile(p)
            && Some(p) == cmd.path),
        cmd.command@ == "open"@ && cmd.path is None ==> (r matches IpcAction::Respond(resp)
            && !resp.success && (resp.error matches Some(m) && m@ == "Missing 'path' field"@)),
        cmd.command@ == "ping"@ ==> (r matches IpcAction::Respond(resp) && resp.success
            && resp.error is None),
        cmd.command@ == "show"@ ==> r is ShowWindow,
        cmd.command@ != "open"@ && cmd.command@ != "ping"@ && cmd.command@ != "show"@ ==> (r
            matches IpcAction::Respond(resp) && !resp.success && (resp.error matches Some(m)
            && m@ == "Unknown command: "@ + cmd.command@)),
{
    proof {
        reveal_strlit("open");
        reveal_strlit("ping");
        reveal_strlit("show");
        assert("ping"@[0] == 'p' && "open"@[0] == 'o' && "show"@[0] == 's');
        assert("ping"@ != "open"@ && "show"@ != "open"@ && "show"@ != "ping"@);
    }
    if crate::text::str_eq(cmd.command.as_str(), "open") {
        match cmd.path {
            Some(p) => IpcAction::OpenFile(p),
            None => IpcAction::Respond(
                IpcResponse {
                    success: false,
                    error: Some(String::from_str("Missing 'path' field")),
                },
            ),
        }
    } else if crate::text::str_eq(cmd.command.as_str(), "ping") {
        IpcAction::Respond(IpcResponse { success: true, error: None })
    } else if crate::text::str_eq(cmd.command.as_str(), "show") {
        IpcAction::ShowWindow
    } else {
        let mut m = String::from_str("Unknown command: ");
        m.append(cmd.command.as_str());
        IpcAction::Respond(IpcResponse { success: false, error: Some(m) })
    }
}

/// The response after the host resolved a path: failure carries the
/// resolver's message.
pub fn resolve_path_response(err: Option<String>) -> (r: IpcResponse)
    ensures
        err is None ==> r.success && r.error is None,
        err matches Some(e) ==> !r.success && (r.error matches Some(m) && m@ == "Invalid path: "@
            + e@),
{
    match err {
        None => IpcResponse { success: true, error: None },
        Some(e) => {
            let mut m = String::from_str("Invalid path: ");
            m.append(e.as_str());
            IpcResponse { success: false, error: Some(m) }
        },
    }
}

/// The response after the host published the open-file notification:
/// failure carries the publisher's message.
pub fn emit_response(err: Option<String>) -> (r: IpcResponse)
    ensures
        err is None ==> r.success && r.error is None,
        err matches Some(e) ==> !r.success && (r.error matches Some(m) && m@
            == "Failed to emit event: "@ + e@),
{
    match err {
        None => IpcResponse { success: true, error: None },
        Some(e) => {
            let mut m = String::from_str("Failed to emit event: ");
            m.append(e.as_str());
            IpcResponse { success: false, error: Some(m) }
        },
    }
}

} // verus!
