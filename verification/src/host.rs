//! The host bridge: the one channel through which a plugin reaches the host.
//! Every operation is checked against the instance's capabilities before the
//! host hears of it.

use crate::capability::{text_read, text_transform, ui_panel, ui_status_bar, CapabilitySet};
use crate::error::PluginError;
use vstd::prelude::*;
use vstd::string::StringExecFns;

verus! {

/// The severity of a console message.
#[derive(Clone, Copy, Debug, PartialEq, Eq, Structural)]
pub enum LogLevel {
    Log,
    Warn,
    Error,
}

/// An operation that a plugin asks of the host.
#[derive(Clone, Debug, PartialEq, Eq)]
pub enum HostCall {
    Log { level: LogLevel, message: String },
    GetContent,
    GetSelection,
    ReplaceContent { content: String },
    InsertAtCursor { text: String },
    UpdatePanel { panel_id: String, html: String },
    UpdateStatusBar { item_id: String, text: String },
}

/// A host operation as a mathematical value.
pub enum HostRequest {
    Log { level: LogLevel, message: Seq<char> },
    GetContent,
    GetSelection,
    ReplaceContent { content: Seq<char> },
    InsertAtCursor { text: Seq<char> },
    UpdatePanel { panel_id: Seq<char>, html: Seq<char> },
    UpdateStatusBar { item_id: Seq<char>, text: Seq<char> },
}

/// What the host replies: the value of the operation, or the reason for
/// which it failed.
pub type Reply = Result<Seq<char>, Seq<char>>;

impl HostRequest {
    /// The capability that the operation needs, if it needs one.
    pub open spec fn needs(self) -> Option<Seq<char>> {
        match self {
            HostRequest::Log { .. } => None,
            HostRequest::GetContent => Some(text_read()),
            HostRequest::GetSelection => Some(text_read()),
            HostRequest::ReplaceContent { .. } => Some(text_transform()),
            HostRequest::InsertAtCursor { .. } => Some(text_transform()),
            HostRequest::UpdatePanel { .. } => Some(ui_panel()),
            HostRequest::UpdateStatusBar { .. } => Some(ui_status_bar()),
        }
    }

    /// The namespace under which the host offers the operation.
    pub open spec fn namespace(self) -> Seq<char> {
        match self {
            HostRequest::Log { .. } => "console"@,
            HostRequest::GetContent => "text"@,
            HostRequest::GetSelection => "text"@,
            HostRequest::ReplaceContent { .. } => "text"@,
            HostRequest::InsertAtCursor { .. } => "text"@,
            HostRequest::UpdatePanel { .. } => "ui"@,
            HostRequest::UpdateStatusBar { .. } => "ui"@,
        }
    }

    /// The name of the operation within its namespace.
    pub open spec fn method(self) -> Seq<char> {
        match self {
            HostRequest::Log { level: LogLevel::Log, .. } => "log"@,
            HostRequest::Log { level: LogLevel::Warn, .. } => "warn"@,
            HostRequest::Log { level: LogLevel::Error, .. } => "error"@,
            HostRequest::GetContent => "getContent"@,
            HostRequest::GetSelection => "getSelection"@,
            HostRequest::ReplaceContent { .. } => "replaceContent"@,
            HostRequest::InsertAtCursor { .. } => "insertAtCursor"@,
            HostRequest::UpdatePanel { .. } => "updatePanel"@,
            HostRequest::UpdateStatusBar { .. } => "updateStatusBar"@,
        }
    }
}

impl View for HostCall {
    type V = HostRequest;

    open spec fn view(&self) -> HostRequest {
        match *self {
            HostCall::Log { level, message } => HostRequest::Log { level, message: message@ },
            HostCall::GetContent => HostRequest::GetContent,
            HostCall::GetSelection => HostRequest::GetSelection,
            HostCall::ReplaceContent { content } => HostRequest::ReplaceContent {
                content: content@,
            },
            HostCall::InsertAtCursor { text } => HostRequest::InsertAtCursor { text: text@ },
            HostCall::UpdatePanel { panel_id, html } => HostRequest::UpdatePanel {
                panel_id: panel_id@,
                html: html@,
            },
            HostCall::UpdateStatusBar { item_id, text } => HostRequest::UpdateStatusBar {
                item_id: item_id@,
                text: text@,
            },
        }
    }
}

impl HostCall {
    /// The capability that the operation needs, if it needs one.
    pub fn required_capability(&self) -> (capability: Option<&'static str>)
        ensures
            capability is Some <==> self@.needs() is Some,
            capability matches Some(c) ==> self@.needs() == Some(c@),
    {
        match self {
            HostCall::Log { .. } => None,
            HostCall::GetContent => Some("text.read"),
            HostCall::GetSelection => Some("text.read"),
            HostCall::ReplaceContent { .. } => Some("text.transform"),
            HostCall::InsertAtCursor { .. } => Some("text.transform"),
            HostCall::UpdatePanel { .. } => Some("ui.panel"),
            HostCall::UpdateStatusBar { .. } => Some("ui.statusBar"),
        }
    }

    /// The namespace under which the host offers the operation.
    pub fn namespace(&self) -> (namespace: &'static str)
        ensures
            namespace@ == self@.namespace(),
    {
        match self {
            HostCall::Log { .. } => "console",
            HostCall::GetContent => "text",
            HostCall::GetSelection => "text",
            HostCall::ReplaceContent { .. } => "text",
            HostCall::InsertAtCursor { .. } => "text",
            HostCall::UpdatePanel { .. } => "ui",
            HostCall::UpdateStatusBar { .. } => "ui",
        }
    }

    /// The name of the operation within its namespace.
    pub fn method(&self) -> (method: &'static str)
        ensures
            method@ == self@.method(),
    {
        match self {
            HostCall::Log { level: LogLevel::Log, .. } => "log",
            HostCall::Log { level: LogLevel::Warn, .. } => "warn",
            HostCall::Log { level: LogLevel::Error, .. } => "error",
            HostCall::GetContent => "getContent",
            HostCall::GetSelection => "getSelection",
            HostCall::ReplaceContent { .. } => "replaceContent",
            HostCall::InsertAtCursor { .. } => "insertAtCursor",
            HostCall::UpdatePanel { .. } => "updatePanel",
            HostCall::UpdateStatusBar { .. } => "updateStatusBar",
        }
    }
}

/// The characters of a host's reply.
pub open spec fn reply_text(reply: Result<String, String>) -> Reply {
    match reply {
        Ok(value) => Ok(value@),
        Err(reason) => Err(reason@),
    }
}

/// The host, as the bridge sees it: something that performs an operation and
/// replies.
pub trait Host: Sized {
    /// Whether the host, in the state `self`, may reply `reply` to `call`
    /// and be left in the state `after`. A host that does not say otherwise
    /// may reply anything and be left in any state.
    open spec fn answers(&self, call: HostRequest, reply: Reply, after: Self) -> bool {
        true
    }

    /// Performs `call` and replies.
    fn perform(&mut self, call: &HostCall) -> (reply: Result<String, String>)
        ensures
            old(self).answers(call@, reply_text(reply), *final(self)),
    ;
}

/// Whether `capabilities` allow the operation `call`.
pub open spec fn permits(capabilities: Set<Seq<char>>, call: HostRequest) -> bool {
    match call.needs() {
        Some(capability) => capabilities.contains(capability),
        None => true,
    }
}

/// What a plugin gets for a host's reply: the value, or `HostCallFailed`.
pub open spec fn settled(reply: Reply) -> Result<Seq<char>, PluginError> {
    match reply {
        Ok(value) => Ok(value),
        Err(_) => Err(PluginError::HostCallFailed),
    }
}

/// What a plugin gets for a host's reply to an operation without a value:
/// nothing, or `HostCallFailed`.
pub open spec fn acknowledged(reply: Reply) -> Result<(), PluginError> {
    match reply {
        Ok(_) => Ok(()),
        Err(_) => Err(PluginError::HostCallFailed),
    }
}

/// The characters of a bridge operation's result.
pub open spec fn result_text(result: Result<String, PluginError>) -> Result<
    Seq<char>,
    PluginError,
> {
    match result {
        Ok(value) => Ok(value@),
        Err(error) => Err(error),
    }
}

/// Whether `result` may be what the operation `call` comes to when the host
/// goes from `before` to `after`. Without the capability that the operation
/// needs, it is refused and the host stays as it was. With it, the host
/// performs the operation, and the result is what its reply settles to.
pub open spec fn bridged<H: Host>(
    capabilities: Set<Seq<char>>,
    before: H,
    call: HostRequest,
    result: Result<Seq<char>, PluginError>,
    after: H,
) -> bool {
    if permits(capabilities, call) {
        exists|reply: Reply| #[trigger] before.answers(call, reply, after) && result == settled(reply)
    } else {
        result == Err::<Seq<char>, PluginError>(PluginError::PermissionDenied) && after == before
    }
}

/// As `bridged`, for an operation that returns no value.
pub open spec fn bridged_quietly<H: Host>(
    capabilities: Set<Seq<char>>,
    before: H,
    call: HostRequest,
    result: Result<(), PluginError>,
    after: H,
) -> bool {
    if permits(capabilities, call) {
        exists|reply: Reply| #[trigger]
            before.answers(call, reply, after) && result == acknowledged(reply)
    } else {
        result == Err::<(), PluginError>(PluginError::PermissionDenied) && after == before
    }
}

/// Turns a host's reply into the result of a bridge operation.
pub fn settle(reply: Result<String, String>) -> (result: Result<String, PluginError>)
    ensures
        result_text(result) == settled(reply_text(reply)),
{
    match reply {
        Ok(value) => Ok(value),
        Err(_) => Err(PluginError::HostCallFailed),
    }
}

/// Turns a host's reply into the result of a bridge operation that returns
/// no value.
pub fn acknowledge(reply: Result<String, String>) -> (result: Result<(), PluginError>)
    ensures
        result == acknowledged(reply_text(reply)),
{
    match reply {
        Ok(_) => Ok(()),
        Err(_) => Err(PluginError::HostCallFailed),
    }
}

/// Tells whether `capabilities` allow `call`.
pub fn allowed(capabilities: &CapabilitySet, call: &HostCall) -> (permitted: bool)
    ensures
        permitted == permits(capabilities@, call@),
{
    match call.required_capability() {
        Some(capability) => capabilities.has(capability),
        None => true,
    }
}

/// Asks the host for `call` on behalf of an instance with `capabilities`.
/// Without the capability that `call` needs the result is `PermissionDenied`
/// and the host is not reached.
pub fn invoke<H: Host>(capabilities: &CapabilitySet, host: &mut H, call: &HostCall) -> (result:
    Result<String, PluginError>)
    ensures
        bridged(capabilities@, *old(host), call@, result_text(result), *final(host)),
{
    if !allowed(capabilities, call) {
        return Err(PluginError::PermissionDenied);
    }
    settle(host.perform(call))
}

/// As `invoke`, for an operation that returns no value.
pub fn invoke_quietly<H: Host>(capabilities: &CapabilitySet, host: &mut H, call: &HostCall) -> (result:
    Result<(), PluginError>)
    ensures
        bridged_quietly(capabilities@, *old(host), call@, result, *final(host)),
{
    if !allowed(capabilities, call) {
        return Err(PluginError::PermissionDenied);
    }
    acknowledge(host.perform(call))
}

/// An operation that needs a capability which the manifest does not grant is
/// refused with `PermissionDenied`, whatever the host is, and leaves the
/// host as it was.
pub proof fn law_denied_without_capability<H: Host>(
    capabilities: Set<Seq<char>>,
    before: H,
    call: HostRequest,
    capability: Seq<char>,
    result: Result<Seq<char>, PluginError>,
    quiet_result: Result<(), PluginError>,
    after: H,
)
    requires
        call.needs() == Some(capability),
        !capabilities.contains(capability),
    ensures
        bridged(capabilities, before, call, result, after) ==> result == Err::<
            Seq<char>,
            PluginError,
        >(PluginError::PermissionDenied) && after == before,
        bridged_quietly(capabilities, before, call, quiet_result, after) ==> quiet_result == Err::<
            (),
            PluginError,
        >(PluginError::PermissionDenied) && after == before,
{
}

/// The line that the console shows for `message`: the message behind the
/// plugin marker.
pub open spec fn plugin_line(message: Seq<char>) -> Seq<char> {
    "[Plugin] "@ + message
}

/// Whether the host went from `before` to `after` by taking the console
/// message `message` at `level`.
pub open spec fn logged<H: Host>(before: H, level: LogLevel, message: Seq<char>, after: H) -> bool {
    exists|reply: Reply| #[trigger]
        before.answers(HostRequest::Log { level, message: plugin_line(message) }, reply, after)
}

/// Sends `msg` to the host's console at `level`, behind the plugin marker.
/// No capability is needed, and what the host replies is ignored.
pub fn console<H: Host>(host: &mut H, level: LogLevel, msg: &str)
    ensures
        logged(*old(host), level, msg@, *final(host)),
{
    let message = String::from_str("[Plugin] ").concat(msg);
    let _ = host.perform(&HostCall::Log { level, message });
}

/// Logs `msg` to the host's console.
pub fn console_log<H: Host>(host: &mut H, msg: &str)
    ensures
        logged(*old(host), LogLevel::Log, msg@, *final(host)),
{
    console(host, LogLevel::Log, msg)
}

/// Logs `msg` to the host's console as an error.
pub fn console_error<H: Host>(host: &mut H, msg: &str)
    ensures
        logged(*old(host), LogLevel::Error, msg@, *final(host)),
{
    console(host, LogLevel::Error, msg)
}

/// Logs `msg` to the host's console as a warning.
pub fn console_warn<H: Host>(host: &mut H, msg: &str)
    ensures
        logged(*old(host), LogLevel::Warn, msg@, *final(host)),
{
    console(host, LogLevel::Warn, msg)
}

} // verus!
