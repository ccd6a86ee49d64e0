//! The text API: reading and changing the editor's content.

use crate::capability::CapabilitySet;
use crate::error::PluginError;
use crate::host::{bridged, bridged_quietly, invoke, invoke_quietly, result_text, Host, HostCall, HostRequest};
use vstd::prelude::*;

verus! {

/// Access to the editor's content for an instance with given capabilities.
/// Reading needs `text.read`, changing needs `text.transform`.
pub struct TextAPI<'a> {
    capabilities: &'a CapabilitySet,
}

impl<'a> TextAPI<'a> {
    /// The capabilities that the operations are checked against.
    pub closed spec fn capabilities(&self) -> Set<Seq<char>> {
        self.capabilities@
    }

    /// The text API of an instance with `capabilities`.
    pub fn new(capabilities: &'a CapabilitySet) -> (api: Self)
        ensures
            api.capabilities() == capabilities@,
    {
        TextAPI { capabilities }
    }

    /// The current content of the editor.
    pub fn get_content<H: Host>(&self, host: &mut H) -> (result: Result<String, PluginError>)
        ensures
            bridged(
                self.capabilities(),
                *old(host),
                HostRequest::GetContent,
                result_text(result),
                *final(host),
            ),
    {
        invoke(self.capabilities, host, &HostCall::GetContent)
    }

    /// The current selection.
    pub fn get_selection<H: Host>(&self, host: &mut H) -> (result: Result<String, PluginError>)
        ensures
            bridged(
                self.capabilities(),
                *old(host),
                HostRequest::GetSelection,
                result_text(result),
                *final(host),
            ),
    {
        invoke(self.capabilities, host, &HostCall::GetSelection)
    }

    /// Replaces the whole content of the editor by `new_content`.
    pub fn replace_content<H: Host>(&self, host: &mut H, new_content: &str) -> (result: Result<
        (),
        PluginError,
    >)
        ensures
            bridged_quietly(
                self.capabilities(),
                *old(host),
                (HostRequest::ReplaceContent { content: new_content@ }),
                result,
                *final(host),
            ),
    {
        invoke_quietly(
            self.capabilities,
            host,
            &HostCall::ReplaceContent { content: new_content.to_owned() },
        )
    }

    /// Inserts `text` at the cursor.
    pub fn insert_at_cursor<H: Host>(&self, host: &mut H, text: &str) -> (result: Result<
        (),
        PluginError,
    >)
        ensures
            bridged_quietly(
                self.capabilities(),
                *old(host),
                (HostRequest::InsertAtCursor { text: text@ }),
                result,
                *final(host),
            ),
    {
        invoke_quietly(self.capabilities, host, &HostCall::InsertAtCursor { text: text.to_owned() })
    }
}

} // verus!
