//! The UI API: panels and the status bar.

use crate::capability::CapabilitySet;
use crate::error::PluginError;
use crate::host::{bridged_quietly, invoke_quietly, Host, HostCall, HostRequest};
use vstd::prelude::*;

verus! {

/// Access to the host's panels and status bar for an instance with given
/// capabilities. A panel needs `ui.panel`, the status bar `ui.statusBar`.
pub struct UiAPI<'a> {
    capabilities: &'a CapabilitySet,
}

impl<'a> UiAPI<'a> {
    /// The capabilities that the operations are checked against.
    pub closed spec fn capabilities(&self) -> Set<Seq<char>> {
        self.capabilities@
    }

    /// The UI API of an instance with `capabilities`.
    pub fn new(capabilities: &'a CapabilitySet) -> (api: Self)
        ensures
            api.capabilities() == capabilities@,
    {
        UiAPI { capabilities }
    }

    /// Shows `html` in the panel `panel_id`.
    pub fn update_panel<H: Host>(&self, host: &mut H, panel_id: &str, html: &str) -> (result:
        Result<(), PluginError>)
        ensures
            bridged_quietly(
                self.capabilities(),
                *old(host),
                (HostRequest::UpdatePanel { panel_id: panel_id@, html: html@ }),
                result,
                *final(host),
            ),
    {
        invoke_quietly(
            self.capabilities,
            host,
            &HostCall::UpdatePanel { panel_id: panel_id.to_owned(), html: html.to_owned() },
        )
    }

    /// Shows `text` in the status bar item `item_id`.
    pub fn update_status_bar<H: Host>(&self, host: &mut H, item_id: &str, text: &str) -> (result:
        Result<(), PluginError>)
        ensures
            bridged_quietly(
                self.capabilities(),
                *old(host),
                (HostRequest::UpdateStatusBar { item_id: item_id@, text: text@ }),
                result,
                *final(host),
            ),
    {
        invoke_quietly(
            self.capabilities,
            host,
            &HostCall::UpdateStatusBar { item_id: item_id.to_owned(), text: text.to_owned() },
        )
    }
}

} // verus!
