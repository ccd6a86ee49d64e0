//! The capability model: the permissions that a manifest grants.

use crate::strings::same_text;
use vstd::prelude::*;

verus! {

/// The capability to read the editor's content and selection.
pub open spec fn text_read() -> Seq<char> {
    "text.read"@
}

/// The capability to change the editor's content.
pub open spec fn text_transform() -> Seq<char> {
    "text.transform"@
}

/// The capability to update a panel.
pub open spec fn ui_panel() -> Seq<char> {
    "ui.panel"@
}

/// The capability to update the status bar.
pub open spec fn ui_status_bar() -> Seq<char> {
    "ui.statusBar"@
}

/// The names of `permissions` as a set.
pub open spec fn granted_by(permissions: Seq<String>) -> Set<Seq<char>> {
    Set::new(|name: Seq<char>| exists|i: int| 0 <= i < permissions.len() && permissions[i]@ == name)
}

/// The capabilities of one instance. The set is built once, from the
/// permissions of the manifest, and never changes: no operation adds to it.
pub struct CapabilitySet {
    granted: Vec<String>,
}

impl View for CapabilitySet {
    type V = Set<Seq<char>>;

    /// The names of the granted capabilities.
    closed spec fn view(&self) -> Set<Seq<char>> {
        granted_by(self.granted@)
    }
}

impl CapabilitySet {
    /// The capabilities that `permissions` name. A name that the runtime does
    /// not know is kept and grants nothing that the runtime asks for.
    pub fn from_permissions(permissions: &Vec<String>) -> (set: Self)
        ensures
            set@ == granted_by(permissions@),
    {
        let mut granted: Vec<String> = Vec::new();
        let mut i: usize = 0;
        while i < permissions.len()
            invariant
                i <= permissions.len(),
                granted@ == permissions@.take(i as int),
            decreases permissions.len() - i,
        {
            granted.push(permissions[i].clone());
            assert(granted@ =~= permissions@.take(i + 1));
            i = i + 1;
        }
        assert(permissions@.take(permissions.len() as int) =~= permissions@);
        CapabilitySet { granted }
    }

    /// Tells whether `capability` is granted.
    pub fn has(&self, capability: &str) -> (granted: bool)
        ensures
            granted == self@.contains(capability@),
    {
        let mut i: usize = 0;
        while i < self.granted.len()
            invariant
                i <= self.granted.len(),
                forall|k: int| 0 <= k < i ==> self.granted@[k]@ != capability@,
            decreases self.granted.len() - i,
        {
            if same_text(self.granted[i].as_str(), capability) {
                return true;
            }
            i = i + 1;
        }
        false
    }
}

} // verus!
