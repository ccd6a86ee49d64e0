//! A host that lives in memory: an editor buffer with a cursor and a
//! selection, panels, a status bar and a console. It serves where plugins run
//! without an editor, and it shows what a host owes the bridge.

use crate::host::{Host, HostCall, HostRequest, LogLevel, Reply};
use crate::strings::{same_text, texts};
use vstd::prelude::*;
use vstd::string::StringExecFns;

verus! {

/// The host in memory as a mathematical value.
pub struct MemoryHostView {
    /// The content before the cursor.
    pub before_cursor: Seq<char>,
    /// The content behind the cursor.
    pub after_cursor: Seq<char>,
    /// The selected text.
    pub selection: Seq<char>,
    /// The panels that exist.
    pub panels: Seq<Seq<char>>,
    /// The status bar items that exist.
    pub status_items: Seq<Seq<char>>,
    /// The panel updates that were accepted, oldest first: panel and HTML.
    pub panel_updates: Seq<(Seq<char>, Seq<char>)>,
    /// The status bar updates that were accepted, oldest first: item and
    /// text.
    pub status_updates: Seq<(Seq<char>, Seq<char>)>,
    /// The console messages, oldest first.
    pub console: Seq<(LogLevel, Seq<char>)>,
}

/// What `updates` show under `id`: the text of the last update of `id`.
pub open spec fn shown(updates: Seq<(Seq<char>, Seq<char>)>, id: Seq<char>) -> Option<Seq<char>>
    decreases updates.len(),
{
    if updates.len() == 0 {
        None
    } else if updates.last().0 == id {
        Some(updates.last().1)
    } else {
        shown(updates.drop_last(), id)
    }
}

impl MemoryHostView {
    /// The whole content of the editor.
    pub open spec fn content(self) -> Seq<char> {
        self.before_cursor + self.after_cursor
    }

    /// What the host does with `call`: the state it is left in, and its
    /// reply. An update of a panel or of a status bar item that does not
    /// exist is rejected.
    pub open spec fn step(self, call: HostRequest) -> (Self, Reply) {
        match call {
            HostRequest::Log { level, message } => (
                MemoryHostView { console: self.console.push((level, message)), ..self },
                Ok(Seq::empty()),
            ),
            HostRequest::GetContent => (self, Ok(self.content())),
            HostRequest::GetSelection => (self, Ok(self.selection)),
            HostRequest::ReplaceContent { content } => (
                MemoryHostView {
                    before_cursor: content,
                    after_cursor: Seq::empty(),
                    selection: Seq::empty(),
                    ..self
                },
                Ok(Seq::empty()),
            ),
            HostRequest::InsertAtCursor { text } => (
                MemoryHostView { before_cursor: self.before_cursor + text, ..self },
                Ok(Seq::empty()),
            ),
            HostRequest::UpdatePanel { panel_id, html } => if self.panels.contains(panel_id) {
                (
                    MemoryHostView {
                        panel_updates: self.panel_updates.push((panel_id, html)),
                        ..self
                    },
                    Ok(Seq::empty()),
                )
            } else {
                (self, Err("unknown panel"@))
            },
            HostRequest::UpdateStatusBar { item_id, text } => if self.status_items.contains(
                item_id,
            ) {
                (
                    MemoryHostView {
                        status_updates: self.status_updates.push((item_id, text)),
                        ..self
                    },
                    Ok(Seq::empty()),
                )
            } else {
                (self, Err("unknown status bar item"@))
            },
        }
    }
}

/// The characters of each pair of `updates`.
pub open spec fn update_texts(updates: Seq<(String, String)>) -> Seq<(Seq<char>, Seq<char>)> {
    updates.map_values(|update: (String, String)| (update.0@, update.1@))
}

/// The characters of each message of `console`.
pub open spec fn console_texts(console: Seq<(LogLevel, String)>) -> Seq<(LogLevel, Seq<char>)> {
    console.map_values(|line: (LogLevel, String)| (line.0, line.1@))
}

/// A host in memory.
#[derive(Clone, Debug, PartialEq, Eq)]
pub struct MemoryHost {
    before_cursor: String,
    after_cursor: String,
    selection: String,
    panels: Vec<String>,
    status_items: Vec<String>,
    panel_updates: Vec<(String, String)>,
    status_updates: Vec<(String, String)>,
    console: Vec<(LogLevel, String)>,
}

impl View for MemoryHost {
    type V = MemoryHostView;

    closed spec fn view(&self) -> MemoryHostView {
        MemoryHostView {
            before_cursor: self.before_cursor@,
            after_cursor: self.after_cursor@,
            selection: self.selection@,
            panels: texts(self.panels@),
            status_items: texts(self.status_items@),
            panel_updates: update_texts(self.panel_updates@),
            status_updates: update_texts(self.status_updates@),
            console: console_texts(self.console@),
        }
    }
}

/// Tells whether `names` holds `name`.
fn holds(names: &Vec<String>, name: &str) -> (found: bool)
    ensures
        found == texts(names@).contains(name@),
{
    let mut i: usize = 0;
    while i < names.len()
        invariant
            i <= names.len(),
            forall|k: int| 0 <= k < i ==> texts(names@)[k] != name@,
        decreases names.len() - i,
    {
        if same_text(names[i].as_str(), name) {
            assert(texts(names@)[i as int] == name@);
            return true;
        }
        i = i + 1;
    }
    false
}

/// The text of the last update of `id` among `updates`.
fn last_shown(updates: &Vec<(String, String)>, id: &str) -> (text: Option<String>)
    ensures
        (match text {
            Some(t) => shown(update_texts(updates@), id@) == Some(t@),
            None => shown(update_texts(updates@), id@) is None,
        }),
{
    let ghost all = update_texts(updates@);
    let mut i: usize = updates.len();
    assert(all.take(i as int) =~= all);
    while i > 0
        invariant
            i <= updates.len(),
            all == update_texts(updates@),
            shown(all, id@) == shown(all.take(i as int), id@),
        decreases i,
    {
        assert(all.take(i as int).drop_last() =~= all.take(i - 1));
        assert(all.take(i as int).last() == all[i - 1]);
        if same_text(updates[i - 1].0.as_str(), id) {
            return Some(updates[i - 1].1.clone());
        }
        i = i - 1;
    }
    None
}

impl MemoryHost {
    /// A host with the given panels and status bar items, with an empty
    /// editor and an empty console.
    pub fn new(panels: Vec<String>, status_items: Vec<String>) -> (host: Self)
        ensures
            host@ == (MemoryHostView {
                before_cursor: Seq::empty(),
                after_cursor: Seq::empty(),
                selection: Seq::empty(),
                panels: texts(panels@),
                status_items: texts(status_items@),
                panel_updates: Seq::empty(),
                status_updates: Seq::empty(),
                console: Seq::empty(),
            }),
    {
        let host = MemoryHost {
            before_cursor: String::new(),
            after_cursor: String::new(),
            selection: String::new(),
            panels,
            status_items,
            panel_updates: Vec::new(),
            status_updates: Vec::new(),
            console: Vec::new(),
        };
        assert(host@.panel_updates =~= Seq::empty());
        assert(host@.status_updates =~= Seq::empty());
        assert(host@.console =~= Seq::empty());
        host
    }

    /// Puts `before_cursor` and `after_cursor` into the editor, with the
    /// cursor between them, and selects `selection`.
    pub fn edit(&mut self, before_cursor: &str, after_cursor: &str, selection: &str)
        ensures
            final(self)@ == (MemoryHostView {
                before_cursor: before_cursor@,
                after_cursor: after_cursor@,
                selection: selection@,
                ..old(self)@
            }),
    {
        self.before_cursor = before_cursor.to_owned();
        self.after_cursor = after_cursor.to_owned();
        self.selection = selection.to_owned();
    }

    /// The whole content of the editor.
    pub fn content(&self) -> (content: String)
        ensures
            content@ == self@.content(),
    {
        self.before_cursor.clone().concat(self.after_cursor.as_str())
    }

    /// What the panel `id` shows, if it was ever updated.
    pub fn panel(&self, id: &str) -> (html: Option<String>)
        ensures
            (match html {
                Some(t) => shown(self@.panel_updates, id@) == Some(t@),
                None => shown(self@.panel_updates, id@) is None,
            }),
    {
        last_shown(&self.panel_updates, id)
    }

    /// What the status bar item `id` shows, if it was ever updated.
    pub fn status_item(&self, id: &str) -> (text: Option<String>)
        ensures
            (match text {
                Some(t) => shown(self@.status_updates, id@) == Some(t@),
                None => shown(self@.status_updates, id@) is None,
            }),
    {
        last_shown(&self.status_updates, id)
    }

    /// The console messages, oldest first.
    pub fn console(&self) -> (console: &Vec<(LogLevel, String)>)
        ensures
            console_texts(console@) == self@.console,
    {
        &self.console
    }
}

impl Host for MemoryHost {
    /// The host replies and changes as `MemoryHostView::step` says.
    open spec fn answers(&self, call: HostRequest, reply: Reply, after: Self) -> bool {
        (after@, reply) == self@.step(call)
    }

    fn perform(&mut self, call: &HostCall) -> (reply: Result<String, String>) {
        match call {
            HostCall::Log { level, message } => {
                self.console.push((*level, message.clone()));
                assert(console_texts(self.console@) =~= console_texts(old(self).console@).push(
                    (*level, message@),
                ));
                Ok(String::new())
            },
            HostCall::GetContent => Ok(self.content()),
            HostCall::GetSelection => Ok(self.selection.clone()),
            HostCall::ReplaceContent { content } => {
                self.before_cursor = content.clone();
                self.after_cursor = String::new();
                self.selection = String::new();
                Ok(String::new())
            },
            HostCall::InsertAtCursor { text } => {
                self.before_cursor.append(text.as_str());
                Ok(String::new())
            },
            HostCall::UpdatePanel { panel_id, html } => {
                if holds(&self.panels, panel_id.as_str()) {
                    self.panel_updates.push((panel_id.clone(), html.clone()));
                    assert(update_texts(self.panel_updates@) =~= update_texts(
                        old(self).panel_updates@,
                    ).push((panel_id@, html@)));
                    Ok(String::new())
                } else {
                    Err("unknown panel".to_owned())
                }
            },
            HostCall::UpdateStatusBar { item_id, text } => {
                if holds(&self.status_items, item_id.as_str()) {
                    self.status_updates.push((item_id.clone(), text.clone()));
                    assert(update_texts(self.status_updates@) =~= update_texts(
                        old(self).status_updates@,
                    ).push((item_id@, text@)));
                    Ok(String::new())
                } else {
                    Err("unknown status bar item".to_owned())
                }
            },
        }
    }
}

} // verus!
