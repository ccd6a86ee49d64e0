use wasm_plugin_sdk::api::text::TextAPI;
use wasm_plugin_sdk::api::ui::UiAPI;
use wasm_plugin_sdk::capability::CapabilitySet;
use wasm_plugin_sdk::error::PluginError;
use wasm_plugin_sdk::host::{
    acknowledge, allowed, console_error, console_log, console_warn, invoke, invoke_quietly, settle,
    Host, HostCall, LogLevel,
};
use wasm_plugin_sdk::memory::MemoryHost;

fn capabilities(names: &[&str]) -> CapabilitySet {
    CapabilitySet::from_permissions(&names.iter().map(|n| n.to_string()).collect())
}

fn host() -> MemoryHost {
    let mut host = MemoryHost::new(vec!["preview".to_string()], vec!["words".to_string()]);
    host.edit("Hello ", "world", "lo wo");
    host
}

/// A host that fails every operation and counts them.
struct Failing(usize);

impl Host for Failing {
    fn perform(&mut self, _call: &HostCall) -> Result<String, String> {
        self.0 += 1;
        Err("out of order".to_string())
    }
}

#[test]
fn reading_needs_text_read() {
    let none = capabilities(&["text.transform", "ui.panel", "ui.statusBar"]);
    let mut h = host();
    let untouched = h.clone();
    assert_eq!(TextAPI::new(&none).get_content(&mut h), Err(PluginError::PermissionDenied));
    assert_eq!(TextAPI::new(&none).get_selection(&mut h), Err(PluginError::PermissionDenied));
    assert_eq!(h, untouched);
    let read = capabilities(&["text.read"]);
    assert_eq!(TextAPI::new(&read).get_content(&mut h), Ok("Hello world".to_string()));
    assert_eq!(TextAPI::new(&read).get_selection(&mut h), Ok("lo wo".to_string()));
    assert_eq!(h, untouched);
}

#[test]
fn changing_needs_text_transform() {
    let read = capabilities(&["text.read", "ui.panel", "ui.statusBar"]);
    let mut h = host();
    let untouched = h.clone();
    assert_eq!(TextAPI::new(&read).replace_content(&mut h, "x"), Err(PluginError::PermissionDenied));
    assert_eq!(TextAPI::new(&read).insert_at_cursor(&mut h, "x"), Err(PluginError::PermissionDenied));
    assert_eq!(h, untouched);
    let write = capabilities(&["text.transform"]);
    assert_eq!(TextAPI::new(&write).insert_at_cursor(&mut h, "big "), Ok(()));
    assert_eq!(h.content(), "Hello big world");
    assert_eq!(TextAPI::new(&write).replace_content(&mut h, "new"), Ok(()));
    assert_eq!(h.content(), "new");
    assert_eq!(TextAPI::new(&write).insert_at_cursor(&mut h, "er"), Ok(()));
    assert_eq!(h.content(), "newer");
}

#[test]
fn panels_need_ui_panel() {
    let other = capabilities(&["text.read", "text.transform", "ui.statusBar"]);
    let mut h = host();
    let untouched = h.clone();
    assert_eq!(
        UiAPI::new(&other).update_panel(&mut h, "preview", "<p>x</p>"),
        Err(PluginError::PermissionDenied)
    );
    assert_eq!(h, untouched);
    assert_eq!(h.panel("preview"), None);
    let ui = capabilities(&["ui.panel"]);
    assert_eq!(UiAPI::new(&ui).update_panel(&mut h, "preview", "<p>x</p>"), Ok(()));
    assert_eq!(UiAPI::new(&ui).update_panel(&mut h, "preview", "<p>y</p>"), Ok(()));
    assert_eq!(h.panel("preview"), Some("<p>y</p>".to_string()));
}

#[test]
fn the_status_bar_needs_ui_status_bar() {
    let other = capabilities(&["text.read", "text.transform", "ui.panel"]);
    let mut h = host();
    let untouched = h.clone();
    assert_eq!(
        UiAPI::new(&other).update_status_bar(&mut h, "words", "4 words"),
        Err(PluginError::PermissionDenied)
    );
    assert_eq!(h, untouched);
    let ui = capabilities(&["ui.statusBar"]);
    assert_eq!(UiAPI::new(&ui).update_status_bar(&mut h, "words", "4 words"), Ok(()));
    assert_eq!(h.status_item("words"), Some("4 words".to_string()));
    assert_eq!(h.status_item("lines"), None);
}

#[test]
fn a_rejected_update_is_a_failed_host_call() {
    let ui = capabilities(&["ui.panel", "ui.statusBar"]);
    let mut h = host();
    let untouched = h.clone();
    assert_eq!(
        UiAPI::new(&ui).update_panel(&mut h, "missing", "<p>x</p>"),
        Err(PluginError::HostCallFailed)
    );
    assert_eq!(
        UiAPI::new(&ui).update_status_bar(&mut h, "missing", "x"),
        Err(PluginError::HostCallFailed)
    );
    assert_eq!(h, untouched);
}

#[test]
fn a_denied_call_does_not_reach_the_host() {
    let none = capabilities(&[]);
    let mut failing = Failing(0);
    assert_eq!(
        invoke(&none, &mut failing, &HostCall::GetContent),
        Err(PluginError::PermissionDenied)
    );
    assert_eq!(
        invoke_quietly(&none, &mut failing, &HostCall::ReplaceContent { content: "x".to_string() }),
        Err(PluginError::PermissionDenied)
    );
    assert_eq!(failing.0, 0);
    let all = capabilities(&["text.read", "text.transform"]);
    assert_eq!(invoke(&all, &mut failing, &HostCall::GetContent), Err(PluginError::HostCallFailed));
    assert_eq!(
        invoke_quietly(&all, &mut failing, &HostCall::ReplaceContent { content: "x".to_string() }),
        Err(PluginError::HostCallFailed)
    );
    assert_eq!(failing.0, 2);
}

#[test]
fn logging_needs_no_capability() {
    let none = capabilities(&[]);
    let log = HostCall::Log { level: LogLevel::Log, message: "m".to_string() };
    assert!(allowed(&none, &log));
    assert!(!allowed(&none, &HostCall::GetSelection));
    assert_eq!(log.required_capability(), None);
    let mut h = host();
    assert_eq!(invoke_quietly(&none, &mut h, &log), Ok(()));
    assert_eq!(h.console(), &vec![(LogLevel::Log, "m".to_string())]);
}

#[test]
fn console_lines_carry_the_plugin_marker() {
    let mut h = host();
    console_log(&mut h, "started");
    console_warn(&mut h, "careful");
    console_error(&mut h, "broken");
    assert_eq!(
        h.console(),
        &vec![
            (LogLevel::Log, "[Plugin] started".to_string()),
            (LogLevel::Warn, "[Plugin] careful".to_string()),
            (LogLevel::Error, "[Plugin] broken".to_string()),
        ]
    );
    assert_eq!(h.content(), "Hello world");
}

#[test]
fn operations_have_a_namespace_a_method_and_a_capability() {
    let calls = [
        (HostCall::Log { level: LogLevel::Log, message: String::new() }, "console", "log", None),
        (HostCall::Log { level: LogLevel::Warn, message: String::new() }, "console", "warn", None),
        (HostCall::Log { level: LogLevel::Error, message: String::new() }, "console", "error", None),
        (HostCall::GetContent, "text", "getContent", Some("text.read")),
        (HostCall::GetSelection, "text", "getSelection", Some("text.read")),
        (
            HostCall::ReplaceContent { content: String::new() },
            "text",
            "replaceContent",
            Some("text.transform"),
        ),
        (
            HostCall::InsertAtCursor { text: String::new() },
            "text",
            "insertAtCursor",
            Some("text.transform"),
        ),
        (
            HostCall::UpdatePanel { panel_id: String::new(), html: String::new() },
            "ui",
            "updatePanel",
            Some("ui.panel"),
        ),
        (
            HostCall::UpdateStatusBar { item_id: String::new(), text: String::new() },
            "ui",
            "updateStatusBar",
            Some("ui.statusBar"),
        ),
    ];
    for (call, namespace, method, capability) in calls {
        assert_eq!(call.namespace(), namespace);
        assert_eq!(call.method(), method);
        assert_eq!(call.required_capability(), capability);
    }
}

#[test]
fn replies_settle() {
    assert_eq!(settle(Ok("v".to_string())), Ok("v".to_string()));
    assert_eq!(settle(Err("e".to_string())), Err(PluginError::HostCallFailed));
    assert_eq!(acknowledge(Ok("v".to_string())), Ok(()));
    assert_eq!(acknowledge(Err("e".to_string())), Err(PluginError::HostCallFailed));
}
