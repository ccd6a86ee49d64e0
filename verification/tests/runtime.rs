use serde_json::Value;
use wasm_plugin_sdk::capability::CapabilitySet;
use wasm_plugin_sdk::dispatch::{content_of, text_or_empty, Handler, Kind, Tagged};
use wasm_plugin_sdk::api::text::TextAPI;
use wasm_plugin_sdk::api::ui::UiAPI;
use wasm_plugin_sdk::error::PluginError;
use wasm_plugin_sdk::host::Host;
use wasm_plugin_sdk::memory::MemoryHost;
use wasm_plugin_sdk::instance::{register_command, register_event, Instance, Lifecycle};
use wasm_plugin_sdk::manifest::PluginManifest;
use wasm_plugin_sdk::names::NameMap;
use wasm_plugin_sdk::registry::Registry;

fn manifest(permissions: &[&str]) -> PluginManifest {
    PluginManifest {
        id: "test.plugin".to_string(),
        name: "Test".to_string(),
        version: "0.1.0".to_string(),
        description: "A plugin for tests".to_string(),
        author: "Nobody".to_string(),
        permissions: permissions.iter().map(|p| p.to_string()).collect(),
    }
}

fn message(json: &str) -> Value {
    serde_json::from_str(json).unwrap()
}

/// Answers with its own name in front of the content.
struct Echo(&'static str);

impl<B: Host> Handler<B> for Echo {
    type Payload = String;

    fn handle(&self, input: &Value, _capabilities: &CapabilitySet, _host: &mut B) -> Option<Tagged<String>> {
        Some(Tagged { tag: "echo".to_string(), payload: format!("{}:{}", self.0, content_of(input)) })
    }
}

/// Shows the editor's content in the panel `preview` and answers with it.
struct Preview;

impl<B: Host> Handler<B> for Preview {
    type Payload = String;

    fn handle(&self, _input: &Value, capabilities: &CapabilitySet, host: &mut B) -> Option<Tagged<String>> {
        let content = TextAPI::new(capabilities).get_content(host).ok()?;
        UiAPI::new(capabilities).update_panel(host, "preview", &content).ok()?;
        Some(Tagged { tag: "preview".to_string(), payload: content })
    }
}

fn host() -> MemoryHost {
    let mut host = MemoryHost::new(vec!["preview".to_string()], Vec::new());
    host.edit("some ", "text", "");
    host
}

fn echoed(who: &str, content: &str) -> Result<Option<Tagged<String>>, PluginError> {
    Ok(Some(Tagged { tag: "echo".to_string(), payload: format!("{}:{}", who, content) }))
}

#[test]
fn capabilities_come_from_the_manifest() {
    let set = CapabilitySet::from_permissions(&vec!["text.read".to_string(), "ui.panel".to_string()]);
    assert!(set.has("text.read"));
    assert!(set.has("ui.panel"));
    assert!(!set.has("text.transform"));
    assert!(!set.has("text"));
    assert!(!set.has(""));
}

#[test]
fn unknown_capabilities_grant_nothing_known() {
    let instance: Instance<Echo> = Instance::load(manifest(&["future.power"]));
    assert!(instance.has("future.power"));
    assert!(!instance.has("text.read"));
    assert!(!instance.has("ui.statusBar"));
}

#[test]
fn content_is_read_permissively() {
    assert_eq!(content_of(&message(r#"{"content":"hello"}"#)), "hello");
    assert_eq!(content_of(&message(r#"{"content":""}"#)), "");
    assert_eq!(content_of(&message(r#"{"other":"hello"}"#)), "");
    assert_eq!(content_of(&message(r#"{"content":12}"#)), "");
    assert_eq!(content_of(&message(r#"{"content":null}"#)), "");
    assert_eq!(content_of(&message(r#"["content"]"#)), "");
    assert_eq!(content_of(&message(r#""content""#)), "");
    assert_eq!(content_of(&Value::Null), "");
    assert_eq!(text_or_empty(None), "");
    assert_eq!(text_or_empty(Some("x".to_string())), "x");
}

#[test]
fn name_map_binds_each_name_once() {
    let mut map: NameMap<u32> = NameMap::new();
    assert_eq!(map.len(), 0);
    map.insert("a", 1);
    map.insert("b", 2);
    map.insert("a", 3);
    assert_eq!(map.len(), 2);
    assert_eq!(map.get("a"), Some(&3));
    assert_eq!(map.get("b"), Some(&2));
    assert_eq!(map.get("c"), None);
    assert!(map.contains("a"));
    assert_eq!(map.remove("a"), Some(3));
    assert_eq!(map.remove("a"), None);
    assert!(!map.contains("a"));
    assert_eq!(map.len(), 1);
    map.clear();
    assert_eq!(map.len(), 0);
    assert_eq!(map.get("b"), None);
}

#[test]
fn registry_keeps_namespaces_apart() {
    let mut registry: Registry<u32> = Registry::new();
    registry.register_command("x", 1);
    registry.register_event("x", 2);
    assert_eq!(registry.lookup(Kind::Command, "x"), Some(&1));
    assert_eq!(registry.lookup(Kind::Event, "x"), Some(&2));
    registry.unregister_command("x");
    assert_eq!(registry.lookup(Kind::Command, "x"), None);
    assert_eq!(registry.lookup(Kind::Event, "x"), Some(&2));
    registry.unregister_event("x");
    registry.unregister_event("x");
    assert_eq!(registry.count(Kind::Event), 0);
}

#[test]
fn registration_replaces() {
    let mut registry: Registry<u32> = Registry::new();
    registry.register_event("content.changed", 1);
    assert_eq!(registry.count(Kind::Event), 1);
    registry.register_event("content.changed", 2);
    assert_eq!(registry.count(Kind::Event), 1);
    assert_eq!(registry.lookup(Kind::Event, "content.changed"), Some(&2));
    registry.clear();
    assert_eq!(registry.count(Kind::Event), 0);
}

#[test]
fn instance_is_loaded_without_handlers() {
    let instance: Instance<Echo> = Instance::load(manifest(&["text.read"]));
    assert_eq!(instance.state(), Lifecycle::Loaded);
    assert_eq!(instance.count(Kind::Command), 0);
    assert_eq!(instance.count(Kind::Event), 0);
    assert_eq!(instance.manifest().id, "test.plugin");
    assert!(instance.capabilities().has("text.read"));
}

#[test]
fn dispatch_before_activation_is_a_violation() {
    let instance: Instance<Echo> = Instance::load(manifest(&[]));
    assert_eq!(
        instance.dispatch(Kind::Event, "content.changed", &message(r#"{"content":"x"}"#), &mut host()),
        Err(PluginError::LifecycleViolation)
    );
    assert_eq!(
        instance.dispatch(Kind::Command, "run", &Value::Null, &mut host()),
        Err(PluginError::LifecycleViolation)
    );
}

#[test]
fn dispatch_after_deactivation_is_a_violation() {
    let mut instance: Instance<Echo> = Instance::load(manifest(&[]));
    assert_eq!(instance.activate(), Ok(()));
    assert_eq!(register_event(&mut instance, "content.changed", Echo("a")), Ok(()));
    assert_eq!(instance.deactivate(), Ok(()));
    assert_eq!(instance.state(), Lifecycle::Deactivated);
    assert_eq!(instance.count(Kind::Event), 0);
    assert_eq!(
        instance.dispatch(Kind::Event, "content.changed", &message(r#"{"content":"x"}"#), &mut host()),
        Err(PluginError::LifecycleViolation)
    );
}

#[test]
fn transitions_happen_once_and_in_order() {
    let mut instance: Instance<Echo> = Instance::load(manifest(&[]));
    assert_eq!(instance.deactivate(), Err(PluginError::LifecycleViolation));
    assert_eq!(instance.state(), Lifecycle::Loaded);
    assert_eq!(instance.activate(), Ok(()));
    assert_eq!(instance.activate(), Err(PluginError::LifecycleViolation));
    assert_eq!(instance.state(), Lifecycle::Active);
    assert_eq!(instance.deactivate(), Ok(()));
    assert_eq!(instance.deactivate(), Err(PluginError::LifecycleViolation));
    assert_eq!(instance.activate(), Err(PluginError::LifecycleViolation));
    assert_eq!(instance.state(), Lifecycle::Deactivated);
}

#[test]
fn registration_needs_an_active_instance() {
    let mut instance: Instance<Echo> = Instance::load(manifest(&[]));
    assert_eq!(
        register_command(&mut instance, "run", Echo("a")),
        Err(PluginError::LifecycleViolation)
    );
    assert_eq!(instance.count(Kind::Command), 0);
    instance.activate().unwrap();
    assert_eq!(register_command(&mut instance, "run", Echo("a")), Ok(()));
    assert_eq!(instance.count(Kind::Command), 1);
    instance.deactivate().unwrap();
    assert_eq!(
        register_event(&mut instance, "content.changed", Echo("a")),
        Err(PluginError::LifecycleViolation)
    );
    assert_eq!(instance.count(Kind::Event), 0);
}

#[test]
fn dispatch_reaches_the_bound_handler() {
    let mut instance: Instance<Echo> = Instance::load(manifest(&[]));
    instance.activate().unwrap();
    register_command(&mut instance, "run", Echo("command")).unwrap();
    register_event(&mut instance, "run", Echo("event")).unwrap();
    let input = message(r#"{"content":"hi"}"#);
    assert_eq!(instance.dispatch(Kind::Command, "run", &input, &mut host()), echoed("command", "hi"));
    assert_eq!(instance.dispatch(Kind::Event, "run", &input, &mut host()), echoed("event", "hi"));
    assert_eq!(instance.dispatch(Kind::Event, "walk", &input, &mut host()), Ok(None));
}

#[test]
fn a_second_registration_replaces_the_first() {
    let mut instance: Instance<Echo> = Instance::load(manifest(&[]));
    instance.activate().unwrap();
    register_event(&mut instance, "content.changed", Echo("first")).unwrap();
    register_event(&mut instance, "content.changed", Echo("second")).unwrap();
    assert_eq!(instance.count(Kind::Event), 1);
    assert_eq!(
        instance.dispatch(Kind::Event, "content.changed", &message(r#"{"content":"x"}"#), &mut host()),
        echoed("second", "x")
    );
}

#[test]
fn an_unregistered_event_has_no_result() {
    let mut instance: Instance<Echo> = Instance::load(manifest(&[]));
    instance.activate().unwrap();
    register_event(&mut instance, "content.changed", Echo("a")).unwrap();
    instance.unregister(Kind::Event, "content.changed");
    assert_eq!(
        instance.dispatch(Kind::Event, "content.changed", &message(r#"{"content":"x"}"#), &mut host()),
        Ok(None)
    );
    instance.unregister(Kind::Event, "content.changed");
    instance.unregister(Kind::Command, "never.bound");
    assert_eq!(instance.state(), Lifecycle::Active);
}

#[test]
fn bound_names_are_listed_once() {
    let mut instance: Instance<Echo> = Instance::load(manifest(&[]));
    assert_eq!(instance.names(Kind::Event), Vec::<String>::new());
    instance.activate().unwrap();
    register_event(&mut instance, "b", Echo("1")).unwrap();
    register_event(&mut instance, "a", Echo("2")).unwrap();
    register_event(&mut instance, "b", Echo("3")).unwrap();
    register_command(&mut instance, "c", Echo("4")).unwrap();
    let mut events = instance.names(Kind::Event);
    events.sort();
    assert_eq!(events, vec!["a".to_string(), "b".to_string()]);
    assert_eq!(instance.names(Kind::Command), vec!["c".to_string()]);
    instance.deactivate().unwrap();
    assert_eq!(instance.names(Kind::Command), Vec::<String>::new());
}

#[test]
fn a_handler_reaches_the_host_with_the_capabilities_of_its_instance() {
    let mut granted: Instance<Preview> = Instance::load(manifest(&["text.read", "ui.panel"]));
    granted.activate().unwrap();
    register_command(&mut granted, "preview", Preview).unwrap();
    let mut h = host();
    assert_eq!(
        granted.dispatch(Kind::Command, "preview", &Value::Null, &mut h),
        Ok(Some(Tagged { tag: "preview".to_string(), payload: "some text".to_string() }))
    );
    assert_eq!(h.panel("preview"), Some("some text".to_string()));

    let mut denied: Instance<Preview> = Instance::load(manifest(&["text.read"]));
    denied.activate().unwrap();
    register_command(&mut denied, "preview", Preview).unwrap();
    let mut h = host();
    let untouched = h.clone();
    assert_eq!(denied.dispatch(Kind::Command, "preview", &Value::Null, &mut h), Ok(None));
    assert_eq!(h, untouched);
}

#[test]
fn a_refused_dispatch_does_not_reach_the_host() {
    let mut instance: Instance<Preview> = Instance::load(manifest(&["text.read", "ui.panel"]));
    let mut h = host();
    let untouched = h.clone();
    assert_eq!(
        instance.dispatch(Kind::Command, "preview", &Value::Null, &mut h),
        Err(PluginError::LifecycleViolation)
    );
    instance.activate().unwrap();
    assert_eq!(instance.dispatch(Kind::Command, "preview", &Value::Null, &mut h), Ok(None));
    assert_eq!(h, untouched);
}
