//! The markdown renderer: markdown to HTML.

use crate::capability::CapabilitySet;
use crate::dispatch::{content_changed, content_of, content_text, Handler, Kind, Tagged};
use crate::error::PluginError;
use crate::host::{console_log, logged, Host, LogLevel};
use crate::instance::{register_event, Instance, Lifecycle};
use vstd::prelude::*;

verus! {

/// The HTML that `pulldown_cmark` renders for a markdown text, with the
/// extensions for strikethrough, tables and task lists switched on or off.
pub uninterp spec fn markdown_html(
    markdown: Seq<char>,
    strikethrough: bool,
    tables: bool,
    tasklists: bool,
) -> Seq<char>;

/// `pulldown_cmark::html::push_html` on a `pulldown_cmark::Parser` made by
/// `Parser::new_ext`, with the three options set as given: the HTML depends
/// on the markdown text and the options alone, and `markdown_html` is the
/// name of its characters. Every text is accepted.
#[verifier::external_body]
fn push_html(markdown: &str, strikethrough: bool, tables: bool, tasklists: bool) -> (html: String)
    ensures
        html@ == markdown_html(markdown@, strikethrough, tables, tasklists),
{
    let mut options = pulldown_cmark::Options::empty();
    options.set(pulldown_cmark::Options::ENABLE_STRIKETHROUGH, strikethrough);
    options.set(pulldown_cmark::Options::ENABLE_TABLES, tables);
    options.set(pulldown_cmark::Options::ENABLE_TASKLISTS, tasklists);
    let mut html = String::new();
    pulldown_cmark::html::push_html(&mut html, pulldown_cmark::Parser::new_ext(markdown, options));
    html
}

/// The HTML of a markdown text as this plugin renders it: with
/// strikethrough, tables and task lists.
pub open spec fn rendered_html(markdown: Seq<char>) -> Seq<char> {
    markdown_html(markdown, true, true, true)
}

/// Renders `markdown` to HTML, with strikethrough, tables and task lists.
pub fn render_markdown(markdown: &str) -> (html: String)
    ensures
        html@ == rendered_html(markdown@),
{
    push_html(markdown, true, true, true)
}

/// Whether `out` is the renderer's answer to a message with `content`: no
/// result for empty content, and else the rendered HTML, tagged `render`.
pub open spec fn render_answer(content: Seq<char>, out: Option<Tagged<String>>) -> bool {
    if content.len() == 0 {
        out is None
    } else {
        out matches Some(result) && result.tag@ == "render"@ && result.payload@ == rendered_html(
            content,
        )
    }
}

/// Tags rendered HTML for the host.
pub fn render_result(html: String) -> (result: Tagged<String>)
    ensures
        result.tag@ == "render"@,
        result.payload == html,
{
    Tagged { tag: "render".to_owned(), payload: html }
}

/// The handler of the markdown renderer.
#[derive(Clone, Copy, Debug, PartialEq, Eq)]
pub struct Renderer;

impl<B: Host> Handler<B> for Renderer {
    type Payload = String;

    open spec fn yields(
        &self,
        input: serde_json::Value,
        capabilities: Set<Seq<char>>,
        before: B,
        out: Option<Tagged<String>>,
        after: B,
    ) -> bool {
        render_answer(content_text(input), out) && after == before
    }

    fn handle(
        &self,
        input: &serde_json::Value,
        capabilities: &CapabilitySet,
        host: &mut B,
    ) -> (out: Option<Tagged<String>>) {
        let content = content_of(input);
        if content.as_str().is_empty() {
            return None;
        }
        Some(render_result(render_markdown(content.as_str())))
    }
}

/// Activates `instance` and binds the plugin's handler to the event
/// `content.changed`; the host's console is told. An instance that is not
/// freshly loaded fails the call with `LifecycleViolation`: nothing is
/// bound, and the host is not reached.
pub fn activate<H: Host>(instance: &mut Instance<Renderer>, host: &mut H) -> (result: Result<
    (),
    PluginError,
>)
    requires
        old(instance).wf(),
    ensures
        final(instance).wf(),
        final(instance).spec_manifest() == old(instance).spec_manifest(),
        old(instance)@.state == Lifecycle::Loaded ==> ({
            &&& result is Ok
            &&& final(instance)@ == old(instance)@.activate().0.register(
                Kind::Event,
                content_changed(),
                Renderer,
            ).0
            &&& logged(*old(host), LogLevel::Log, "Markdown Renderer activated"@, *final(host))
        }),
        old(instance)@.state != Lifecycle::Loaded ==> ({
            &&& result == Err::<(), PluginError>(PluginError::LifecycleViolation)
            &&& final(instance)@ == old(instance)@
            &&& *final(host) == *old(host)
        }),
{
    match instance.activate() {
        Ok(()) => {
            console_log(host, "Markdown Renderer activated");
            register_event(instance, "content.changed", Renderer)
        },
        Err(error) => Err(error),
    }
}

/// Deactivates `instance`, which releases its handlers; the host's console
/// is told. An instance that is not active fails the call with
/// `LifecycleViolation`: nothing changes, and the host is not reached.
pub fn deactivate<H: Host>(instance: &mut Instance<Renderer>, host: &mut H) -> (result: Result<
    (),
    PluginError,
>)
    requires
        old(instance).wf(),
    ensures
        final(instance).wf(),
        final(instance).spec_manifest() == old(instance).spec_manifest(),
        (final(instance)@, result) == old(instance)@.deactivate(),
        result is Ok ==> logged(*old(host), LogLevel::Log, "Markdown Renderer deactivated"@, *final(host)),
        result is Err ==> *final(host) == *old(host),
{
    match instance.deactivate() {
        Ok(()) => {
            console_log(host, "Markdown Renderer deactivated");
            Ok(())
        },
        Err(error) => Err(error),
    }
}

/// What the plugin manager shows of the plugin: a JSON object with its name,
/// version and description.
pub fn get_plugin_info() -> (info: String)
    ensures
        info@ == plugin_info(),
{
    "{\"name\":\"Markdown Renderer\",\"version\":\"0.1.0\",\"description\":\"Converts markdown to HTML\"}".to_owned()
}

/// The plugin's description of itself.
pub open spec fn plugin_info() -> Seq<char> {
    "{\"name\":\"Markdown Renderer\",\"version\":\"0.1.0\",\"description\":\"Converts markdown to HTML\"}"@
}

} // verus!
