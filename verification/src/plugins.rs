//! The content processors that ship with the runtime. Each is a plugin of
//! its own: it binds one handler to the event `content.changed`. Each also
//! offers its processor as a plain function, which needs no instance.

use crate::dispatch::{content_text, Handler, Tagged};
use crate::host::Host;
use crate::plugins::markdown::Renderer;
use crate::plugins::tag_manager::TagExtractor;
use crate::plugins::word_counter::{Stats, WordCounter};
use vstd::prelude::*;

pub mod markdown;
pub mod tag_manager;
pub mod word_counter;

verus! {

/// A message with empty content is not actionable: each of the three
/// handlers answers it with "no result". And whatever the content is, none
/// of them touches the host.
pub proof fn law_empty_content_has_no_result<B: Host>(
    input: serde_json::Value,
    capabilities: Set<Seq<char>>,
    before: B,
    html: Option<Tagged<String>>,
    tags: Option<Tagged<Vec<String>>>,
    stats: Option<Tagged<Stats>>,
    after: B,
)
    ensures
        Renderer.yields(input, capabilities, before, html, after) ==> after == before && (
        content_text(input).len() == 0 ==> html is None),
        TagExtractor.yields(input, capabilities, before, tags, after) ==> after == before && (
        content_text(input).len() == 0 ==> tags is None),
        WordCounter.yields(input, capabilities, before, stats, after) ==> after == before && (
        content_text(input).len() == 0 ==> stats is None),
{
}

} // verus!
