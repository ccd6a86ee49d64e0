//! The word counter: statistics of a text.

use crate::capability::CapabilitySet;
use crate::dispatch::{content_changed, content_of, content_text, Handler, Kind, Tagged};
use crate::error::PluginError;
use crate::host::{console_log, logged, Host, LogLevel};
use crate::instance::{register_event, Instance, Lifecycle};
use crate::strings::{char_is_whitespace, chars_of, count_below, is_whitespace, lemma_count_below_bound};
use vstd::prelude::*;

verus! {

/// The statistics of a text.
#[derive(Clone, Copy, Debug, PartialEq, Eq, Structural)]
pub struct Stats {
    pub words: usize,
    pub characters: usize,
    pub characters_no_spaces: usize,
    pub lines: usize,
    pub paragraphs: usize,
}

/// A word starts at a character that is not whitespace and that is the first
/// of the text or follows a whitespace character.
pub open spec fn starts_word(s: Seq<char>, i: int) -> bool {
    &&& 0 <= i < s.len()
    &&& !is_whitespace(s[i])
    &&& (i == 0 || is_whitespace(s[i - 1]))
}

/// An empty line ends just before `k + 2`: two newlines in a row at `k`.
pub open spec fn empty_line_at(s: Seq<char>, k: int) -> bool {
    &&& 0 <= k
    &&& k + 1 < s.len()
    &&& s[k] == '\n'
    &&& s[k + 1] == '\n'
}

/// Every visible character before `i` is cut off from `i` by an empty line.
pub open spec fn cut_off_before(s: Seq<char>, i: int) -> bool {
    forall|j: int|
        0 <= j < i && j < s.len() ==> is_whitespace(#[trigger] s[j]) || exists|k: int|
            j < k && k + 1 < i && #[trigger] empty_line_at(s, k)
}

/// A paragraph starts at a visible character that no empty line cuts off
/// from an earlier visible character.
pub open spec fn starts_paragraph(s: Seq<char>, i: int) -> bool {
    &&& 0 <= i < s.len()
    &&& !is_whitespace(s[i])
    &&& cut_off_before(s, i)
}

pub open spec fn word_starts(s: Seq<char>) -> spec_fn(int) -> bool {
    |i: int| starts_word(s, i)
}

pub open spec fn visible_chars(s: Seq<char>) -> spec_fn(int) -> bool {
    |i: int| 0 <= i < s.len() && !is_whitespace(s[i])
}

pub open spec fn newlines(s: Seq<char>) -> spec_fn(int) -> bool {
    |i: int| 0 <= i < s.len() && s[i] == '\n'
}

pub open spec fn paragraph_starts(s: Seq<char>) -> spec_fn(int) -> bool {
    |i: int| starts_paragraph(s, i)
}

/// The number of words: the runs of characters between whitespace.
pub open spec fn word_count(s: Seq<char>) -> nat {
    count_below(s.len() as int, word_starts(s))
}

/// The number of characters that are not whitespace.
pub open spec fn visible_count(s: Seq<char>) -> nat {
    count_below(s.len() as int, visible_chars(s))
}

/// The number of lines: each newline ends one, and what follows the last
/// newline is a line if it is not empty. A text has at least one line.
pub open spec fn line_count(s: Seq<char>) -> nat {
    if s.len() == 0 {
        1
    } else {
        count_below(s.len() as int, newlines(s)) + if s.last() == '\n' {
            0nat
        } else {
            1nat
        }
    }
}

/// The number of paragraphs: the stretches of text between empty lines that
/// hold a visible character. A text has at least one paragraph.
pub open spec fn paragraph_count(s: Seq<char>) -> nat {
    let n = count_below(s.len() as int, paragraph_starts(s));
    if n == 0 {
        1
    } else {
        n
    }
}

/// The visible characters are all the characters but the whitespace.
pub proof fn law_visible_characters_are_the_rest(s: Seq<char>, n: int)
    requires
        0 <= n <= s.len(),
    ensures
        count_below(n, visible_chars(s)) + count_below(
            n,
            |i: int| 0 <= i < s.len() && is_whitespace(s[i]),
        ) == n,
    decreases n,
{
    if n > 0 {
        law_visible_characters_are_the_rest(s, n - 1);
    }
}

/// Tells whether `stats` holds the statistics of the text `s`.
pub open spec fn is_stats_of(stats: Stats, s: Seq<char>) -> bool {
    &&& stats.words == word_count(s)
    &&& stats.characters == s.len()
    &&& stats.characters_no_spaces == visible_count(s)
    &&& stats.lines == line_count(s)
    &&& stats.paragraphs == paragraph_count(s)
}

/// Counts the words, characters, visible characters, lines and paragraphs of
/// `text`.
pub fn count_stats(text: &str) -> (stats: Stats)
    ensures
        is_stats_of(stats, text@),
{
    let chars = chars_of(text);
    let n: usize = chars.len();
    let ghost s = chars@;
    let mut words: usize = 0;
    let mut visible: usize = 0;
    let mut breaks: usize = 0;
    let mut paragraphs: usize = 0;
    let mut after_space = true;
    let mut after_newline = false;
    let mut cut_off = true;
    let mut i: usize = 0;
    while i < n
        invariant
            i <= n,
            n == s.len(),
            s == chars@,
            words == count_below(i as int, word_starts(s)),
            visible == count_below(i as int, visible_chars(s)),
            breaks == count_below(i as int, newlines(s)),
            paragraphs == count_below(i as int, paragraph_starts(s)),
            after_space <==> (i == 0 || is_whitespace(s[i - 1])),
            after_newline <==> (i > 0 && s[i - 1] == '\n'),
            cut_off <==> cut_off_before(s, i as int),
        decreases n - i,
    {
        let c = chars[i];
        let space = char_is_whitespace(c);
        proof {
            lemma_count_below_bound(i as int, word_starts(s));
            lemma_count_below_bound(i as int, visible_chars(s));
            lemma_count_below_bound(i as int, newlines(s));
            lemma_count_below_bound(i as int, paragraph_starts(s));
            lemma_cut_off_step(s, i as int);
        }
        if !space {
            visible = visible + 1;
            if after_space {
                words = words + 1;
            }
            if cut_off {
                paragraphs = paragraphs + 1;
            }
            cut_off = false;
        }
        if c == '\n' {
            breaks = breaks + 1;
            if after_newline {
                cut_off = true;
            }
        }
        after_newline = c == '\n';
        after_space = space;
        i = i + 1;
    }
    let lines: usize = if n == 0 {
        1
    } else if chars[n - 1] == '\n' {
        breaks
    } else {
        proof {
            lemma_count_below_bound(n - 1, newlines(s));
        }
        breaks + 1
    };
    let paragraphs: usize = if paragraphs == 0 {
        1
    } else {
        paragraphs
    };
    Stats { words, characters: n, characters_no_spaces: visible, lines, paragraphs }
}

/// How `cut_off_before` moves from one position to the next.
proof fn lemma_cut_off_step(s: Seq<char>, i: int)
    requires
        0 <= i < s.len(),
    ensures
        !is_whitespace(s[i]) ==> !cut_off_before(s, i + 1),
        is_whitespace(s[i]) && i > 0 && s[i] == '\n' && s[i - 1] == '\n' ==> cut_off_before(
            s,
            i + 1,
        ),
        is_whitespace(s[i]) && !(i > 0 && s[i] == '\n' && s[i - 1] == '\n') ==> (cut_off_before(
            s,
            i + 1,
        ) <==> cut_off_before(s, i)),
        is_whitespace('\n'),
{
    if !is_whitespace(s[i]) {
        assert(!(is_whitespace(s[i]) || exists|k: int|
            i < k && k + 1 < i + 1 && #[trigger] empty_line_at(s, k)));
    } else if i > 0 && s[i] == '\n' && s[i - 1] == '\n' {
        assert(empty_line_at(s, i - 1));
        assert forall|j: int| 0 <= j < i + 1 && j < s.len() implies is_whitespace(#[trigger] s[j])
            || exists|k: int| j < k && k + 1 < i + 1 && #[trigger] empty_line_at(s, k) by {
            if !is_whitespace(s[j]) {
                assert(j < i - 1);
                assert(j < i - 1 && (i - 1) + 1 < i + 1 && empty_line_at(s, i - 1));
            }
        }
    } else {
        if cut_off_before(s, i) {
            assert forall|j: int| 0 <= j < i + 1 && j < s.len() implies is_whitespace(
                #[trigger] s[j],
            ) || exists|k: int| j < k && k + 1 < i + 1 && #[trigger] empty_line_at(s, k) by {
                if !is_whitespace(s[j]) {
                    assert(j < i);
                    let k = choose|k: int| j < k && k + 1 < i && #[trigger] empty_line_at(s, k);
                    assert(j < k && k + 1 < i + 1 && empty_line_at(s, k));
                }
            }
        }
        if cut_off_before(s, i + 1) {
            assert forall|j: int| 0 <= j < i && j < s.len() implies is_whitespace(#[trigger] s[j])
                || exists|k: int| j < k && k + 1 < i && #[trigger] empty_line_at(s, k) by {
                if !is_whitespace(s[j]) {
                    let k = choose|k: int|
                        j < k && k + 1 < i + 1 && #[trigger] empty_line_at(s, k);
                    if k + 1 == i {
                        assert(s[k + 1] == '\n' && s[k] == '\n');
                        assert(false);
                    }
                    assert(j < k && k + 1 < i && empty_line_at(s, k));
                }
            }
        }
    }
}

/// Whether `out` is the word counter's answer to a message with `content`:
/// no result for empty content, and else the statistics of the content,
/// tagged `stats`.
pub open spec fn stats_answer(content: Seq<char>, out: Option<Tagged<Stats>>) -> bool {
    if content.len() == 0 {
        out is None
    } else {
        out matches Some(result) && result.tag@ == "stats"@ && is_stats_of(result.payload, content)
    }
}

/// Tags statistics for the host.
pub fn stats_result(stats: Stats) -> (result: Tagged<Stats>)
    ensures
        result.tag@ == "stats"@,
        result.payload == stats,
{
    Tagged { tag: "stats".to_owned(), payload: stats }
}

/// The handler of the word counter.
#[derive(Clone, Copy, Debug, PartialEq, Eq)]
pub struct WordCounter;

impl<B: Host> Handler<B> for WordCounter {
    type Payload = Stats;

    open spec fn yields(
        &self,
        input: serde_json::Value,
        capabilities: Set<Seq<char>>,
        before: B,
        out: Option<Tagged<Stats>>,
        after: B,
    ) -> bool {
        stats_answer(content_text(input), out) && after == before
    }

    fn handle(
        &self,
        input: &serde_json::Value,
        capabilities: &CapabilitySet,
        host: &mut B,
    ) -> (out: Option<Tagged<Stats>>) {
        let content = content_of(input);
        if content.as_str().is_empty() {
            return None;
        }
        Some(stats_result(count_stats(content.as_str())))
    }
}

/// Activates `instance` and binds the plugin's handler to the event
/// `content.changed`; the host's console is told. An instance that is not
/// freshly loaded fails the call with `LifecycleViolation`: nothing is
/// bound, and the host is not reached.
pub fn activate<H: Host>(instance: &mut Instance<WordCounter>, host: &mut H) -> (result: Result<
    (),
    PluginError,
>)
    requires
        old(instance).wf(),
    ensures
        final(instance).wf(),
        final(instance).spec_manifest() == old(instance).spec_manifest(),
        old(instance)@.state == Lifecycle::Loaded ==> ({
            &&& result is Ok
            &&& final(instance)@ == old(instance)@.activate().0.register(
                Kind::Event,
                content_changed(),
                WordCounter,
            ).0
            &&& logged(*old(host), LogLevel::Log, "Word Counter activated"@, *final(host))
        }),
        old(instance)@.state != Lifecycle::Loaded ==> ({
            &&& result == Err::<(), PluginError>(PluginError::LifecycleViolation)
            &&& final(instance)@ == old(instance)@
            &&& *final(host) == *old(host)
        }),
{
    match instance.activate() {
        Ok(()) => {
            console_log(host, "Word Counter activated");
            register_event(instance, "content.changed", WordCounter)
        },
        Err(error) => Err(error),
    }
}

/// Deactivates `instance`, which releases its handlers; the host's console
/// is told. An instance that is not active fails the call with
/// `LifecycleViolation`: nothing changes, and the host is not reached.
pub fn deactivate<H: Host>(instance: &mut Instance<WordCounter>, host: &mut H) -> (result: Result<
    (),
    PluginError,
>)
    requires
        old(instance).wf(),
    ensures
        final(instance).wf(),
        final(instance).spec_manifest() == old(instance).spec_manifest(),
        (final(instance)@, result) == old(instance)@.deactivate(),
        result is Ok ==> logged(*old(host), LogLevel::Log, "Word Counter deactivated"@, *final(host)),
        result is Err ==> *final(host) == *old(host),
{
    match instance.deactivate() {
        Ok(()) => {
            console_log(host, "Word Counter deactivated");
            Ok(())
        },
        Err(error) => Err(error),
    }
}

/// What the plugin manager shows of the plugin: a JSON object with its name,
/// version and description.
pub fn get_plugin_info() -> (info: String)
    ensures
        info@ == plugin_info(),
{
    "{\"name\":\"Word Counter\",\"version\":\"0.1.0\",\"description\":\"Counts words, characters, and lines\"}".to_owned()
}

/// The plugin's description of itself.
pub open spec fn plugin_info() -> Seq<char> {
    "{\"name\":\"Word Counter\",\"version\":\"0.1.0\",\"description\":\"Counts words, characters, and lines\"}"@
}

} // verus!
