//! The tag manager: the hashtags of a text.

use crate::capability::CapabilitySet;
use crate::dispatch::{content_changed, content_of, content_text, Handler, Kind, Tagged};
use crate::error::PluginError;
use crate::host::{console_log, logged, Host, LogLevel};
use crate::instance::{register_event, Instance, Lifecycle};
use crate::strings::{
    char_is_whitespace, chars_of, compare_text, is_whitespace, lemma_text_precedes_irreflexive,
    lemma_text_precedes_transitive, text_precedes, texts, Order,
};
use vstd::prelude::*;
use vstd::string::StrSliceExecFns;

verus! {

/// Whether `c` is alphanumeric, as `char::is_alphanumeric` of the standard
/// library decides it from the Unicode tables.
pub uninterp spec fn is_alphanumeric(c: char) -> bool;

/// `char::is_alphanumeric`: its answer depends on the character alone, and
/// `is_alphanumeric` is the name of that answer.
pub assume_specification[ char::is_alphanumeric ](c: char) -> (r: bool)
    ensures
        r == is_alphanumeric(c),
;

/// The lowercase form of a text, as `str::to_lowercase` of the standard
/// library computes it from the Unicode tables.
pub uninterp spec fn lowercase(s: Seq<char>) -> Seq<char>;

/// `str::to_lowercase`: the new string depends on the characters of the
/// argument alone, and `lowercase` is the name of its characters.
pub assume_specification[ str::to_lowercase ](s: &str) -> (r: String)
    ensures
        r@ == lowercase(s@),
;

/// The characters that may end a tag: letters, digits, `-` and `_`.
pub open spec fn is_tag_char(c: char) -> bool {
    is_alphanumeric(c) || c == '-' || c == '_'
}

/// `w` without the `#` characters that it starts with.
pub open spec fn strip_hashes(w: Seq<char>) -> Seq<char>
    decreases w.len(),
{
    if w.len() > 0 && w[0] == '#' {
        strip_hashes(w.drop_first())
    } else {
        w
    }
}

/// `w` without the characters at its end that cannot end a tag.
pub open spec fn strip_tail(w: Seq<char>) -> Seq<char>
    decreases w.len(),
{
    if w.len() > 0 && !is_tag_char(w.last()) {
        strip_tail(w.drop_last())
    } else {
        w
    }
}

/// The tag that the word `w` names: the word without its leading `#`
/// characters and its trailing punctuation, in lowercase.
pub open spec fn tag_of(w: Seq<char>) -> Seq<char> {
    lowercase(strip_tail(strip_hashes(w)))
}

/// Whether the word `w` names a tag: it starts with `#`, has more than that
/// one character, and its tag is not empty.
pub open spec fn names_tag(w: Seq<char>) -> bool {
    &&& w.len() > 1
    &&& w[0] == '#'
    &&& tag_of(w).len() > 0
}

/// Whether `s` from `a` up to `b` is a word: a longest run of characters
/// without whitespace.
pub open spec fn is_word(s: Seq<char>, a: int, b: int) -> bool {
    &&& 0 <= a < b <= s.len()
    &&& (a == 0 || is_whitespace(s[a - 1]))
    &&& (b == s.len() || is_whitespace(s[b]))
    &&& forall|k: int| a <= k < b ==> !is_whitespace(#[trigger] s[k])
}

/// Whether the tag `t` is named by a word of `s` that ends at `limit` or
/// before it.
pub open spec fn tagged_before(s: Seq<char>, limit: int, t: Seq<char>) -> bool {
    exists|a: int, b: int|
        #![trigger s.subrange(a, b)]
        is_word(s, a, b) && b <= limit && names_tag(s.subrange(a, b)) && t == tag_of(
            s.subrange(a, b),
        )
}

/// The tags that the words of `s` name which end at `limit` or before it.
pub open spec fn tags_before(s: Seq<char>, limit: int) -> Set<Seq<char>> {
    Set::new(|t: Seq<char>| tagged_before(s, limit, t))
}

/// The tags that the words of `s` name.
pub open spec fn tags_in(s: Seq<char>) -> Set<Seq<char>> {
    tags_before(s, s.len() as int)
}

/// Whether the strings of `tags` stand in strictly ascending order, so that
/// none occurs twice.
pub open spec fn strictly_ascending(tags: Seq<Seq<char>>) -> bool {
    forall|i: int, j: int| 0 <= i < j < tags.len() ==> text_precedes(tags[i], tags[j])
}

/// Strings in strictly ascending order are distinct.
pub proof fn law_ascending_tags_are_distinct(tags: Seq<Seq<char>>)
    requires
        strictly_ascending(tags),
    ensures
        tags.no_duplicates(),
{
    assert forall|i: int, j: int| 0 <= i < tags.len() && 0 <= j < tags.len() && i != j implies tags[i]
        != tags[j] by {
        lemma_text_precedes_irreflexive(tags[i]);
        if i < j {
            assert(text_precedes(tags[i], tags[j]));
        } else {
            assert(text_precedes(tags[j], tags[i]));
        }
    }
}

/// A set of tags, held in ascending order.
pub struct TagSet {
    tags: Vec<String>,
}

impl View for TagSet {
    type V = Seq<Seq<char>>;

    /// The tags, in ascending order.
    closed spec fn view(&self) -> Seq<Seq<char>> {
        texts(self.tags@)
    }
}

impl TagSet {
    /// The tags stand in strictly ascending order.
    pub closed spec fn wf(&self) -> bool {
        strictly_ascending(texts(self.tags@))
    }

    /// The empty set.
    pub fn new() -> (set: Self)
        ensures
            set.wf(),
            set@.len() == 0,
    {
        TagSet { tags: Vec::new() }
    }

    /// Adds `tag`, unless the set holds it already.
    pub fn insert(&mut self, tag: String)
        requires
            old(self).wf(),
        ensures
            final(self).wf(),
            final(self)@.to_set() == old(self)@.to_set().insert(tag@),
            old(self)@.contains(tag@) ==> final(self)@ == old(self)@,
    {
        let ghost before = texts(self.tags@);
        let mut at: usize = 0;
        while at < self.tags.len()
            invariant
                at <= self.tags.len(),
                texts(self.tags@) == before,
                strictly_ascending(before),
                forall|k: int| 0 <= k < at ==> text_precedes(#[trigger] before[k], tag@),
            ensures
                at < before.len() ==> text_precedes(tag@, before[at as int]),
            decreases self.tags.len() - at,
        {
            match compare_text(self.tags[at].as_str(), tag.as_str()) {
                Order::Before => {
                    at = at + 1;
                },
                Order::Same => {
                    assert(before[at as int] == tag@);
                    assert(before.to_set() =~= before.to_set().insert(tag@));
                    return ;
                },
                Order::After => {
                    break ;
                },
            }
        }
        proof {
            assert forall|k: int| at <= k < before.len() implies text_precedes(
                tag@,
                #[trigger] before[k],
            ) by {
                if k > at {
                    lemma_text_precedes_transitive(tag@, before[at as int], before[k]);
                }
            }
            assert forall|k: int| 0 <= k < before.len() implies before[k] != tag@ by {
                lemma_text_precedes_irreflexive(tag@);
            }
        }
        self.tags.insert(at, tag);
        proof {
            let after = texts(self.tags@);
            assert(after =~= before.insert(at as int, tag@));
            assert forall|i: int, j: int| 0 <= i < j < after.len() implies text_precedes(
                after[i],
                after[j],
            ) by {
                if i < at && j > at {
                    assert(after[i] == before[i]);
                    assert(after[j] == before[j - 1]);
                } else if i < at && j < at {
                    assert(after[i] == before[i] && after[j] == before[j]);
                } else if i > at {
                    assert(after[i] == before[i - 1] && after[j] == before[j - 1]);
                }
            }
            assert forall|t: Seq<char>| after.to_set().contains(t) <==> before.to_set().insert(
                tag@,
            ).contains(t) by {
                if after.contains(t) {
                    let k = choose|k: int| 0 <= k < after.len() && after[k] == t;
                    if k < at {
                        assert(before[k] == t);
                    } else if k > at {
                        assert(before[k - 1] == t);
                    }
                }
                if before.contains(t) {
                    let k = choose|k: int| 0 <= k < before.len() && before[k] == t;
                    if k < at {
                        assert(after[k] == t);
                    } else {
                        assert(after[k + 1] == t);
                    }
                }
                if t == tag@ {
                    assert(after[at as int] == t);
                }
            }
            assert(after.to_set() =~= before.to_set().insert(tag@));
        }
    }

    /// The tags as a vector, in ascending order.
    pub fn into_vec(self) -> (tags: Vec<String>)
        requires
            self.wf(),
        ensures
            texts(tags@) == self@,
            strictly_ascending(texts(tags@)),
    {
        self.tags
    }
}

/// Takes the lowercase form `tag` of a word's tag into `set`: an empty one is
/// dropped.
pub fn keep_tag(set: &mut TagSet, tag: String)
    requires
        old(set).wf(),
    ensures
        final(set).wf(),
        tag@.len() == 0 ==> final(set)@ == old(set)@,
        tag@.len() > 0 ==> final(set)@.to_set() == old(set)@.to_set().insert(tag@),
{
    if !tag.as_str().is_empty() {
        set.insert(tag);
    }
}

/// Tells whether `c` may end a tag.
pub fn char_is_tag_char(c: char) -> (r: bool)
    ensures
        r == is_tag_char(c),
{
    c.is_alphanumeric() || c == '-' || c == '_'
}

/// Where the tag of the word from `a` up to `b` stands in `chars`: behind the
/// `#` characters that the word starts with, and before the characters at its
/// end that cannot end a tag.
fn tag_span(chars: &Vec<char>, a: usize, b: usize) -> (span: (usize, usize))
    requires
        a <= b <= chars.len(),
    ensures
        a <= span.0 <= span.1 <= b,
        chars@.subrange(span.0 as int, span.1 as int) == strip_tail(
            strip_hashes(chars@.subrange(a as int, b as int)),
        ),
{
    let ghost s = chars@;
    let mut from: usize = a;
    while from < b && chars[from] == '#'
        invariant
            a <= from <= b <= chars.len(),
            s == chars@,
            strip_hashes(s.subrange(a as int, b as int)) == strip_hashes(
                s.subrange(from as int, b as int),
            ),
        decreases b - from,
    {
        assert(s.subrange(from as int, b as int).drop_first() =~= s.subrange(from + 1, b as int));
        from = from + 1;
    }
    let mut to: usize = b;
    while to > from && !char_is_tag_char(chars[to - 1])
        invariant
            from <= to <= b <= chars.len(),
            s == chars@,
            strip_tail(s.subrange(from as int, b as int)) == strip_tail(
                s.subrange(from as int, to as int),
            ),
        decreases to,
    {
        assert(s.subrange(from as int, to as int).drop_last() =~= s.subrange(from as int, to - 1));
        to = to - 1;
    }
    (from, to)
}

/// No word ends behind a whitespace character.
proof fn lemma_tags_past_whitespace(s: Seq<char>, i: int)
    requires
        0 <= i < s.len(),
        is_whitespace(s[i]),
    ensures
        tags_before(s, i + 1) == tags_before(s, i),
{
    assert forall|t: Seq<char>| tagged_before(s, i + 1, t) implies tagged_before(s, i, t) by {
        let (a, b) = choose|a: int, b: int|
            #![trigger s.subrange(a, b)]
            is_word(s, a, b) && b <= i + 1 && names_tag(s.subrange(a, b)) && t == tag_of(
                s.subrange(a, b),
            );
        if b == i + 1 {
            assert(!is_whitespace(s[b - 1]));
        }
        assert(is_word(s, a, b) && b <= i && names_tag(s.subrange(a, b)));
    }
    assert(tags_before(s, i + 1) =~= tags_before(s, i));
}

/// The one word that ends behind `a` and not behind `b` is the word from `a`
/// up to `b`.
proof fn lemma_tags_past_word(s: Seq<char>, a: int, b: int)
    requires
        is_word(s, a, b),
    ensures
        tags_before(s, b) == (if names_tag(s.subrange(a, b)) {
            tags_before(s, a).insert(tag_of(s.subrange(a, b)))
        } else {
            tags_before(s, a)
        }),
{
    let w = s.subrange(a, b);
    let grown = if names_tag(w) {
        tags_before(s, a).insert(tag_of(w))
    } else {
        tags_before(s, a)
    };
    assert forall|t: Seq<char>| tagged_before(s, b, t) implies grown.contains(t) by {
        let (x, y) = choose|x: int, y: int|
            #![trigger s.subrange(x, y)]
            is_word(s, x, y) && y <= b && names_tag(s.subrange(x, y)) && t == tag_of(
                s.subrange(x, y),
            );
        if y > a {
            assert(!is_whitespace(s[y - 1]));
            if x < a {
                assert(!is_whitespace(s[a - 1]));
            }
            if x > a {
                assert(!is_whitespace(s[x - 1]));
            }
            if y < b {
                assert(!is_whitespace(s[y]));
            }
            assert(x == a && y == b);
        } else {
            assert(is_word(s, x, y) && y <= a && names_tag(s.subrange(x, y)));
            assert(tagged_before(s, a, t));
        }
    }
    assert forall|t: Seq<char>| grown.contains(t) implies tagged_before(s, b, t) by {
        if tagged_before(s, a, t) {
            let (x, y) = choose|x: int, y: int|
                #![trigger s.subrange(x, y)]
                is_word(s, x, y) && y <= a && names_tag(s.subrange(x, y)) && t == tag_of(
                    s.subrange(x, y),
                );
            assert(is_word(s, x, y) && y <= b && names_tag(s.subrange(x, y)));
        } else {
            assert(is_word(s, a, b) && b <= b && names_tag(s.subrange(a, b)));
        }
    }
    assert(tags_before(s, b) =~= grown);
}

/// Extracts the hashtags of `text`: each once, in lowercase and in ascending
/// order.
pub fn extract_tags_internal(text: &str) -> (tags: Vec<String>)
    ensures
        strictly_ascending(texts(tags@)),
        texts(tags@).to_set() == tags_in(text@),
{
    let chars = chars_of(text);
    let n: usize = chars.len();
    let ghost s = chars@;
    let mut found = TagSet::new();
    let mut i: usize = 0;
    assert(found@.to_set() =~= tags_before(s, 0)) by {
        assert forall|t: Seq<char>| !tagged_before(s, 0, t) by {}
    }
    while i < n
        invariant
            i <= n,
            n == s.len(),
            s == chars@,
            s == text@,
            found.wf(),
            found@.to_set() == tags_before(s, i as int),
            i == 0 || i == n || is_whitespace(s[i - 1]) || is_whitespace(s[i as int]),
        decreases n - i,
    {
        if char_is_whitespace(chars[i]) {
            proof {
                lemma_tags_past_whitespace(s, i as int);
            }
            i = i + 1;
        } else {
            let a: usize = i;
            let mut b: usize = i + 1;
            while b < n && !char_is_whitespace(chars[b])
                invariant
                    a < b <= n,
                    n == s.len(),
                    s == chars@,
                    forall|k: int| a <= k < b ==> !is_whitespace(#[trigger] s[k]),
                decreases n - b,
            {
                b = b + 1;
            }
            proof {
                assert(is_word(s, a as int, b as int));
                lemma_tags_past_word(s, a as int, b as int);
            }
            let ghost w = s.subrange(a as int, b as int);
            if chars[a] == '#' && b - a > 1 {
                let (from, to) = tag_span(&chars, a, b);
                let tag = text.substring_char(from, to).to_lowercase();
                assert(tag@ == tag_of(w));
                keep_tag(&mut found, tag);
            } else {
                assert(!names_tag(w));
            }
            i = b;
        }
    }
    found.into_vec()
}

/// Whether `out` is the tag manager's answer to a message with `content`: no
/// result for empty content, and else the tags of the content, each once and
/// in ascending order, tagged `tags`.
pub open spec fn tags_answer(content: Seq<char>, out: Option<Tagged<Vec<String>>>) -> bool {
    if content.len() == 0 {
        out is None
    } else {
        &&& out matches Some(result)
        &&& result.tag@ == "tags"@
        &&& strictly_ascending(texts(result.payload@))
        &&& texts(result.payload@).to_set() == tags_in(content)
    }
}

/// Tags a list of hashtags for the host.
pub fn tags_result(tags: Vec<String>) -> (result: Tagged<Vec<String>>)
    ensures
        result.tag@ == "tags"@,
        result.payload == tags,
{
    Tagged { tag: "tags".to_owned(), payload: tags }
}

/// The handler of the tag manager.
#[derive(Clone, Copy, Debug, PartialEq, Eq)]
pub struct TagExtractor;

impl<B: Host> Handler<B> for TagExtractor {
    type Payload = Vec<String>;

    open spec fn yields(
        &self,
        input: serde_json::Value,
        capabilities: Set<Seq<char>>,
        before: B,
        out: Option<Tagged<Vec<String>>>,
        after: B,
    ) -> bool {
        tags_answer(content_text(input), out) && after == before
    }

    fn handle(
        &self,
        input: &serde_json::Value,
        capabilities: &CapabilitySet,
        host: &mut B,
    ) -> (out: Option<Tagged<Vec<String>>>) {
        let content = content_of(input);
        if content.as_str().is_empty() {
            return None;
        }
        Some(tags_result(extract_tags_internal(content.as_str())))
    }
}

/// Activates `instance` and binds the plugin's handler to the event
/// `content.changed`; the host's console is told. An instance that is not
/// freshly loaded fails the call with `LifecycleViolation`: nothing is
/// bound, and the host is not reached.
pub fn activate<H: Host>(instance: &mut Instance<TagExtractor>, host: &mut H) -> (result: Result<
    (),
    PluginError,
>)
    requires
        old(instance).wf(),
    ensures
        final(instance).wf(),
        final(instance).spec_manifest() == old(instance).spec_manifest(),
        old(instance)@.state == Lifecycle::Loaded ==> ({
            &&& result is Ok
            &&& final(instance)@ == old(instance)@.activate().0.register(
                Kind::Event,
                content_changed(),
                TagExtractor,
            ).0
            &&& logged(*old(host), LogLevel::Log, "Tag Manager activated"@, *final(host))
        }),
        old(instance)@.state != Lifecycle::Loaded ==> ({
            &&& result == Err::<(), PluginError>(PluginError::LifecycleViolation)
            &&& final(instance)@ == old(instance)@
            &&& *final(host) == *old(host)
        }),
{
    match instance.activate() {
        Ok(()) => {
            console_log(host, "Tag Manager activated");
            register_event(instance, "content.changed", TagExtractor)
        },
        Err(error) => Err(error),
    }
}

/// Deactivates `instance`, which releases its handlers; the host's console
/// is told. An instance that is not active fails the call with
/// `LifecycleViolation`: nothing changes, and the host is not reached.
pub fn deactivate<H: Host>(instance: &mut Instance<TagExtractor>, host: &mut H) -> (result: Result<
    (),
    PluginError,
>)
    requires
        old(instance).wf(),
    ensures
        final(instance).wf(),
        final(instance).spec_manifest() == old(instance).spec_manifest(),
        (final(instance)@, result) == old(instance)@.deactivate(),
        result is Ok ==> logged(*old(host), LogLevel::Log, "Tag Manager deactivated"@, *final(host)),
        result is Err ==> *final(host) == *old(host),
{
    match instance.deactivate() {
        Ok(()) => {
            console_log(host, "Tag Manager deactivated");
            Ok(())
        },
        Err(error) => Err(error),
    }
}

/// What the plugin manager shows of the plugin: a JSON object with its name,
/// version and description.
pub fn get_plugin_info() -> (info: String)
    ensures
        info@ == plugin_info(),
{
    "{\"name\":\"Tag Manager\",\"version\":\"0.1.0\",\"description\":\"Extracts and manages hashtags\"}".to_owned()
}

/// The plugin's description of itself.
pub open spec fn plugin_info() -> Seq<char> {
    "{\"name\":\"Tag Manager\",\"version\":\"0.1.0\",\"description\":\"Extracts and manages hashtags\"}"@
}

} // verus!
