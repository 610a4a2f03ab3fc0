//! Finding the topics that are compacted.

use crate::text::{contains_text, occurs, same_text};
use rdkafka::admin::AdminOptions;
use vstd::hash_set::StringHashSet;
use vstd::prelude::*;

verus! {

/// What a described configuration belongs to.
#[derive(Debug)]
pub enum ResourceSpecifier {
    Topic(String),
    Group(String),
    Broker(i32),
}

/// One configuration parameter.
#[derive(Debug)]
pub struct ConfigEntry {
    pub name: String,
    pub value: Option<String>,
}

/// A described configuration.
#[derive(Debug)]
pub struct ConfigResource {
    pub specifier: ResourceSpecifier,
    pub entries: Vec<ConfigEntry>,
}

/// `rdkafka`'s options of an admin call, carried as they are.
#[verifier::external_type_specification]
#[verifier::external_body]
pub struct ExAdminOptions(AdminOptions);

/// The options that `AdminOptions::new().request_timeout(..)` gives for a timeout of
/// `secs` seconds and `nanos` nanoseconds.
pub uninterp spec fn request_timeout_options(secs: u64, nanos: u32) -> AdminOptions;

/// Calls `AdminOptions::new` and `AdminOptions::request_timeout`: the options depend
/// on the timeout alone.
#[verifier::external_body]
pub(crate) fn options_with_timeout(secs: u64, nanos: u32) -> (options: AdminOptions)
    requires
        nanos < 1_000_000_000,
    ensures
        options == request_timeout_options(secs, nanos),
{
    AdminOptions::new().request_timeout(Some(std::time::Duration::new(secs, nanos)))
}

/// Which topics are to be described, and how.
pub struct ConfigQuery {
    pub topics: Vec<String>,
    pub options: AdminOptions,
}

/// Whether a parameter turns compaction on.
pub open spec fn enables_compaction(entry: ConfigEntry) -> bool {
    &&& entry.name@ == "cleanup.policy"@
    &&& entry.value matches Some(value) && occurs(value@, "compact"@)
}

/// Whether a description shows that `topic` is compacted.
pub open spec fn shows_compacted(
    described: Result<ConfigResource, String>,
    topic: Seq<char>,
) -> bool {
    &&& described matches Ok(resource)
    &&& resource.specifier matches ResourceSpecifier::Topic(name)
    &&& name@ == topic
    &&& exists|j: int|
        0 <= j < resource.entries@.len() && enables_compaction(#[trigger] resource.entries@[j])
}

/// Whether any of the descriptions shows that `topic` is compacted.
pub open spec fn compacted(
    described: Seq<Result<ConfigResource, String>>,
    topic: Seq<char>,
) -> bool {
    exists|i: int| 0 <= i < described.len() && shows_compacted(#[trigger] described[i], topic)
}

/// The texts of a sequence of strings.
pub open spec fn texts(strings: Seq<String>) -> Seq<Seq<char>> {
    strings.map_values(|s: String| s@)
}

/// Whether one of the parameters turns compaction on.
fn any_enables_compaction(entries: &Vec<ConfigEntry>) -> (found: bool)
    ensures
        found == exists|j: int|
            0 <= j < entries@.len() && enables_compaction(#[trigger] entries@[j]),
{
    for j in 0..entries.len()
        invariant
            forall|k: int| 0 <= k < j ==> !enables_compaction(#[trigger] entries@[k]),
    {
        if same_text(entries[j].name.as_str(), "cleanup.policy") {
            if let Some(value) = &entries[j].value {
                if contains_text(value.as_str(), "compact") {
                    assert(enables_compaction(entries@[j as int]));
                    return true;
                }
            }
        }
    }
    false
}

/// The topics that the descriptions show to be compacted, each once. Resources that
/// could not be described, or are no topics, are passed over.
pub fn compacted_topics(described: &Vec<Result<ConfigResource, String>>) -> (topics: Vec<String>)
    ensures
        texts(topics@).no_duplicates(),
        forall|topic: Seq<char>| #[trigger]
            texts(topics@).contains(topic) <==> compacted(described@, topic),
{
    let mut topics: Vec<String> = Vec::new();
    let mut seen = StringHashSet::new();
    assert(forall|topic: Seq<char>| !texts(topics@).contains(topic));
    for i in 0..described.len()
        invariant
            texts(topics@).no_duplicates(),
            forall|topic: Seq<char>| #[trigger]
                texts(topics@).contains(topic) <==> seen@.contains(topic),
            forall|topic: Seq<char>| #[trigger]
                seen@.contains(topic) <==> compacted(described@.take(i as int), topic),
    {
        let ghost before = topics@;
        let ghost seen_before = seen@;
        let ghost shown = described@[i as int];
        if let Ok(resource) = &described[i] {
            if let ResourceSpecifier::Topic(name) = &resource.specifier {
                if any_enables_compaction(&resource.entries) {
                    assert(shows_compacted(shown, name@));
                    if seen.insert(name.clone()) {
                        topics.push(name.clone());
                        proof {
                            lemma_texts_push(before, *name);
                        }
                    }
                }
            }
        }
        assert forall|topic: Seq<char>| #[trigger]
            seen@.contains(topic) <==> compacted(described@.take(i + 1), topic) by {
            assert(seen@.contains(topic) <==> seen_before.contains(topic) || shows_compacted(
                shown,
                topic,
            ));
            lemma_compacted_step(described@, i as int, topic);
        }
    }
    assert(described@.take(described@.len() as int) == described@);
    topics
}

/// The texts of a sequence that another string was added to.
proof fn lemma_texts_push(strings: Seq<String>, last: String)
    ensures
        texts(strings.push(last)) == texts(strings).push(last@),
        forall|t: Seq<char>| #[trigger]
            texts(strings.push(last)).contains(t) <==> texts(strings).contains(t) || t == last@,
        texts(strings).no_duplicates() && !texts(strings).contains(last@) ==> texts(
            strings.push(last),
        ).no_duplicates(),
{
    broadcast use vstd::seq_lib::lemma_seq_contains_after_push;

    assert(texts(strings.push(last)) =~= texts(strings).push(last@));
    assert(forall|i: int|
        0 <= i < strings.len() ==> texts(strings).contains(#[trigger] texts(strings)[i]));
}

/// One more description shows what it shows itself, and nothing else.
proof fn lemma_compacted_step(
    described: Seq<Result<ConfigResource, String>>,
    i: int,
    topic: Seq<char>,
)
    requires
        0 <= i < described.len(),
    ensures
        compacted(described.take(i + 1), topic) <==> compacted(described.take(i), topic)
            || shows_compacted(described[i], topic),
{
    let longer = described.take(i + 1);
    let shorter = described.take(i);
    if compacted(shorter, topic) {
        let k = choose|k: int| 0 <= k < shorter.len() && shows_compacted(#[trigger] shorter[k], topic);
        assert(longer[k] == shorter[k]);
    }
    if compacted(longer, topic) {
        let k = choose|k: int| 0 <= k < longer.len() && shows_compacted(#[trigger] longer[k], topic);
        if k < i {
            assert(shorter[k] == longer[k]);
        }
    }
    assert(longer[i] == described[i]);
}

} // verus!
