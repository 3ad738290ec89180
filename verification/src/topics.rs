//! Topic naming for the pub/sub network: the shared pubsub topic the
//! agents gossip on, and the per-subtopic content topics.

use vstd::prelude::*;

use vstd::string::StringExecFns;

verus! {

/// The version tag of this agent's topic namespace.
pub const SDK_VERSION: &'static str = "0";

/// The application name every topic is scoped under.
pub fn app_name() -> (r: &'static str)
    ensures
        r@ == "graphcast"@,
{
    "graphcast"
}

/// How a topic's payload is encoded on the wire.
pub enum Encoding {
    Proto,
}

/// The shared pub/sub topic a network of agents gossips on.
pub struct PubSubTopic {
    pub topic_name: String,
    pub encoding: Encoding,
}

/// A content topic: one subtopic of one radio application.
pub struct ContentTopic {
    pub application_name: String,
    pub version: usize,
    pub content_topic_name: String,
    pub encoding: Encoding,
}

/// A filter on one content topic.
pub struct ContentFilter {
    pub content_topic: ContentTopic,
}

/// A filter subscription: content filters, optionally scoped to one pubsub
/// topic.
pub struct FilterSubscription {
    pub content_filters: Vec<ContentFilter>,
    pub pubsub_topic: Option<PubSubTopic>,
}

/// The name the pubsub topic carries for a namespace.
pub open spec fn pubsub_topic_name(namespace: Seq<char>) -> Seq<char> {
    "graphcast"@ + "-v"@ + SDK_VERSION@ + "-"@ + namespace
}

/// The pubsub topic for a namespace, with "testnet" as the default
/// namespace.
pub fn pubsub_topic(namespace: Option<&str>) -> (r: PubSubTopic)
    ensures
        r.topic_name@ == pubsub_topic_name(
            match namespace {
                Option::Some(ns) => ns@,
                Option::None => "testnet"@,
            },
        ),
        r.encoding is Proto,
{
    let ns = match namespace {
        Option::Some(ns) => ns,
        Option::None => "testnet",
    };
    let mut topic_name = String::new();
    topic_name.append(app_name());
    topic_name.append("-v");
    topic_name.append(SDK_VERSION);
    topic_name.append("-");
    topic_name.append(ns);
    PubSubTopic { topic_name, encoding: Encoding::Proto }
}

/// The content topic a subtopic yields for a radio.
pub open spec fn content_topic_spec(
    radio_name: Seq<char>,
    radio_version: usize,
    subtopic: Seq<char>,
    topic: ContentTopic,
) -> bool {
    &&& topic.application_name@ == radio_name
    &&& topic.version == radio_version
    &&& topic.content_topic_name@ == subtopic
    &&& topic.encoding is Proto
}

/// Generate one content topic per subtopic, in order.
pub fn build_content_topics(
    radio_name: &str,
    radio_version: usize,
    subtopics: &Vec<String>,
) -> (r: Vec<ContentTopic>)
    ensures
        r@.len() == subtopics@.len(),
        forall|k: int|
            0 <= k < r@.len() ==> content_topic_spec(
                radio_name@,
                radio_version,
                subtopics@[k]@,
                #[trigger] r@[k],
            ),
{
    let mut topics: Vec<ContentTopic> = Vec::new();
    let n = subtopics.len();
    let mut i: usize = 0;
    while i < n
        invariant
            n == subtopics@.len(),
            0 <= i <= n,
            topics@.len() == i,
            forall|k: int|
                0 <= k < i ==> content_topic_spec(
                    radio_name@,
                    radio_version,
                    subtopics@[k]@,
                    #[trigger] topics@[k],
                ),
        decreases n - i,
    {
        let topic = ContentTopic {
            application_name: radio_name.to_owned(),
            version: radio_version,
            content_topic_name: subtopics[i].clone(),
            encoding: Encoding::Proto,
        };
        topics.push(topic);
        i += 1;
    }
    topics
}

/// Make a filter subscription from content topics and a pubsub topic,
/// filtering on each content topic.
pub fn content_filter_subscription(
    pubsub: PubSubTopic,
    content_topics: Vec<ContentTopic>,
) -> (r: FilterSubscription)
    ensures
        r.content_filters@.len() == content_topics@.len(),
        forall|k: int|
            0 <= k < content_topics@.len() ==> (#[trigger] r.content_filters@[k]).content_topic
                == content_topics@[k],
        r.pubsub_topic == Some(pubsub),
{
    let mut filters: Vec<ContentFilter> = Vec::new();
    let mut remaining = content_topics;
    let ghost all = remaining@;
    let n = remaining.len();
    let mut i: usize = 0;
    while i < n
        invariant
            n == all.len(),
            0 <= i <= n,
            remaining@ == all.skip(i as int),
            filters@.len() == i,
            forall|k: int|
                0 <= k < i ==> (#[trigger] filters@[k]).content_topic == all[k],
        decreases n - i,
    {
        let topic = remaining.remove(0);
        proof {
            assert(topic == all[i as int]);
            assert(remaining@ =~= all.skip(i as int + 1));
        }
        filters.push(ContentFilter { content_topic: topic });
        i += 1;
    }
    FilterSubscription { content_filters: filters, pubsub_topic: Some(pubsub) }
}

} // verus!
