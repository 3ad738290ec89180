use graphcast::callbook::CallBook;
use graphcast::topics::{
    build_content_topics, content_filter_subscription, pubsub_topic, PubSubTopic,
};

#[test]
fn test_empty_topics() {
    let empty_vec: Vec<String> = [].to_vec();
    let empty_topic_vec: Vec<Option<PubSubTopic>> = Vec::new();
    assert_eq!(
        build_content_topics("test", 0, &empty_vec).len(),
        empty_topic_vec.len()
    );
}

#[test]
fn test_build_content_topics() {
    let basics = ["Qmyumyum".to_string(), "Ymqumqum".to_string()].to_vec();
    let res = build_content_topics("some-radio", 0, &basics);
    for i in 0..res.len() {
        assert_eq!(res[i].content_topic_name, basics[i]);
        assert_eq!(res[i].application_name, "some-radio");
    }
}

#[test]
fn pubsub_topic_name_layout() {
    let named = pubsub_topic(Some("mainnet"));
    assert_eq!(named.topic_name, "graphcast-v0-mainnet");
    let default = pubsub_topic(None);
    assert_eq!(default.topic_name, "graphcast-v0-testnet");
}

#[test]
fn filter_subscription_covers_every_topic() {
    let basics = ["Qma".to_string(), "Qmb".to_string()].to_vec();
    let topics = build_content_topics("some-radio", 1, &basics);
    let subscription = content_filter_subscription(pubsub_topic(Some("testnet")), topics);
    assert_eq!(subscription.content_filters.len(), 2);
    assert_eq!(
        subscription.content_filters[0].content_topic.content_topic_name,
        "Qma"
    );
    assert_eq!(
        subscription.content_filters[1].content_topic.content_topic_name,
        "Qmb"
    );
    let pubsub = subscription.pubsub_topic.unwrap();
    assert_eq!(pubsub.topic_name, "graphcast-v0-testnet");
}

#[test]
fn callbook_keeps_its_endpoints() {
    let callbook = CallBook::new(
        "http://localhost:8030/graphql".to_string(),
        "http://localhost:8000/registry".to_string(),
        "http://localhost:8000/network".to_string(),
    );
    assert_eq!(callbook.graph_node_status().as_str(), "http://localhost:8030/graphql");
    assert_eq!(callbook.graphcast_registry().as_str(), "http://localhost:8000/registry");
    assert_eq!(callbook.graph_network().as_str(), "http://localhost:8000/network");
}
