use mcpg_plugin_observability_otlp::key_order::{order_text, KeyOrder, MapKey};
use mcpg_plugin_observability_otlp::ordmap::OrdMap;
use mcpg_plugin_observability_otlp::protocol::SpanKey;

fn key(trace_id: &str, span_id: &str) -> SpanKey {
    SpanKey {
        trace_id: trace_id.to_string(),
        span_id: span_id.to_string(),
    }
}

fn listed(map: &OrdMap<String, String>) -> Vec<(String, String)> {
    (0..map.len())
        .map(|at| {
            let (key, value) = map.entry(at);
            (key.clone(), value.clone())
        })
        .collect()
}

#[test]
fn strings_are_ordered_by_their_bytes() {
    assert_eq!(order_text("a", "b"), KeyOrder::Before);
    assert_eq!(order_text("ab", "a"), KeyOrder::After);
    assert_eq!(order_text("", "a"), KeyOrder::Before);
    assert_eq!(order_text("a", "a"), KeyOrder::Same);
    assert_eq!(order_text("Z", "a"), KeyOrder::Before);
    assert_eq!(order_text("z", "\u{e9}"), KeyOrder::Before);
    assert_eq!(order_text("\u{ffff}", "\u{10000}"), KeyOrder::Before);
}

#[test]
fn span_keys_are_ordered_by_trace_and_then_by_span() {
    assert_eq!(key("a", "z").order(&key("b", "a")), KeyOrder::Before);
    assert_eq!(key("a", "b").order(&key("a", "a")), KeyOrder::After);
    assert_eq!(key("a", "b").order(&key("a", "b")), KeyOrder::Same);
}

#[test]
fn entries_are_listed_like_those_of_a_btree_map() {
    let words = ["pear", "apple", "fig", "\u{e9}t\u{e9}", "Apple", "", "fig"];
    let mut map: OrdMap<String, String> = OrdMap::new();
    let mut expected = std::collections::BTreeMap::new();
    for (at, word) in words.iter().enumerate() {
        let replaced = map.insert(word.to_string(), at.to_string());
        assert_eq!(replaced, expected.insert(word.to_string(), at.to_string()));
    }
    let sorted: Vec<(String, String)> = expected.clone().into_iter().collect();
    assert_eq!(listed(&map), sorted);
    assert_eq!(listed(&map.clone()), sorted);
    for word in ["fig", "fig", "plum", "", "pear"] {
        assert_eq!(map.remove(&word.to_string()), expected.remove(word));
        assert_eq!(map.len(), expected.len());
    }
    let sorted: Vec<(String, String)> = expected.into_iter().collect();
    assert_eq!(listed(&map), sorted);
}
