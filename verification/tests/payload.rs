use page_server::payload::{page_payload, template_data};
use serde_json::Value;

fn object(members: Vec<(&str, Value)>) -> Value {
    let mut map = serde_json::Map::new();
    for (key, value) in members {
        map.insert(key.to_string(), value);
    }
    Value::Object(map)
}

#[test]
fn the_payload_of_a_page_is_its_title() {
    assert_eq!(
        page_payload("Welcome"),
        object(vec![("title", Value::String("Welcome".to_string()))])
    );
}

#[test]
fn the_payload_keeps_the_title_as_it_is() {
    let title = "Tom & \"Jerry\" <née> \u{1F600}";
    assert_eq!(
        page_payload(title),
        object(vec![("title", Value::String(title.to_string()))])
    );
    assert_eq!(
        page_payload(""),
        object(vec![("title", Value::String(String::new()))])
    );
}

#[test]
fn template_data_pairs_the_page_name_with_the_payload() {
    let envelope = template_data("index.html", page_payload("Welcome"));
    assert_eq!(
        envelope,
        object(vec![
            ("page", Value::String("index.html".to_string())),
            (
                "data",
                object(vec![("title", Value::String("Welcome".to_string()))])
            ),
        ])
    );
    assert_eq!(
        envelope.to_string(),
        "{\"data\":{\"title\":\"Welcome\"},\"page\":\"index.html\"}"
    );
}

#[test]
fn template_data_carries_any_payload() {
    let payload = object(vec![
        ("count", Value::from(3)),
        ("tags", Value::Array(vec![Value::from("a"), Value::Null])),
    ]);
    let envelope = template_data("list.html", payload.clone());
    assert_eq!(envelope["page"], Value::from("list.html"));
    assert_eq!(envelope["data"], payload);
    assert_eq!(envelope.as_object().unwrap().len(), 2);
}
