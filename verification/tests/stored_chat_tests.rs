use cian_tui::state::{ChatMode, ChatMsg, ChatSkin, StoredChat};
use serde_json::Value;

// The stored form of a conversation, written out and read back by calls on
// `serde_json::Value`, field for field as the history file holds it.

fn to_value(c: &StoredChat) -> Value {
    let mut m = serde_json::Map::new();
    let mode = match c.mode() {
        ChatMode::Ai => "Ai",
    };
    m.insert("mode".to_string(), Value::String(mode.to_string()));
    if let Some(s) = &c.skin {
        let mut k = serde_json::Map::new();
        k.insert("title".to_string(), Value::String(s.title.clone()));
        k.insert("simple".to_string(), Value::Bool(s.simple));
        m.insert("skin".to_string(), Value::Object(k));
    }
    let log = c
        .log()
        .iter()
        .map(|msg| {
            let mut e = serde_json::Map::new();
            e.insert("user".to_string(), Value::Bool(msg.user));
            e.insert("text".to_string(), Value::String(msg.text.clone()));
            Value::Object(e)
        })
        .collect();
    m.insert("log".to_string(), Value::Array(log));
    Value::Object(m)
}

fn from_value(v: &Value) -> StoredChat {
    let mode = match v["mode"].as_str() {
        Some("Ai") => ChatMode::Ai,
        other => panic!("unknown mode {other:?}"),
    };
    let skin = v.get("skin").and_then(|s| s.as_object()).map(|s| ChatSkin {
        title: s["title"].as_str().unwrap().to_string(),
        simple: s["simple"].as_bool().unwrap(),
    });
    let log = v["log"]
        .as_array()
        .unwrap()
        .iter()
        .map(|e| ChatMsg { user: e["user"].as_bool().unwrap(), text: e["text"].as_str().unwrap().to_string() })
        .collect();
    StoredChat { mode, skin, log }
}

fn read_all(json: &str) -> Vec<StoredChat> {
    let v: Value = serde_json::from_str(json).unwrap();
    v.as_array().unwrap().iter().map(from_value).collect()
}

#[test]
fn stored_chats_round_trip_mode_skin_and_log() {
    let stored = vec![
        StoredChat::new(
            ChatMode::Ai,
            ChatSkin::of(ChatMode::Ai),
            vec![
                ChatMsg { user: true, text: "q1".into() },
                ChatMsg { user: false, text: "a1\nline".into() },
            ],
        ),
        StoredChat::new(
            ChatMode::Ai,
            ChatSkin { title: "AI - Rename".into(), simple: true },
            vec![ChatMsg { user: true, text: "q2".into() }],
        ),
    ];
    let json = serde_json::to_string(&Value::Array(stored.iter().map(to_value).collect())).unwrap();
    let back = read_all(&json);
    assert_eq!(back.len(), stored.len());
    assert!(back.iter().zip(&stored).all(|(a, b)| a.same_as(b)), "mode and transcript survive a round trip");
    assert_eq!(back[0].skin().title, "Chat");
    assert_eq!(back[1].skin().title, "AI - Rename");
}

#[test]
fn a_skinless_stored_chat_falls_back_to_its_mode() {
    let json = r#"[{"mode":"Ai","log":[{"user":true,"text":"q"}]}]"#;
    let back = read_all(json);
    assert_eq!(back[0].skin().title, "Chat");
    assert!(back[0].skin().simple);
}
