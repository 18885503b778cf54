use noteguard::filters::{Kinds, ProtectedEvents, RateLimit, Whitelist};
use noteguard::{
    Action, ConfigError, InputMessage, Note, NoteFilter, Noteguard, OutputMessage, Stage,
};
use std::cell::Cell;
use std::rc::Rc;

// Helper function to create a mock InputMessage
fn create_mock_input_message(event_id: &str, message_type: &str) -> InputMessage {
    InputMessage {
        message_type: message_type.to_string(),
        event: Note {
            id: event_id.to_string(),
            pubkey: "mock_pubkey".to_string(),
            created_at: 0,
            kind: 1,
            tags: vec![vec!["-".to_string()]],
            content: "mock_content".to_string(),
            sig: "mock_signature".to_string(),
        },
        received_at: 0,
        source_type: "mock_source".to_string(),
        source_info: "mock_source_info".to_string(),
    }
}

fn strings(value: Option<&toml::Value>) -> Result<Option<Vec<String>>, String> {
    match value {
        None => Ok(None),
        Some(toml::Value::Array(items)) => {
            let mut out = Vec::new();
            for item in items {
                match item.as_str() {
                    Some(text) => out.push(text.to_string()),
                    None => return Err("expected a string".to_string()),
                }
            }
            Ok(Some(out))
        }
        Some(_) => Err("expected an array".to_string()),
    }
}

/// Binds the configuration table of one filter to the filter it describes.
fn bind(name: &str, filters: &toml::Value) -> Result<Stage, String> {
    let table = match filters.get(name) {
        Some(table) => table,
        None => return Err(format!("could not find filter configuration for {}", name)),
    };
    let filter: Box<dyn NoteFilter> = match name {
        "ratelimit" => {
            let rate = match table.get("posts_per_minute").and_then(|v| v.as_integer()) {
                Some(rate) => rate as i32,
                None => return Err("missing field `posts_per_minute`".to_string()),
            };
            let message = table
                .get("message")
                .and_then(|v| v.as_str())
                .map(|text| text.to_string());
            Box::new(RateLimit::new(rate, strings(table.get("whitelist"))?, message))
        }
        "whitelist" => Box::new(Whitelist {
            pubkeys: strings(table.get("pubkeys"))?,
            ips: strings(table.get("ips"))?,
        }),
        "protected_events" => Box::new(ProtectedEvents {}),
        "kinds" => Box::new(Kinds {
            kinds: Vec::new(),
            messages: None,
        }),
        _ => return Err("no such filter".to_string()),
    };
    Ok(Stage { filter })
}

/// Loads the pipeline that a configuration text describes.
fn load(noteguard: &mut Noteguard, config: &toml::Value) -> Result<(), ConfigError> {
    let pipeline: Vec<String> = config
        .get("pipeline")
        .and_then(|v| v.as_array())
        .expect("pipeline")
        .iter()
        .map(|v| v.as_str().expect("name").to_string())
        .collect();
    let filters = config.get("filters").expect("filters").clone();
    noteguard.load_config(&pipeline, |name: &String| bind(name.as_str(), &filters))
}

#[test]
fn test_register_builtin_filters() {
    let noteguard = Noteguard::new();
    assert!(noteguard.is_registered(&"ratelimit".to_string()));
    assert!(noteguard.is_registered(&"whitelist".to_string()));
    assert!(noteguard.is_registered(&"protected_events".to_string()));
    assert!(noteguard.is_registered(&"kinds".to_string()));
}

#[test]
fn test_load_config() {
    let mut noteguard = Noteguard::new();

    // Create a mock config with one filter (RateLimit)
    let config: toml::Value = toml::from_str(
        r#"
            pipeline = ["ratelimit"]

            [filters.ratelimit]
            posts_per_minute = 3
        "#,
    )
    .expect("Failed to parse config");

    assert!(load(&mut noteguard, &config).is_ok());
    assert_eq!(noteguard.loaded_filters.len(), 1);
}

#[test]
fn test_run_filters_accept() {
    let mut noteguard = Noteguard::new();

    // Create a mock config with one filter (RateLimit)
    let config: toml::Value = toml::from_str(
        r#"
            pipeline = ["ratelimit"]

            [filters.ratelimit]
            posts_per_minute = 3
        "#,
    )
    .expect("Failed to parse config");

    load(&mut noteguard, &config).expect("Failed to load config");

    let input_message = create_mock_input_message("test_event_1", "new");
    let output_message = noteguard.run(input_message);

    assert_eq!(output_message.action, Action::Accept);
}

#[test]
fn test_run_filters_shadow_reject() {
    let mut noteguard = Noteguard::new();

    // Create a mock config with one filter (ProtectedEvents) which will shadow reject the input
    let config: toml::Value = toml::from_str(
        r#"
            pipeline = ["protected_events"]

            [filters.protected_events]
        "#,
    )
    .expect("Failed to parse config");

    load(&mut noteguard, &config).expect("Failed to load config");

    let input_message = create_mock_input_message("test_event_3", "new");
    let output_message = noteguard.run(input_message);

    assert_eq!(output_message.action, Action::Reject);
}

#[test]
fn test_whitelist_reject() {
    let mut noteguard = Noteguard::new();

    // Create a mock config with one filter (Whitelist) which will reject the input
    let config: toml::Value = toml::from_str(
        r#"
            pipeline = ["whitelist"]
            [filters.whitelist]
            pubkeys = ["something"]
        "#,
    )
    .expect("Failed to parse config");

    load(&mut noteguard, &config).expect("Failed to load config");

    let input_message = create_mock_input_message("test_event_2", "new");
    let output_message = noteguard.run(input_message);

    assert_eq!(output_message.action, Action::Reject);
}

fn text(value: &serde_json::Value, field: &str) -> String {
    value
        .get(field)
        .and_then(|v| v.as_str())
        .expect("a string field")
        .to_string()
}

#[test]
fn test_deserialize_input_message() {
    let input_json = r#"
        {
            "type": "new",
            "event": {
                "id": "test_event_5",
                "pubkey": "mock_pubkey",
                "created_at": 0,
                "kind": 1,
                "tags": [],
                "content": "mock_content",
                "sig": "mock_signature"
            },
            "receivedAt": 0,
            "sourceType": "mock_source",
            "sourceInfo": "mock_source_info"
        }
        "#;

    let parsed: serde_json::Value =
        serde_json::from_str(input_json).expect("Failed to deserialize input message");
    let event = parsed.get("event").expect("event");
    let input_message = InputMessage {
        message_type: text(&parsed, "type"),
        event: Note {
            id: text(event, "id"),
            pubkey: text(event, "pubkey"),
            content: text(event, "content"),
            created_at: event.get("created_at").and_then(|v| v.as_i64()).expect("created_at"),
            kind: event.get("kind").and_then(|v| v.as_i64()).expect("kind"),
            tags: Vec::new(),
            sig: text(event, "sig"),
        },
        received_at: parsed.get("receivedAt").and_then(|v| v.as_u64()).expect("receivedAt"),
        source_type: text(&parsed, "sourceType"),
        source_info: text(&parsed, "sourceInfo"),
    };
    assert_eq!(input_message.event.id, "test_event_5");
    assert_eq!(input_message.message_type, "new");
}

/// A filter that always gives the same verdict and counts how often it is
/// asked.
struct Fixed {
    action: Action,
    reason: Option<String>,
    asked: Rc<Cell<u32>>,
}

impl NoteFilter for Fixed {
    fn filter_note(&mut self, msg: &InputMessage) -> OutputMessage {
        self.asked.set(self.asked.get() + 1);
        OutputMessage::new(msg.event.id.clone(), self.action, self.reason.clone())
    }

    fn name(&self) -> &'static str {
        "fixed"
    }
}

fn fixed(action: Action, reason: Option<&str>) -> (Stage, Rc<Cell<u32>>) {
    let asked = Rc::new(Cell::new(0));
    let filter = Fixed {
        action,
        reason: reason.map(|text| text.to_string()),
        asked: asked.clone(),
    };
    (Stage { filter: Box::new(filter) }, asked)
}

fn engine_with(stages: Vec<Stage>) -> Noteguard {
    let mut noteguard = Noteguard::new();
    noteguard.loaded_filters = stages;
    noteguard
}

#[test]
fn empty_pipeline_accepts_without_reason() {
    let mut noteguard = Noteguard::new();
    assert_eq!(noteguard.loaded_filters.len(), 0);
    let out = noteguard.run(create_mock_input_message("lonely", "new"));
    assert_eq!(out.id, "lonely");
    assert_eq!(out.action, Action::Accept);
    assert_eq!(out.msg, None);
}

#[test]
fn first_reject_wins_and_later_filter_is_not_asked() {
    let (first, first_asked) = fixed(Action::Reject, Some("no"));
    let (second, second_asked) = fixed(Action::Accept, Some("fine"));
    let mut noteguard = engine_with(vec![first, second]);
    let out = noteguard.run(create_mock_input_message("e1", "new"));
    assert_eq!(out.id, "e1");
    assert_eq!(out.action, Action::Reject);
    assert_eq!(out.msg, Some("no".to_string()));
    assert_eq!(first_asked.get(), 1);
    assert_eq!(second_asked.get(), 0);
}

#[test]
fn shadow_reject_stops_the_pipeline_too() {
    let (first, first_asked) = fixed(Action::Accept, None);
    let (second, second_asked) = fixed(Action::ShadowReject, None);
    let (third, third_asked) = fixed(Action::Reject, Some("late"));
    let mut noteguard = engine_with(vec![first, second, third]);
    let out = noteguard.run(create_mock_input_message("e2", "new"));
    assert_eq!(out.action, Action::ShadowReject);
    assert_eq!(out.msg, None);
    assert_eq!(first_asked.get(), 1);
    assert_eq!(second_asked.get(), 1);
    assert_eq!(third_asked.get(), 0);
}

#[test]
fn last_acceptance_is_returned_with_its_reason() {
    let (first, _) = fixed(Action::Accept, Some("first"));
    let (second, _) = fixed(Action::Accept, Some("second"));
    let mut noteguard = engine_with(vec![first, second]);
    let out = noteguard.run(create_mock_input_message("e3", "new"));
    assert_eq!(out.action, Action::Accept);
    assert_eq!(out.msg, Some("second".to_string()));
}

#[test]
fn request_of_another_kind_is_rejected_before_the_pipeline() {
    let (only, asked) = fixed(Action::Accept, None);
    let mut noteguard = engine_with(vec![only]);
    let out = noteguard.handle(create_mock_input_message("e4", "lookback"));
    assert_eq!(out.id, "e4");
    assert_eq!(out.action, Action::Reject);
    assert_eq!(out.msg, Some("invalid strfry write policy input".to_string()));
    assert_eq!(asked.get(), 0);

    let out = noteguard.handle(create_mock_input_message("e5", "new"));
    assert_eq!(out.action, Action::Accept);
    assert_eq!(asked.get(), 1);
}

#[test]
fn unregistered_name_leaves_the_pipeline_in_force() {
    let mut noteguard = Noteguard::new();
    let good: toml::Value = toml::from_str(
        r#"
            pipeline = ["protected_events", "ratelimit"]
            [filters.protected_events]
            [filters.ratelimit]
            posts_per_minute = 3
        "#,
    )
    .expect("Failed to parse config");
    load(&mut noteguard, &good).expect("Failed to load config");
    assert_eq!(noteguard.loaded_filters.len(), 2);

    let bad: toml::Value = toml::from_str(
        r#"
            pipeline = ["whitelist", "nonesuch"]
            [filters.whitelist]
            pubkeys = ["something"]
            [filters.nonesuch]
        "#,
    )
    .expect("Failed to parse config");
    let outcome = load(&mut noteguard, &bad);
    assert_eq!(
        outcome,
        Err(ConfigError::NotRegistered { name: "nonesuch".to_string() })
    );

    // The old pipeline still decides: the event is protected, so it is refused
    // by the first of the two filters that were in force before.
    assert_eq!(noteguard.loaded_filters.len(), 2);
    assert_eq!(noteguard.loaded_filters[0].filter.name(), "protected_events");
    assert_eq!(noteguard.loaded_filters[1].filter.name(), "ratelimit");
    let out = noteguard.run(create_mock_input_message("e6", "new"));
    assert_eq!(out.action, Action::Reject);
    assert_eq!(out.msg, Some("blocked: event marked as protected".to_string()));
}

#[test]
fn configuration_that_does_not_bind_is_reported_by_name() {
    let mut noteguard = Noteguard::new();
    let config: toml::Value = toml::from_str(
        r#"
            pipeline = ["protected_events", "ratelimit"]
            [filters.protected_events]
            [filters.ratelimit]
            posts_per_minutes = 3
        "#,
    )
    .expect("Failed to parse config");
    let outcome = load(&mut noteguard, &config);
    assert_eq!(
        outcome,
        Err(ConfigError::Invalid {
            name: "ratelimit".to_string(),
            reason: "missing field `posts_per_minute`".to_string(),
        })
    );
    assert_eq!(noteguard.loaded_filters.len(), 0);
}

#[test]
fn reload_replaces_the_pipeline_as_a_whole() {
    let mut noteguard = Noteguard::new();
    let first: toml::Value = toml::from_str(
        r#"
            pipeline = ["protected_events", "whitelist"]
            [filters.protected_events]
            [filters.whitelist]
        "#,
    )
    .expect("Failed to parse config");
    load(&mut noteguard, &first).expect("Failed to load config");
    let second: toml::Value = toml::from_str(
        r#"
            pipeline = ["kinds"]
            [filters.kinds]
        "#,
    )
    .expect("Failed to parse config");
    load(&mut noteguard, &second).expect("Failed to load config");
    assert_eq!(noteguard.loaded_filters.len(), 1);
    assert_eq!(noteguard.loaded_filters[0].filter.name(), "kinds");
}

#[test]
fn registering_a_filter_makes_its_name_known() {
    let mut noteguard = Noteguard::new();
    assert!(noteguard.is_registered(&"forwarder".to_string()));
    assert!(!noteguard.is_registered(&"blacklist".to_string()));
    noteguard.register_filter::<noteguard::filters::Blacklist>();
    assert!(noteguard.is_registered(&"blacklist".to_string()));
    let before = noteguard.registered_filters.len();
    noteguard.register_filter::<noteguard::filters::Blacklist>();
    assert_eq!(noteguard.registered_filters.len(), before);
}

#[test]
fn refused_event_does_not_reach_the_filters_behind() {
    let mut noteguard = Noteguard::new();
    let config: toml::Value = toml::from_str(
        r#"
            pipeline = ["protected_events", "ratelimit"]
            [filters.protected_events]
            [filters.ratelimit]
            posts_per_minute = 1
        "#,
    )
    .expect("Failed to parse config");
    load(&mut noteguard, &config).expect("Failed to load config");

    // Protected events are refused by the first filter, however many come.
    for _ in 0..5 {
        let out = noteguard.run(create_mock_input_message("protected", "new"));
        assert_eq!(out.action, Action::Reject);
        assert_eq!(out.msg, Some("blocked: event marked as protected".to_string()));
    }

    // The limiter behind it was never asked: the same author's first event
    // that gets that far finds no bucket and is let through, the second is
    // refused by the limiter.
    let mut open = create_mock_input_message("open", "new");
    open.event.tags = Vec::new();
    let out = noteguard.run(open);
    assert_eq!((out.action, out.msg), (Action::Accept, None));
    let mut open = create_mock_input_message("open2", "new");
    open.event.tags = Vec::new();
    let out = noteguard.run(open);
    assert_eq!(out.id, "open2");
    assert_eq!(out.action, Action::Reject);
    assert_eq!(out.msg, Some("rate-limited: you are noting too much".to_string()));
}
