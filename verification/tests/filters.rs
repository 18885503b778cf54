use noteguard::filters::rate_limit;
use noteguard::filters::{Blacklist, Content, Kinds, ProtectedEvents, RateInfo, Whitelist};
use noteguard::listing::{is_listed, is_listed_opt, reads_as};
use noteguard::{Action, InputMessage, Note, NoteFilter, OutputMessage};
use noteguard::decimal::decimal_text;

const SECOND: u128 = 1_000_000_000;

fn message(id: &str, pubkey: &str, source_info: &str) -> InputMessage {
    InputMessage {
        message_type: "new".to_string(),
        event: Note {
            id: id.to_string(),
            pubkey: pubkey.to_string(),
            created_at: 0,
            kind: 1,
            tags: Vec::new(),
            content: "an ordinary note".to_string(),
            sig: "sig".to_string(),
        },
        received_at: 0,
        source_type: "IP4".to_string(),
        source_info: source_info.to_string(),
    }
}

fn names(items: &[&str]) -> Option<Vec<String>> {
    Some(items.iter().map(|item| item.to_string()).collect())
}

#[test]
fn output_message_keeps_what_it_is_given() {
    let out = OutputMessage::new("id1".to_string(), Action::ShadowReject, Some("why".to_string()));
    assert_eq!(out.id, "id1");
    assert_eq!(out.action, Action::ShadowReject);
    assert_eq!(out.msg, Some("why".to_string()));
    let out = OutputMessage::new("id2".to_string(), Action::Accept, None);
    assert_eq!(out, OutputMessage { id: "id2".to_string(), action: Action::Accept, msg: None });
}

#[test]
fn lists_are_searched_exactly() {
    let list = vec!["a".to_string(), "bc".to_string()];
    assert!(is_listed(&list, &"bc".to_string()));
    assert!(!is_listed(&list, &"b".to_string()));
    assert!(!is_listed(&Vec::new(), &"a".to_string()));
    assert!(is_listed_opt(&Some(list), &"a".to_string()));
    assert!(!is_listed_opt(&None, &"a".to_string()));
    assert!(reads_as(&"-".to_string(), "-"));
    assert!(!reads_as(&"--".to_string(), "-"));
}

#[test]
fn whitelist_accepts_listed_author_or_origin() {
    let mut filter = Whitelist { pubkeys: names(&["alice"]), ips: names(&["9.9.9.9"]) };
    assert_eq!(filter.filter_note(&message("a", "alice", "1.1.1.1")).action, Action::Accept);
    assert_eq!(filter.filter_note(&message("b", "bob", "9.9.9.9")).action, Action::Accept);
    let out = filter.filter_note(&message("c", "bob", "1.1.1.1"));
    assert_eq!(out.id, "c");
    assert_eq!(out.action, Action::Reject);
    assert_eq!(out.msg, Some("blocked: pubkey/ip not on the whitelist".to_string()));
    assert_eq!(filter.name(), "whitelist");
    let mut empty = Whitelist::default();
    assert_eq!(empty.filter_note(&message("d", "alice", "9.9.9.9")).action, Action::Reject);
}

#[test]
fn blacklist_rejects_listed_author_origin_and_network() {
    let mut filter = Blacklist {
        pubkeys: names(&["mallory"]),
        ips: names(&["6.6.6.6"]),
        cidrs: names(&["not a network", "10.0.0.0/8", "2001:db8::/32"]),
    };
    let reason = Some("blocked: pubkey/ip is blacklisted".to_string());
    let out = filter.filter_note(&message("a", "mallory", "1.1.1.1"));
    assert_eq!((out.action, out.msg), (Action::Reject, reason.clone()));
    let out = filter.filter_note(&message("b", "alice", "6.6.6.6"));
    assert_eq!((out.action, out.msg), (Action::Reject, reason.clone()));
    let out = filter.filter_note(&message("c", "alice", "10.200.3.4"));
    assert_eq!((out.action, out.msg), (Action::Reject, reason.clone()));
    let out = filter.filter_note(&message("d", "alice", "2001:db8::17"));
    assert_eq!((out.action, out.msg), (Action::Reject, reason));
    let out = filter.filter_note(&message("e", "alice", "11.0.0.1"));
    assert_eq!((out.id.as_str(), out.action, out.msg), ("e", Action::Accept, None));
    let out = filter.filter_note(&message("f", "alice", "not an address"));
    assert_eq!(out.action, Action::Accept);
    assert_eq!(filter.name(), "blacklist");
}

#[test]
fn blacklist_asks_the_network_about_the_address() {
    let filter = Blacklist { pubkeys: None, ips: None, cidrs: names(&["192.168.0.0/16"]) };
    assert!(filter.is_ip_blocked(&"192.168.255.255".to_string()));
    assert!(!filter.is_ip_blocked(&"192.169.0.0".to_string()));
    assert!(!filter.is_ip_blocked(&"192.168.0.0/16".to_string()));
    assert!(!filter.is_ip_blocked(&"::1".to_string()));
    let none = Blacklist::default();
    assert!(!none.is_ip_blocked(&"192.168.1.1".to_string()));
    let out = none.judge(&message("g", "alice", "1.1.1.1"), true);
    assert_eq!(out.action, Action::Reject);
    let out = none.judge(&message("h", "alice", "1.1.1.1"), false);
    assert_eq!(out.action, Action::Accept);
}

#[test]
fn content_silently_rejects_unwanted_phrases() {
    let mut filter = Content { filters: vec!["spam".to_string(), "ordinary".to_string()] };
    let out = filter.filter_note(&message("a", "alice", "1.1.1.1"));
    assert_eq!((out.id.as_str(), out.action, out.msg), ("a", Action::ShadowReject, None));
    let mut other = Content { filters: vec!["spam".to_string(), "Ordinary".to_string()] };
    let out = other.filter_note(&message("b", "alice", "1.1.1.1"));
    assert_eq!((out.action, out.msg), (Action::Accept, None));
    let mut none = Content::default();
    assert_eq!(none.filter_note(&message("c", "alice", "1.1.1.1")).action, Action::Accept);
    assert_eq!(filter.name(), "content");
}

#[test]
fn kinds_rejects_listed_kinds_with_their_reason() {
    let texts = vec![
        ("4".to_string(), "replaced below".to_string()),
        ("-7".to_string(), "no negative kinds".to_string()),
        ("04".to_string(), "never found".to_string()),
        ("4".to_string(), "no direct messages".to_string()),
    ];
    let mut filter = Kinds::new(vec![4, 30023, -7], Some(texts));
    let mut msg = message("a", "alice", "1.1.1.1");
    assert_eq!(filter.filter_note(&msg).action, Action::Accept);
    msg.event.kind = 4;
    let out = filter.filter_note(&msg);
    assert_eq!((out.action, out.msg), (Action::Reject, Some("no direct messages".to_string())));
    msg.event.kind = 30023;
    let out = filter.filter_note(&msg);
    assert_eq!(
        (out.action, out.msg),
        (Action::Reject, Some("blocked: note kind is not allowed here".to_string()))
    );
    msg.event.kind = -7;
    assert_eq!(filter.filter_note(&msg).msg, Some("no negative kinds".to_string()));
    let mut plain = Kinds::new(vec![4], None);
    msg.event.kind = 4;
    assert_eq!(
        plain.filter_note(&msg).msg,
        Some("blocked: note kind is not allowed here".to_string())
    );
    assert_eq!(Kinds::default().filter_note(&msg).action, Action::Accept);
    assert_eq!(filter.name(), "kinds");
}

#[test]
fn protected_events_looks_at_the_first_entry_of_the_first_tag() {
    let mut filter = ProtectedEvents::default();
    let mut msg = message("a", "alice", "1.1.1.1");
    assert_eq!(filter.filter_note(&msg).action, Action::Accept);
    msg.event.tags = vec![vec!["-".to_string()]];
    let out = filter.filter_note(&msg);
    assert_eq!(
        (out.action, out.msg),
        (Action::Reject, Some("blocked: event marked as protected".to_string()))
    );
    msg.event.tags = vec![vec!["e".to_string(), "-".to_string()], vec!["-".to_string()]];
    assert_eq!(filter.filter_note(&msg).action, Action::Accept);
    msg.event.tags = vec![Vec::new(), vec!["-".to_string()]];
    assert_eq!(filter.filter_note(&msg).action, Action::Accept);
    msg.event.tags = vec![vec!["--".to_string()]];
    assert_eq!(filter.filter_note(&msg).action, Action::Accept);
    assert_eq!(filter.name(), "protected_events");
}

#[test]
fn spacing_limiter_rejects_what_comes_too_soon() {
    let mut limiter = rate_limit::RateLimit::new(10, names(&["9.9.9.9"]));
    let msg = message("a", "alice", "1.1.1.1");
    assert_eq!(limiter.filter_note_at(&msg, 5 * SECOND).action, Action::Accept);
    let out = limiter.filter_note_at(&msg, 15 * SECOND - 1);
    assert_eq!(
        (out.action, out.msg),
        (Action::Reject, Some("rate-limited: you are noting too fast".to_string()))
    );
    let remembered: RateInfo = *limiter.sources.get("1.1.1.1").expect("remembered");
    assert_eq!(remembered.last_note, 5 * SECOND);
    assert_eq!(limiter.filter_note_at(&msg, 15 * SECOND).action, Action::Accept);
    assert_eq!(limiter.sources.get("1.1.1.1").expect("remembered").last_note, 15 * SECOND);
    assert_eq!(limiter.filter_note_at(&msg, 2 * SECOND).action, Action::Reject);

    // Another author from the same origin is spaced too; an exempt origin never.
    let other = message("b", "bob", "1.1.1.1");
    assert_eq!(limiter.filter_note_at(&other, 16 * SECOND).action, Action::Reject);
    let exempt = message("c", "alice", "9.9.9.9");
    assert_eq!(limiter.filter_note_at(&exempt, 16 * SECOND).action, Action::Accept);
    assert_eq!(limiter.filter_note_at(&exempt, 16 * SECOND).action, Action::Accept);
    assert_eq!(limiter.sources.len(), 1);
    assert_eq!(limiter.name(), "ratelimit");
}

#[test]
fn spacing_limiter_without_delay_accepts_everything() {
    let mut limiter = rate_limit::RateLimit::default();
    let msg = message("a", "alice", "1.1.1.1");
    assert_eq!(limiter.filter_note(&msg).action, Action::Accept);
    assert_eq!(limiter.filter_note(&msg).action, Action::Accept);
    assert_eq!(limiter.filter_note_at(&msg, 0).action, Action::Accept);
}

#[test]
fn whole_numbers_are_written_in_decimal() {
    assert_eq!(decimal_text(0), "0");
    assert_eq!(decimal_text(7), "7");
    assert_eq!(decimal_text(10), "10");
    assert_eq!(decimal_text(30023), "30023");
    assert_eq!(decimal_text(-1), "-1");
    assert_eq!(decimal_text(-1200), "-1200");
    assert_eq!(decimal_text(i64::MAX), "9223372036854775807");
    assert_eq!(decimal_text(i64::MIN), "-9223372036854775808");
    for n in [-1000i64, -99, -10, -9, 9, 11, 99, 100, 101, 123456789] {
        assert_eq!(decimal_text(n), n.to_string());
    }
}
