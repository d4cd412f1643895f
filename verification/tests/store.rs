use yunara::store::config::DatabaseConfig;
use yunara::store::kv::{
    init_single_key, insert_statement, lookup_row, order_by_keys, plan_key_initialization,
    resolve_key_requests, resolve_single_key, select_statement, IdType, KeyRequest,
};

fn s(x: &str) -> String {
    x.to_string()
}

fn is_uuid(t: &str) -> bool {
    t.len() == 36
        && t.chars().enumerate().all(|(i, c)| {
            if i == 8 || i == 13 || i == 18 || i == 23 {
                c == '-'
            } else {
                c.is_ascii_digit() || ('a'..='f').contains(&c)
            }
        })
}

#[test]
fn database_config_defaults() {
    let c = DatabaseConfig::default();
    assert_eq!(c.db_path, "yunara.db");
    assert_eq!(c.max_connections, 10);
    assert_eq!(c.min_connections, 1);
    assert_eq!(c.connect_timeout_secs, 30);
    assert_eq!(c.max_lifetime_secs, Some(1800));
    assert_eq!(c.idle_timeout_secs, Some(600));
}

#[test]
fn key_request_builder() {
    let r = KeyRequest::builder().key("existing_key").build();
    assert_eq!(r.key, "existing_key");
    assert!(!r.force);
    let r = KeyRequest::builder().key("existing_key").force(true).build();
    assert!(r.force);
}

#[test]
fn lookup_takes_last_row() {
    let rows = vec![(s("a"), s("1")), (s("b"), s("2")), (s("a"), s("3"))];
    assert_eq!(lookup_row(&rows, &s("a")), Some(s("3")));
    assert_eq!(lookup_row(&rows, &s("b")), Some(s("2")));
    assert_eq!(lookup_row(&rows, &s("c")), None);
}

#[test]
fn resolve_mixed_requests() {
    let reqs = vec![
        KeyRequest::builder().key("existing_key").build(),
        KeyRequest::builder().key("new_key1").build(),
        KeyRequest::builder().key("new_key2").build(),
    ];
    let rows = vec![(s("existing_key"), s("existing_id"))];
    let fresh = vec![s("f0"), s("f1"), s("f2")];
    let plan = resolve_key_requests(&reqs, &rows, &fresh);
    assert_eq!(plan.outcomes.len(), 3);
    match &plan.outcomes[0] {
        IdType::Existing { previous_value, new_value } => {
            assert_eq!(previous_value, "existing_id");
            assert_eq!(new_value, "existing_id");
        }
        _ => panic!("Expected Existing"),
    }
    assert!(matches!(&plan.outcomes[1], IdType::New(v) if v == "f1"));
    assert!(matches!(&plan.outcomes[2], IdType::New(v) if v == "f2"));
    assert_eq!(plan.writes, vec![(s("new_key1"), s("f1")), (s("new_key2"), s("f2"))]);
}

#[test]
fn resolve_forced_request() {
    let reqs = vec![
        KeyRequest::builder().key("existing_key").force(true).build(),
        KeyRequest::builder().key("new_key").build(),
    ];
    let rows = vec![(s("existing_key"), s("existing_id"))];
    let fresh = vec![s("g0"), s("g1")];
    let plan = resolve_key_requests(&reqs, &rows, &fresh);
    match &plan.outcomes[0] {
        IdType::Existing { previous_value, new_value } => {
            assert_eq!(previous_value, "existing_id");
            assert_eq!(new_value, "g0");
        }
        _ => panic!("Expected Existing"),
    }
    assert!(matches!(&plan.outcomes[1], IdType::New(v) if v == "g1"));
    assert_eq!(plan.writes, vec![(s("existing_key"), s("g0")), (s("new_key"), s("g1"))]);
}

#[test]
fn planned_identifiers_are_uuids() {
    let reqs = vec![
        KeyRequest::builder().key("a").build(),
        KeyRequest::builder().key("b").force(true).build(),
        KeyRequest::builder().key("c").build(),
    ];
    let rows = vec![(s("b"), s("old")), (s("c"), s("kept"))];
    let plan = plan_key_initialization(&reqs, &rows);
    assert_eq!(plan.outcomes.len(), 3);
    match &plan.outcomes[0] {
        IdType::New(v) => assert!(is_uuid(v)),
        _ => panic!("Expected New"),
    }
    match &plan.outcomes[1] {
        IdType::Existing { previous_value, new_value } => {
            assert_eq!(previous_value, "old");
            assert!(is_uuid(new_value));
            assert_ne!(previous_value, new_value);
        }
        _ => panic!("Expected Existing"),
    }
    match &plan.outcomes[2] {
        IdType::Existing { previous_value, new_value } => {
            assert_eq!(previous_value, "kept");
            assert_eq!(new_value, "kept");
        }
        _ => panic!("Expected Existing"),
    }
    assert_eq!(plan.writes.len(), 2);
    assert_eq!(plan.writes[0].0, "a");
    assert_eq!(plan.writes[1].0, "b");
}

#[test]
fn single_key_resolution() {
    let (o, w) = resolve_single_key(Some(s("id1")), s("fresh"));
    assert!(matches!(o, IdType::Existing { ref previous_value, ref new_value } if previous_value == "id1" && new_value == "id1"));
    assert_eq!(w, None);
    let (o, w) = resolve_single_key(None, s("fresh"));
    assert!(matches!(o, IdType::New(ref v) if v == "fresh"));
    assert_eq!(w, Some(s("fresh")));
    let (o, w) = init_single_key(None);
    let id = match o {
        IdType::New(v) => v,
        _ => panic!("Expected New"),
    };
    assert!(is_uuid(&id));
    assert_eq!(w, Some(id));
}

#[test]
fn ordered_batch_read() {
    let rows = vec![(s("ordered_key1"), s("\"value1\"")), (s("ordered_key2"), s("\"value2\"")), (s("ordered_key3"), s("\"value3\""))];
    let keys = vec![s("ordered_key1"), s("nonexistent"), s("ordered_key2"), s("ordered_key3")];
    let r = order_by_keys(&keys, &rows);
    assert_eq!(r.len(), 4);
    assert_eq!(r[0], Some(s("\"value1\"")));
    assert_eq!(r[1], None);
    assert_eq!(r[2], Some(s("\"value2\"")));
    assert_eq!(r[3], Some(s("\"value3\"")));
}

#[test]
fn ordered_batch_read_repeated_key() {
    let rows = vec![(s("k"), s("v"))];
    let keys = vec![s("k"), s("k")];
    assert_eq!(order_by_keys(&keys, &rows), vec![Some(s("v")), Some(s("v"))]);
}

#[test]
fn sql_statements() {
    assert_eq!(insert_statement(1), "INSERT OR REPLACE INTO kv_table (key, value) VALUES (?, ?)");
    assert_eq!(insert_statement(3), "INSERT OR REPLACE INTO kv_table (key, value) VALUES (?, ?), (?, ?), (?, ?)");
    assert_eq!(select_statement(1), "SELECT key, value FROM kv_table WHERE key IN (?)");
    assert_eq!(select_statement(4), "SELECT key, value FROM kv_table WHERE key IN (?, ?, ?, ?)");
}

#[test]
fn unrequested_keys_are_not_written() {
    let reqs = vec![KeyRequest::builder().key("a").force(true).build(), KeyRequest::builder().key("b").build()];
    let rows = vec![(s("a"), s("1")), (s("other"), s("kept")), (s("b"), s("2"))];
    let fresh = vec![s("f0"), s("f1")];
    let plan = resolve_key_requests(&reqs, &rows, &fresh);
    assert_eq!(plan.writes, vec![(s("a"), s("f0"))]);
    assert!(plan.writes.iter().all(|(k, _)| k != "other"));
}
