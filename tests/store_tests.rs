use kv_gateway::backend::BackendService;
use kv_gateway::protocol::{not_found_message, not_found_status, RpcCode};

#[test]
fn get_value_request_should_return_not_found_when_invalid_key() {
    let service = BackendService::new();

    let response = service.get_value("invalid_key");

    assert!(response.is_err());

    if let Err(status) = response {
        assert_eq!(RpcCode::NotFound, status.code);
    }
}

#[test]
fn insert_value_should_return_success() {
    let mut service = BackendService::new();

    let key = "key1".to_string();
    let value = "value1".to_string();

    assert!(service.insert_value(key.clone(), value));

    let response = service.get_value(&key).unwrap();

    assert_eq!("value1", response);
}

#[test]
fn round_trip_keeps_inner_whitespace() {
    let mut service = BackendService::new();
    assert!(service.insert_value("my key".to_string(), "  a value \t with spaces ".to_string()));
    assert_eq!(
        service.get_value("my key").unwrap(),
        "  a value \t with spaces "
    );
}

#[test]
fn overwrite_keeps_the_last_value() {
    let mut store = BackendService::new();
    assert!(store.insert_value("k".to_string(), "v1".to_string()));
    assert!(store.insert_value("k".to_string(), "v2".to_string()));
    assert_eq!(store.get_value("k").unwrap(), "v2");

    let mut service = BackendService::new();
    assert!(service.insert_value("k".to_string(), "v1".to_string()));
    assert!(service.insert_value("k".to_string(), "v2".to_string()));
    assert_eq!(service.get_value("k").unwrap(), "v2");
}

#[test]
fn absent_key_message_names_the_key() {
    let mut store = BackendService::new();
    assert!(store.insert_value("present".to_string(), "x".to_string()));
    let status = store.get_value("missing").unwrap_err();
    assert_eq!(status.code, RpcCode::NotFound);
    assert_eq!(status.message, "Value for key: missing not found.");
    assert!(status.message.contains("missing"));
}

#[test]
fn empty_strings_are_accepted_by_the_store() {
    let mut store = BackendService::new();
    assert!(store.insert_value(String::new(), String::new()));
    assert_eq!(store.get_value("").unwrap(), "");
    assert!(store.get_value(" ").is_err());
}

#[test]
fn other_keys_are_untouched_by_insert() {
    let mut store = BackendService::new();
    assert!(store.insert_value("a".to_string(), "1".to_string()));
    assert!(store.insert_value("b".to_string(), "2".to_string()));
    assert_eq!(store.get_value("a").unwrap(), "1");
    assert_eq!(store.get_value("b").unwrap(), "2");
}

#[test]
fn not_found_message_format() {
    assert_eq!(not_found_message("abc"), "Value for key: abc not found.");
    assert_eq!(not_found_message(""), "Value for key:  not found.");
    let status = not_found_status("k1");
    assert_eq!(status.code, RpcCode::NotFound);
    assert_eq!(status.message, "Value for key: k1 not found.");
}

#[test]
fn repeating_an_insert_changes_nothing() {
    let mut service = BackendService::new();
    assert!(service.insert_value("k".to_string(), "v".to_string()));
    assert!(service.insert_value("k".to_string(), "v".to_string()));
    assert_eq!(service.get_value("k").unwrap(), "v");
    assert!(service.get_value("other").is_err());
}

#[test]
fn lookups_see_every_completed_insert() {
    let mut service = BackendService::new();
    let ops = [("a", "1"), ("b", "2"), ("a", "3"), ("c", "4")];
    for (k, v) in ops {
        assert!(service.insert_value(k.to_string(), v.to_string()));
    }
    assert_eq!(service.get_value("a").unwrap(), "3");
    assert_eq!(service.get_value("b").unwrap(), "2");
    assert_eq!(service.get_value("c").unwrap(), "4");
    assert_eq!(service.get_value("d").unwrap_err().message, "Value for key: d not found.");
}
