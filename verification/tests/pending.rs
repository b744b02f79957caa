use qmp::types::{QmpError, QmpResponse};
use qmp::PendingCalls;
use serde_json::Value;

fn response(id: Value) -> QmpResponse {
    QmpResponse { id, result: Some(Value::from("ok")), error: None }
}

#[test]
fn responses_reach_the_waiter_of_their_id() {
    let mut table: PendingCalls<&str> = PendingCalls::new();
    assert_eq!(table.insert(1, "first"), None);
    assert_eq!(table.insert(2, "second"), None);
    assert_eq!(table.len(), 2);
    assert_eq!(table.take_for_response(&response(Value::from(2u64))), Some("second"));
    assert_eq!(table.take_for_response(&response(Value::from(2u64))), None);
    assert_eq!(table.remove(1), Some("first"));
    assert_eq!(table.len(), 0);
}

#[test]
fn responses_with_unusable_ids_take_nothing() {
    let mut table: PendingCalls<u32> = PendingCalls::new();
    table.insert(5, 50);
    assert_eq!(table.take_for_response(&response(Value::from("5"))), None);
    assert_eq!(table.take_for_response(&response(Value::from(-5i64))), None);
    assert_eq!(table.take_for_response(&response(Value::from(6u64))), None);
    let err = QmpResponse {
        id: Value::from(5u64),
        result: None,
        error: Some(QmpError { class: "C".to_string(), desc: "D".to_string() }),
    };
    assert_eq!(table.take_for_response(&err), Some(50));
}

#[test]
fn reinserting_an_id_hands_back_the_old_waiter() {
    let mut table: PendingCalls<u32> = PendingCalls::new();
    assert_eq!(table.insert(9, 1), None);
    assert_eq!(table.insert(9, 2), Some(1));
    assert_eq!(table.len(), 1);
    assert_eq!(table.remove(9), Some(2));
}

#[test]
fn draining_fails_every_waiter() {
    let mut table: PendingCalls<u32> = PendingCalls::new();
    for id in 0..5u64 {
        table.insert(id, id as u32 * 10);
    }
    let mut all = table.drain_all();
    all.sort();
    assert_eq!(all, vec![0, 10, 20, 30, 40]);
    assert_eq!(table.len(), 0);
    assert!(table.drain_all().is_empty());
}
