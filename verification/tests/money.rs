use web_handlers::handlers::send_money;
use web_handlers::handlers::Tx;
use web_handlers::json::address_reply;
use web_handlers::json::send_money_generic;
use web_handlers::json::AddressField;

#[test]
fn send_money_echoes_transfer() {
    let tx = Tx {
        amount: 100,
        address: "abc".to_string(),
    };
    let r = send_money(tx);
    assert_eq!(r.amount, 100);
    assert_eq!(r.address, "abc");
}

#[test]
fn send_money_keeps_largest_amount() {
    let tx = Tx {
        amount: u128::MAX,
        address: "treasury".to_string(),
    };
    let r = send_money(tx);
    assert_eq!(r.amount, u128::MAX);
    assert_eq!(r.address, "treasury");
}

#[test]
fn address_reply_for_each_outcome() {
    assert_eq!(
        address_reply(&AddressField::Missing),
        "Key not found in the payload."
    );
    assert_eq!(
        address_reply(&AddressField::NotText),
        "The value is not a string."
    );
    assert_eq!(
        address_reply(&AddressField::Text("xyz".to_string())),
        "The value is: xyz"
    );
}

#[test]
fn generic_money_with_string_address() {
    let mut map = serde_json::Map::new();
    map.insert(
        "address".to_string(),
        serde_json::Value::String("xyz".to_string()),
    );
    let payload = serde_json::Value::Object(map);
    assert_eq!(send_money_generic(&payload), "The value is: xyz");
}

#[test]
fn generic_money_with_non_string_address() {
    let mut map = serde_json::Map::new();
    map.insert(
        "address".to_string(),
        serde_json::Value::Number(serde_json::Number::from(5u64)),
    );
    let payload = serde_json::Value::Object(map);
    assert_eq!(send_money_generic(&payload), "The value is not a string.");
}

#[test]
fn generic_money_without_address_key() {
    let payload = serde_json::Value::Object(serde_json::Map::new());
    assert_eq!(
        send_money_generic(&payload),
        "Key not found in the payload."
    );
}

#[test]
fn generic_money_with_non_object_payload() {
    let payload = serde_json::Value::String("address".to_string());
    assert_eq!(
        send_money_generic(&payload),
        "Key not found in the payload."
    );
}
