use glucose_status::discord::{Api, Error, PROTO_SETTINGS_URL};

#[test]
fn status_update_carries_base64_settings() {
    let api = Api::new("token-123");
    let update = api.set_status(&vec![1u8, 2, 3, 255]);
    assert_eq!(update.url, PROTO_SETTINGS_URL);
    assert_eq!(update.authorization, "token-123");
    assert_eq!(update.body, "{\"settings\":\"AQID/w==\"}");
}

#[test]
fn status_update_of_empty_settings() {
    let api = Api::new("t");
    assert_eq!(api.set_status(&Vec::new()).body, "{\"settings\":\"\"}");
}

#[test]
fn status_reply_success_and_failure() {
    assert_eq!(Api::status_reply(true, "ignored".to_string()), Ok(()));
    assert_eq!(
        Api::status_reply(false, "{\"message\":\"401: Unauthorized\"}".to_string()),
        Err(Error::Unknown("{\"message\":\"401: Unauthorized\"}".to_string()))
    );
}
