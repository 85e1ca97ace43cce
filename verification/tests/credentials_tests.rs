use doubao_voice_input::credentials::{
    hex16, registered_ids, registration_body, registration_query, settings_query,
    settings_request_body, standalone_token_pair, token_from_settings, x_ss_stub, Credentials,
    CredentialsError, DeviceIdentity,
};
use doubao_voice_input::json::JsonValue;

fn obj(entries: Vec<(&str, JsonValue)>) -> JsonValue {
    JsonValue::Object(entries.into_iter().map(|(k, v)| (k.to_string(), v)).collect())
}

fn settings_with_key(key: JsonValue) -> JsonValue {
    obj(vec![(
        "data",
        obj(vec![("settings", obj(vec![("asr_config", obj(vec![("app_key", key)]))]))]),
    )])
}

#[test]
fn stub_of_settings_body_is_uppercase_md5() {
    let body = settings_request_body();
    assert_eq!(body, "body=null");
    assert_eq!(x_ss_stub(&body), "46C03B52742B3F2615A3ABDF1636B754");
    assert_eq!(x_ss_stub(""), "D41D8CD98F00B204E9800998ECF8427E");
}

#[test]
fn openudid_is_sixteen_lower_hex_digits() {
    assert_eq!(hex16(0), "0000000000000000");
    assert_eq!(hex16(0xdead_beef), "00000000deadbeef");
    assert_eq!(hex16(u64::MAX), "ffffffffffffffff");
}

fn is_uuid_v4(s: &str) -> bool {
    let b: Vec<char> = s.chars().collect();
    b.len() == 36
        && b.iter().enumerate().all(|(i, c)| {
            if i == 8 || i == 13 || i == 18 || i == 23 {
                *c == '-'
            } else {
                c.is_ascii_digit() || ('a'..='f').contains(c)
            }
        })
        && b[14] == '4'
        && "89ab".contains(b[19])
}

#[test]
fn generated_identity_has_expected_forms() {
    let a = DeviceIdentity::generate();
    let b = DeviceIdentity::generate();
    assert!(is_uuid_v4(&a.cdid));
    assert!(is_uuid_v4(&a.clientudid));
    assert_eq!(a.openudid.len(), 16);
    assert!(a.openudid.chars().all(|c| c.is_ascii_digit() || ('a'..='f').contains(&c)));
    assert_ne!(a.cdid, b.cdid);
}

#[test]
fn registration_answer_ids() {
    let doc = obj(vec![
        ("device_id", JsonValue::Number(Some(1923476667833563))),
        ("install_id", JsonValue::Number(Some(42))),
    ]);
    let (d, i) = registered_ids(&doc);
    assert_eq!(d, "1923476667833563");
    assert_eq!(i, "42");
    let missing = obj(vec![("device_id", JsonValue::Str("7".to_string()))]);
    let (d, i) = registered_ids(&missing);
    assert_eq!(d, "0");
    assert_eq!(i, "0");
    let (d, _) = registered_ids(&JsonValue::Null);
    assert_eq!(d, "0");
}

#[test]
fn token_found() {
    let doc = settings_with_key(JsonValue::Str("RTIHIRzbwS".to_string()));
    assert_eq!(token_from_settings(&doc).unwrap(), "RTIHIRzbwS");
}

#[test]
fn token_empty_or_missing_is_an_error() {
    let empty = settings_with_key(JsonValue::Str(String::new()));
    assert_eq!(token_from_settings(&empty).unwrap_err(), CredentialsError::EmptyToken);
    let not_string = settings_with_key(JsonValue::Number(Some(3)));
    assert_eq!(token_from_settings(&not_string).unwrap_err(), CredentialsError::EmptyToken);
    assert_eq!(token_from_settings(&JsonValue::Null).unwrap_err(), CredentialsError::EmptyToken);
    assert_eq!(
        CredentialsError::EmptyToken.message(),
        "Token is empty - API response may have changed"
    );
}

#[test]
fn create_fresh_assembles_credentials() {
    let identity = DeviceIdentity {
        cdid: "c".to_string(),
        openudid: "o".to_string(),
        clientudid: "u".to_string(),
    };
    let reg = obj(vec![
        ("device_id", JsonValue::Number(Some(11))),
        ("install_id", JsonValue::Number(Some(22))),
    ]);
    let settings = settings_with_key(JsonValue::Str("tok".to_string()));
    let c: Credentials = Credentials::create_fresh(identity, &reg, &settings).unwrap();
    assert_eq!(c.device_id, "11");
    assert_eq!(c.install_id, "22");
    assert_eq!(c.cdid, "c");
    assert_eq!(c.openudid, "o");
    assert_eq!(c.clientudid, "u");
    assert_eq!(c.token, "tok");

    let identity = DeviceIdentity {
        cdid: "c".to_string(),
        openudid: "o".to_string(),
        clientudid: "u".to_string(),
    };
    let no_token = settings_with_key(JsonValue::Str(String::new()));
    assert_eq!(
        Credentials::create_fresh(identity, &reg, &no_token).unwrap_err(),
        CredentialsError::EmptyToken
    );
}

#[test]
fn query_parameters() {
    let q = registration_query("cd-1", 1719000000000);
    assert_eq!(q.len(), 20);
    assert_eq!(q[3], ("_rticket".to_string(), "1719000000000".to_string()));
    assert_eq!(q[4], ("cdid".to_string(), "cd-1".to_string()));
    assert_eq!(q[19], ("ac".to_string(), "wifi".to_string()));
    let s = settings_query(5, "cd-1", "99");
    assert_eq!(s.len(), 11);
    assert_eq!(s[3], ("_rticket".to_string(), "5".to_string()));
    assert_eq!(s[10], ("device_id".to_string(), "99".to_string()));
}

#[test]
fn standalone_pair_takes_integer_id_and_string_token() {
    let reg = obj(vec![("device_id", JsonValue::Number(Some(1923476667833563)))]);
    let settings = settings_with_key(JsonValue::Str("RTIHIRzbwS".to_string()));
    assert_eq!(
        standalone_token_pair(&reg, &settings).unwrap(),
        ("1923476667833563".to_string(), "RTIHIRzbwS".to_string())
    );
    let empty = settings_with_key(JsonValue::Str(String::new()));
    assert_eq!(
        standalone_token_pair(&reg, &empty).unwrap(),
        ("1923476667833563".to_string(), String::new())
    );
}

#[test]
fn standalone_pair_errors() {
    let settings = settings_with_key(JsonValue::Str("t".to_string()));
    let text_id = obj(vec![("device_id", JsonValue::Str("7".to_string()))]);
    assert_eq!(standalone_token_pair(&text_id, &settings).unwrap_err(), CredentialsError::NoDeviceId);
    let big = obj(vec![("device_id", JsonValue::Number(None))]);
    assert_eq!(standalone_token_pair(&big, &settings).unwrap_err(), CredentialsError::NoDeviceId);
    assert_eq!(
        standalone_token_pair(&JsonValue::Null, &JsonValue::Null).unwrap_err(),
        CredentialsError::NoDeviceId
    );
    let reg = obj(vec![("device_id", JsonValue::Number(Some(5)))]);
    let not_string = settings_with_key(JsonValue::Number(Some(3)));
    assert_eq!(standalone_token_pair(&reg, &not_string).unwrap_err(), CredentialsError::NoToken);
    assert_eq!(standalone_token_pair(&reg, &JsonValue::Null).unwrap_err(), CredentialsError::NoToken);
    assert_eq!(CredentialsError::NoDeviceId.message(), "no device_id");
    assert_eq!(CredentialsError::NoToken.message(), "no token");
}

#[test]
fn registration_body_document() {
    let identity = DeviceIdentity {
        cdid: "cd".to_string(),
        openudid: "0123456789abcdef".to_string(),
        clientudid: "cu".to_string(),
    };
    let body = registration_body(&identity, 1719000000000);
    assert_eq!(body.get("magic_tag").and_then(|v| v.as_str()), Some("ss_app_log"));
    assert_eq!(body.get("_gen_time").and_then(|v| v.as_i64()), Some(1719000000000));
    let header = body.get("header").unwrap();
    let entries = match header {
        JsonValue::Object(e) => e,
        other => panic!("expected an object, got {:?}", other),
    };
    assert_eq!(entries.len(), 39);
    assert_eq!(header.get("aid").and_then(|v| v.as_i64()), Some(401734));
    assert_eq!(header.get("device_id").and_then(|v| v.as_i64()), Some(0));
    assert_eq!(header.get("version_code").and_then(|v| v.as_i64()), Some(100102018));
    assert_eq!(header.get("tz_offset").and_then(|v| v.as_i64()), Some(28800));
    assert_eq!(header.get("os_api").and_then(|v| v.as_str()), Some("34"));
    assert_eq!(header.get("openudid").and_then(|v| v.as_str()), Some("0123456789abcdef"));
    assert_eq!(header.get("clientudid").and_then(|v| v.as_str()), Some("cu"));
    assert_eq!(header.get("cdid").and_then(|v| v.as_str()), Some("cd"));
    assert_eq!(header.get("serial_number").and_then(|v| v.as_str()), Some(""));
    assert_eq!(entries[38].0, "serial_number");
}

fn saved(device_id: &str, token: &str) -> Credentials {
    Credentials {
        device_id: device_id.to_string(),
        install_id: "2".to_string(),
        cdid: "c".to_string(),
        openudid: "o".to_string(),
        clientudid: "u".to_string(),
        token: token.to_string(),
    }
}

#[test]
fn saved_credentials_are_reused_when_usable() {
    assert!(saved("11", "tok").is_usable());
    let r = Credentials::reusable(Some(saved("11", "tok"))).unwrap();
    assert_eq!((r.device_id.as_str(), r.token.as_str()), ("11", "tok"));
    assert!(!saved("", "tok").is_usable());
    assert!(Credentials::reusable(Some(saved("", "tok"))).is_none());
    assert!(Credentials::reusable(Some(saved("11", ""))).is_none());
    assert!(Credentials::reusable(None).is_none());
}
