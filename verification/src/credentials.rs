//! Device credentials: the identifiers a new virtual device is registered
//! with, the requests that register it and fetch its recognition token, and
//! the reading of the service's answers.

use vstd::prelude::*;
use vstd::string::StringSliceAdditionalSpecFns;
use crate::json::{
    JsonValue, Scalar, json_get, json_i64, json_str, json_path, scalar_is, object_keys_are,
    member_value, flat_object_is, int_member, text_member, value_member,
};
use crate::text::{owned, decimal_string, decimal_text, hex_string, hex_bytes, hex_width, push_hex_width};

verus! {

/// The credentials of a registered device.
#[derive(Debug, Clone)]
pub struct Credentials {
    pub device_id: String,
    pub install_id: String,
    pub cdid: String,
    pub openudid: String,
    pub clientudid: String,
    pub token: String,
}

/// The identifiers a device generates for itself before registering.
#[derive(Debug)]
pub struct DeviceIdentity {
    pub cdid: String,
    pub openudid: String,
    pub clientudid: String,
}

/// Why credentials could not be made.
#[derive(Debug, Clone, Copy, PartialEq, Eq, Structural)]
pub enum CredentialsError {
    /// The settings answer carries no recognition token.
    EmptyToken,
    /// The registration answer carries no integer device identifier.
    NoDeviceId,
    /// The settings answer carries no string token.
    NoToken,
}

/// The message of an error.
pub open spec fn error_message(e: CredentialsError) -> Seq<char> {
    match e {
        CredentialsError::EmptyToken => "Token is empty - API response may have changed"@,
        CredentialsError::NoDeviceId => "no device_id"@,
        CredentialsError::NoToken => "no token"@,
    }
}

impl CredentialsError {
    /// The error's message.
    pub fn message(&self) -> (r: String)
        ensures
            r@ == error_message(*self),
    {
        match self {
            CredentialsError::EmptyToken => owned("Token is empty - API response may have changed"),
            CredentialsError::NoDeviceId => owned("no device_id"),
            CredentialsError::NoToken => owned("no token"),
        }
    }
}

/// A lower-case hexadecimal digit.
pub open spec fn is_lower_hex(c: char) -> bool {
    ('0' <= c && c <= '9') || ('a' <= c && c <= 'f')
}

/// The hyphenated lower-case text of a random (version 4, RFC 4122 variant)
/// UUID: `xxxxxxxx-xxxx-4xxx-Vxxx-xxxxxxxxxxxx` with `V` one of `8 9 a b`.
pub open spec fn is_uuid_v4_text(s: Seq<char>) -> bool {
    &&& s.len() == 36
    &&& forall|i: int|
        0 <= i < 36 ==> if i == 8 || i == 13 || i == 18 || i == 23 {
            #[trigger] s[i] == '-'
        } else {
            is_lower_hex(s[i])
        }
    &&& s[14] == '4'
    &&& (s[19] == '8' || s[19] == '9' || s[19] == 'a' || s[19] == 'b')
}

/// A fresh random UUID in hyphenated lower-case text.
///
/// Trusted: calls `uuid::Uuid::new_v4` and formats it with `to_string`. The
/// uuid source sets the version nibble to 4 and the variant bits to `10`,
/// and formats with `Display`, which writes the hyphenated lower-case form.
/// The other 122 bits come from the operating system's random source and
/// are not stated (uuid panics if that source fails).
#[verifier::external_body]
pub(crate) fn random_uuid_text() -> (r: String)
    ensures
        is_uuid_v4_text(r@),
{
    uuid::Uuid::new_v4().to_string()
}

/// A random 64-bit number.
///
/// Trusted: calls `rand::random::<u64>()`, a value of the thread-local
/// random generator; nothing is stated of it.
#[verifier::external_body]
fn random_u64() -> (r: u64) {
    rand::random::<u64>()
}

/// The MD5 digest of a byte string.
pub uninterp spec fn md5_digest(data: Seq<u8>) -> Seq<u8>;

/// The MD5 digest of `data`.
///
/// Trusted: calls `md5::compute`, whose result is the 16-byte digest of its
/// input; the digest is a function of the input bytes alone.
#[verifier::external_body]
fn md5_of(data: &[u8]) -> (r: [u8; 16])
    ensures
        r@ == md5_digest(data@),
{
    md5::compute(data).0
}

/// The body of the settings request.
pub open spec fn settings_body() -> Seq<char> {
    "body=null"@
}

/// The settings request's body text.
pub fn settings_request_body() -> (r: String)
    ensures
        r@ == settings_body(),
{
    owned("body=null")
}

/// The `x-ss-stub` header value for a request body: the body's MD5 digest
/// in upper-case hexadecimal.
pub fn x_ss_stub(body: &str) -> (r: String)
    ensures
        r@ == hex_bytes(md5_digest(body.spec_bytes()), true),
        r@.len() == 32,
{
    let digest = md5_of(body.as_bytes());
    proof {
        crate::text::lemma_hex_bytes_len(digest@, true);
    }
    hex_string(&digest, true)
}

/// The sixteen lower-case hexadecimal digits of `v`, zero padded (the
/// `{:016x}` form).
pub fn hex16(v: u64) -> (r: String)
    ensures
        r@ == hex_width(v as nat, 16, false),
{
    let mut r = String::new();
    push_hex_width(&mut r, v, 16, false);
    r
}

impl DeviceIdentity {
    /// New random identifiers: two random UUIDs and a random 64-bit number
    /// in sixteen hexadecimal digits.
    pub fn generate() -> (r: DeviceIdentity)
        ensures
            is_uuid_v4_text(r.cdid@),
            is_uuid_v4_text(r.clientudid@),
            exists|v: u64| r.openudid@ == hex_width(v as nat, 16, false),
    {
        let cdid = random_uuid_text();
        let v = random_u64();
        let openudid = hex16(v);
        let clientudid = random_uuid_text();
        DeviceIdentity { cdid, openudid, clientudid }
    }
}

/// A numeric member read as a decimal identifier: the member's value when it
/// is an integer, `0` otherwise.
pub open spec fn id_member(doc: JsonValue, key: Seq<char>) -> Seq<char> {
    let n = match json_get(doc, key) {
        Some(v) => match json_i64(v) {
            Some(x) => x as int,
            None => 0,
        },
        None => 0,
    };
    decimal_text(n)
}

/// The device header of a registration request: the client's fixed
/// description of itself (Android 16 on a Pixel 7 Pro, the input method's
/// version) with the device's own identifiers.
pub open spec fn registration_header(openudid: Seq<char>, clientudid: Seq<char>, cdid: Seq<char>) -> Seq<
    (Seq<char>, Scalar),
> {
    seq![
        ("device_id"@, Scalar::Int(0)),
        ("install_id"@, Scalar::Int(0)),
        ("aid"@, Scalar::Int(401734)),
        ("app_name"@, Scalar::Text("oime"@)),
        ("version_code"@, Scalar::Int(100102018)),
        ("version_name"@, Scalar::Text("1.1.2"@)),
        ("manifest_version_code"@, Scalar::Int(100102018)),
        ("update_version_code"@, Scalar::Int(100102018)),
        ("channel"@, Scalar::Text("official"@)),
        ("package"@, Scalar::Text("com.bytedance.android.doubaoime"@)),
        ("device_platform"@, Scalar::Text("android"@)),
        ("os"@, Scalar::Text("android"@)),
        ("os_api"@, Scalar::Text("34"@)),
        ("os_version"@, Scalar::Text("16"@)),
        ("device_type"@, Scalar::Text("Pixel 7 Pro"@)),
        ("device_brand"@, Scalar::Text("google"@)),
        ("device_model"@, Scalar::Text("Pixel 7 Pro"@)),
        ("resolution"@, Scalar::Text("1080*2400"@)),
        ("dpi"@, Scalar::Text("420"@)),
        ("language"@, Scalar::Text("zh"@)),
        ("timezone"@, Scalar::Int(8)),
        ("access"@, Scalar::Text("wifi"@)),
        ("rom"@, Scalar::Text("UP1A.231005.007"@)),
        ("rom_version"@, Scalar::Text("UP1A.231005.007"@)),
        ("openudid"@, Scalar::Text(openudid)),
        ("clientudid"@, Scalar::Text(clientudid)),
        ("cdid"@, Scalar::Text(cdid)),
        ("region"@, Scalar::Text("CN"@)),
        ("tz_name"@, Scalar::Text("Asia/Shanghai"@)),
        ("tz_offset"@, Scalar::Int(28800)),
        ("sim_region"@, Scalar::Text("cn"@)),
        ("carrier_region"@, Scalar::Text("cn"@)),
        ("cpu_abi"@, Scalar::Text("arm64-v8a"@)),
        ("build_serial"@, Scalar::Text("unknown"@)),
        ("not_request_sender"@, Scalar::Int(0)),
        ("sig_hash"@, Scalar::Text(""@)),
        ("google_aid"@, Scalar::Text(""@)),
        ("mc"@, Scalar::Text(""@)),
        ("serial_number"@, Scalar::Text(""@)),
    ]
}

/// The body of a registration request: the log tag, the device header and
/// the time the body was made (`gen_time_ms`, milliseconds since the Unix
/// epoch).
pub open spec fn is_registration_body(
    v: JsonValue,
    openudid: Seq<char>,
    clientudid: Seq<char>,
    cdid: Seq<char>,
    gen_time_ms: i64,
) -> bool {
    &&& object_keys_are(v, seq!["magic_tag"@, "header"@, "_gen_time"@])
    &&& scalar_is(member_value(v, 0), Scalar::Text("ss_app_log"@))
    &&& flat_object_is(member_value(v, 1), registration_header(openudid, clientudid, cdid))
    &&& scalar_is(member_value(v, 2), Scalar::Int(gen_time_ms))
}

/// The body of the request that registers a device with `identity`, made
/// at `gen_time_ms` (see [`is_registration_body`]).
pub fn registration_body(identity: &DeviceIdentity, gen_time_ms: i64) -> (r: JsonValue)
    ensures
        is_registration_body(
            r,
            identity.openudid@,
            identity.clientudid@,
            identity.cdid@,
            gen_time_ms,
        ),
{
    let header = JsonValue::Object(vec![
            int_member("device_id", 0),
            int_member("install_id", 0),
            int_member("aid", 401734),
            text_member("app_name", "oime"),
            int_member("version_code", 100102018),
            text_member("version_name", "1.1.2"),
            int_member("manifest_version_code", 100102018),
            int_member("update_version_code", 100102018),
            text_member("channel", "official"),
            text_member("package", "com.bytedance.android.doubaoime"),
            text_member("device_platform", "android"),
            text_member("os", "android"),
            text_member("os_api", "34"),
            text_member("os_version", "16"),
            text_member("device_type", "Pixel 7 Pro"),
            text_member("device_brand", "google"),
            text_member("device_model", "Pixel 7 Pro"),
            text_member("resolution", "1080*2400"),
            text_member("dpi", "420"),
            text_member("language", "zh"),
            int_member("timezone", 8),
            text_member("access", "wifi"),
            text_member("rom", "UP1A.231005.007"),
            text_member("rom_version", "UP1A.231005.007"),
            text_member("openudid", identity.openudid.as_str()),
            text_member("clientudid", identity.clientudid.as_str()),
            text_member("cdid", identity.cdid.as_str()),
            text_member("region", "CN"),
            text_member("tz_name", "Asia/Shanghai"),
            int_member("tz_offset", 28800),
            text_member("sim_region", "cn"),
            text_member("carrier_region", "cn"),
            text_member("cpu_abi", "arm64-v8a"),
            text_member("build_serial", "unknown"),
            int_member("not_request_sender", 0),
            text_member("sig_hash", ""),
            text_member("google_aid", ""),
            text_member("mc", ""),
            text_member("serial_number", ""),
    ]);
    let r = JsonValue::Object(
        vec![
            text_member("magic_tag", "ss_app_log"),
            value_member("header", header),
            int_member("_gen_time", gen_time_ms),
        ],
    );
    r
}

/// Member `data.settings.asr_config.app_key` of a settings answer, when it
/// is a string.
pub open spec fn settings_app_key(doc: JsonValue) -> Option<Seq<char>> {
    let v = json_path(
        json_path(json_path(json_get(doc, "data"@), "settings"@), "asr_config"@),
        "app_key"@,
    );
    match v {
        Some(x) => json_str(x),
        None => None,
    }
}

/// The recognition token of a settings answer: member
/// `data.settings.asr_config.app_key` when it is a string, empty otherwise.
pub open spec fn settings_token(doc: JsonValue) -> Seq<char> {
    match settings_app_key(doc) {
        Some(t) => t,
        None => Seq::empty(),
    }
}

/// What the standalone registration tools make of the two answers: the
/// device identifier (member `device_id` of the registration answer, an
/// integer, as decimal text) and the token (member
/// `data.settings.asr_config.app_key` of the settings answer, a string,
/// possibly empty); an error when either is missing or of another type,
/// the device identifier checked first.
pub open spec fn standalone_pair(registration: JsonValue, settings: JsonValue) -> Result<
    (Seq<char>, Seq<char>),
    CredentialsError,
> {
    let id = match json_get(registration, "device_id"@) {
        Some(v) => json_i64(v),
        None => None,
    };
    match id {
        None => Err(CredentialsError::NoDeviceId),
        Some(n) => match settings_app_key(settings) {
            None => Err(CredentialsError::NoToken),
            Some(t) => Ok((decimal_text(n as int), t)),
        },
    }
}

fn id_member_text(doc: &JsonValue, key: &str) -> (r: String)
    ensures
        r@ == id_member(*doc, key@),
{
    let n: i64 = match doc.get(key) {
        Some(v) => match v.as_i64() {
            Some(x) => x,
            None => 0,
        },
        None => 0,
    };
    decimal_string(n)
}

/// The device and install identifiers of a registration answer, as decimal
/// text (`0` for a missing or non-integer member).
pub fn registered_ids(doc: &JsonValue) -> (r: (String, String))
    ensures
        r.0@ == id_member(*doc, "device_id"@),
        r.1@ == id_member(*doc, "install_id"@),
{
    (id_member_text(doc, "device_id"), id_member_text(doc, "install_id"))
}

fn member_of<'a>(v: Option<&'a JsonValue>, key: &str) -> (r: Option<&'a JsonValue>)
    ensures
        match r {
            Some(x) => json_path(
                match v {
                    Some(y) => Some(*y),
                    None => None,
                },
                key@,
            ) == Some(*x),
            None => json_path(
                match v {
                    Some(y) => Some(*y),
                    None => None,
                },
                key@,
            ) is None,
        },
{
    match v {
        Some(x) => x.get(key),
        None => None,
    }
}

fn app_key_of(doc: &JsonValue) -> (r: Option<String>)
    ensures
        match r {
            Some(t) => settings_app_key(*doc) == Some(t@),
            None => settings_app_key(*doc) is None,
        },
{
    let v = member_of(member_of(member_of(doc.get("data"), "settings"), "asr_config"), "app_key");
    match v {
        Some(x) => match x.as_str() {
            Some(t) => Some(owned(t)),
            None => None,
        },
        None => None,
    }
}

/// The device identifier and token the standalone registration tools take
/// from a registration answer and a settings answer (see
/// [`standalone_pair`]).
pub fn standalone_token_pair(registration: &JsonValue, settings: &JsonValue) -> (r: Result<
    (String, String),
    CredentialsError,
>)
    ensures
        match r {
            Ok((d, t)) => standalone_pair(*registration, *settings) == Ok::<
                (Seq<char>, Seq<char>),
                CredentialsError,
            >((d@, t@)),
            Err(e) => standalone_pair(*registration, *settings) == Err::<
                (Seq<char>, Seq<char>),
                CredentialsError,
            >(e),
        },
{
    let id = match registration.get("device_id") {
        Some(v) => v.as_i64(),
        None => None,
    };
    match id {
        None => Err(CredentialsError::NoDeviceId),
        Some(n) => match app_key_of(settings) {
            None => Err(CredentialsError::NoToken),
            Some(t) => Ok((decimal_string(n), t)),
        },
    }
}

/// The recognition token of a settings answer (see [`settings_token`]),
/// or an error when it is empty.
pub fn token_from_settings(doc: &JsonValue) -> (r: Result<String, CredentialsError>)
    ensures
        match r {
            Ok(t) => t@ == settings_token(*doc) && t@.len() > 0,
            Err(e) => e == CredentialsError::EmptyToken && settings_token(*doc).len() == 0,
        },
{
    let t = match app_key_of(doc) {
        Some(t) => t,
        None => String::new(),
    };
    if t.as_str().is_empty() {
        Err(CredentialsError::EmptyToken)
    } else {
        Ok(t)
    }
}

/// A list of query parameters as text pairs.
pub open spec fn pairs_view(v: Seq<(String, String)>) -> Seq<(Seq<char>, Seq<char>)> {
    v.map_values(|p: (String, String)| (p.0@, p.1@))
}

/// The query parameters of the device-registration request.
pub open spec fn registration_params(cdid: Seq<char>, rticket: Seq<char>) -> Seq<
    (Seq<char>, Seq<char>),
> {
    seq![
        ("device_platform"@, "android"@),
        ("os"@, "android"@),
        ("ssmix"@, "a"@),
        ("_rticket"@, rticket),
        ("cdid"@, cdid),
        ("channel"@, "official"@),
        ("aid"@, "401734"@),
        ("app_name"@, "oime"@),
        ("version_code"@, "100102018"@),
        ("version_name"@, "1.1.2"@),
        ("manifest_version_code"@, "100102018"@),
        ("update_version_code"@, "100102018"@),
        ("resolution"@, "1080*2400"@),
        ("dpi"@, "420"@),
        ("device_type"@, "Pixel 7 Pro"@),
        ("device_brand"@, "google"@),
        ("language"@, "zh"@),
        ("os_api"@, "34"@),
        ("os_version"@, "16"@),
        ("ac"@, "wifi"@),
    ]
}

/// The query parameters of the settings (token) request.
pub open spec fn settings_params(rticket: Seq<char>, cdid: Seq<char>, device_id: Seq<char>) -> Seq<
    (Seq<char>, Seq<char>),
> {
    seq![
        ("device_platform"@, "android"@),
        ("os"@, "android"@),
        ("ssmix"@, "a"@),
        ("_rticket"@, rticket),
        ("cdid"@, cdid),
        ("channel"@, "official"@),
        ("aid"@, "401734"@),
        ("app_name"@, "oime"@),
        ("version_code"@, "100102018"@),
        ("version_name"@, "1.1.2"@),
        ("device_id"@, device_id),
    ]
}

/// Parameter `key` of `params` is present, and every parameter named `key`
/// has the value `value`.
pub open spec fn param_is(params: Seq<(Seq<char>, Seq<char>)>, key: Seq<char>, value: Seq<char>) -> bool {
    &&& exists|i: int| 0 <= i < params.len() && #[trigger] params[i] == (key, value)
    &&& forall|i: int| 0 <= i < params.len() && (#[trigger] params[i]).0 == key ==> params[i].1 == value
}

proof fn lemma_parameter_names_differ()
    ensures
        "cdid"@ != "device_platform"@, "cdid"@ != "os"@, "cdid"@ != "ssmix"@,
        "cdid"@ != "_rticket"@, "cdid"@ != "channel"@, "cdid"@ != "aid"@,
        "cdid"@ != "app_name"@, "cdid"@ != "version_code"@, "cdid"@ != "version_name"@,
        "cdid"@ != "device_id"@, "cdid"@ != "manifest_version_code"@,
        "cdid"@ != "update_version_code"@, "cdid"@ != "resolution"@, "cdid"@ != "dpi"@,
        "cdid"@ != "device_type"@, "cdid"@ != "device_brand"@, "cdid"@ != "language"@,
        "cdid"@ != "os_api"@, "cdid"@ != "os_version"@, "cdid"@ != "ac"@,
        "device_id"@ != "device_platform"@, "device_id"@ != "os"@, "device_id"@ != "ssmix"@,
        "device_id"@ != "_rticket"@, "device_id"@ != "channel"@, "device_id"@ != "aid"@,
        "device_id"@ != "app_name"@, "device_id"@ != "version_code"@,
        "device_id"@ != "version_name"@,
        "_rticket"@ != "device_platform"@, "_rticket"@ != "os"@, "_rticket"@ != "ssmix"@,
        "_rticket"@ != "channel"@, "_rticket"@ != "aid"@, "_rticket"@ != "app_name"@,
        "_rticket"@ != "version_code"@, "_rticket"@ != "version_name"@,
        "_rticket"@ != "manifest_version_code"@, "_rticket"@ != "update_version_code"@,
        "_rticket"@ != "resolution"@, "_rticket"@ != "dpi"@, "_rticket"@ != "device_type"@,
        "_rticket"@ != "device_brand"@, "_rticket"@ != "language"@, "_rticket"@ != "os_api"@,
        "_rticket"@ != "os_version"@, "_rticket"@ != "ac"@,
{
    reveal_strlit("cdid");
    reveal_strlit("device_id");
    reveal_strlit("_rticket");
    reveal_strlit("device_platform");
    reveal_strlit("os");
    reveal_strlit("ssmix");
    reveal_strlit("channel");
    reveal_strlit("aid");
    reveal_strlit("app_name");
    reveal_strlit("version_code");
    reveal_strlit("version_name");
    reveal_strlit("manifest_version_code");
    reveal_strlit("update_version_code");
    reveal_strlit("resolution");
    reveal_strlit("dpi");
    reveal_strlit("device_type");
    reveal_strlit("device_brand");
    reveal_strlit("language");
    reveal_strlit("os_api");
    reveal_strlit("os_version");
    reveal_strlit("ac");
    assert("cdid"@[0] != "channel"@[1]);
    assert("device_id"@.len() == 9);
    assert("_rticket"@.len() == 8);
    assert("_rticket"@[0] != "language"@[0]);
}

/// The settings (token) request names the device it is for: its `cdid`
/// parameter is the cdid it is given, its `device_id` parameter the device
/// identifier, and its `_rticket` parameter the request time, whatever the
/// three values are.
pub proof fn lemma_settings_query_names_its_device(
    rticket: Seq<char>,
    cdid: Seq<char>,
    device_id: Seq<char>,
)
    ensures
        param_is(settings_params(rticket, cdid, device_id), "cdid"@, cdid),
        param_is(settings_params(rticket, cdid, device_id), "device_id"@, device_id),
        param_is(settings_params(rticket, cdid, device_id), "_rticket"@, rticket),
{
    lemma_parameter_names_differ();
    let p = settings_params(rticket, cdid, device_id);
    assert(p[4] == ("cdid"@, cdid));
    assert(p[10] == ("device_id"@, device_id));
    assert(p[3] == ("_rticket"@, rticket));
}

/// The registration request names the device's own cdid and the request
/// time, whatever they are.
pub proof fn lemma_registration_query_names_its_device(cdid: Seq<char>, rticket: Seq<char>)
    ensures
        param_is(registration_params(cdid, rticket), "cdid"@, cdid),
        param_is(registration_params(cdid, rticket), "_rticket"@, rticket),
{
    lemma_parameter_names_differ();
    let p = registration_params(cdid, rticket);
    assert(p[4] == ("cdid"@, cdid));
    assert(p[3] == ("_rticket"@, rticket));
}

fn push_pair(v: &mut Vec<(String, String)>, key: &str, value: &str)
    ensures
        pairs_view(final(v)@) == pairs_view(old(v)@).push((key@, value@)),
{
    let ghost before = old(v)@;
    v.push((owned(key), owned(value)));
    assert(pairs_view(v@) =~= pairs_view(before).push((key@, value@)));
}

/// The query parameters of the device-registration request, with the
/// request time `rticket_ms` (milliseconds since the Unix epoch).
pub fn registration_query(cdid: &str, rticket_ms: i64) -> (r: Vec<(String, String)>)
    ensures
        pairs_view(r@) == registration_params(cdid@, decimal_text(rticket_ms as int)),
{
    let rticket = decimal_string(rticket_ms);
    let mut v: Vec<(String, String)> = Vec::new();
    push_pair(&mut v, "device_platform", "android");
    push_pair(&mut v, "os", "android");
    push_pair(&mut v, "ssmix", "a");
    push_pair(&mut v, "_rticket", rticket.as_str());
    push_pair(&mut v, "cdid", cdid);
    push_pair(&mut v, "channel", "official");
    push_pair(&mut v, "aid", "401734");
    push_pair(&mut v, "app_name", "oime");
    push_pair(&mut v, "version_code", "100102018");
    push_pair(&mut v, "version_name", "1.1.2");
    push_pair(&mut v, "manifest_version_code", "100102018");
    push_pair(&mut v, "update_version_code", "100102018");
    push_pair(&mut v, "resolution", "1080*2400");
    push_pair(&mut v, "dpi", "420");
    push_pair(&mut v, "device_type", "Pixel 7 Pro");
    push_pair(&mut v, "device_brand", "google");
    push_pair(&mut v, "language", "zh");
    push_pair(&mut v, "os_api", "34");
    push_pair(&mut v, "os_version", "16");
    push_pair(&mut v, "ac", "wifi");
    assert(pairs_view(v@) =~= registration_params(cdid@, rticket@));
    v
}

/// The query parameters of the settings request that fetches the token.
pub fn settings_query(rticket_ms: i64, cdid: &str, device_id: &str) -> (r: Vec<(String, String)>)
    ensures
        pairs_view(r@) == settings_params(decimal_text(rticket_ms as int), cdid@, device_id@),
{
    let rticket = decimal_string(rticket_ms);
    let mut v: Vec<(String, String)> = Vec::new();
    push_pair(&mut v, "device_platform", "android");
    push_pair(&mut v, "os", "android");
    push_pair(&mut v, "ssmix", "a");
    push_pair(&mut v, "_rticket", rticket.as_str());
    push_pair(&mut v, "cdid", cdid);
    push_pair(&mut v, "channel", "official");
    push_pair(&mut v, "aid", "401734");
    push_pair(&mut v, "app_name", "oime");
    push_pair(&mut v, "version_code", "100102018");
    push_pair(&mut v, "version_name", "1.1.2");
    push_pair(&mut v, "device_id", device_id);
    assert(pairs_view(v@) =~= settings_params(rticket@, cdid@, device_id@));
    v
}

/// Saved credentials can be used again: they name a device and carry a
/// recognition token.
pub open spec fn credentials_usable(c: Credentials) -> bool {
    c.device_id@.len() > 0 && c.token@.len() > 0
}

impl Credentials {
    /// Whether these credentials can be used again (see
    /// [`credentials_usable`]).
    pub fn is_usable(&self) -> (r: bool)
        ensures
            r == credentials_usable(*self),
    {
        !self.device_id.as_str().is_empty() && !self.token.as_str().is_empty()
    }

    /// The saved credentials to reuse at start: `saved` when there are some
    /// and they are usable; `None` when a new device must be registered.
    pub fn reusable(saved: Option<Credentials>) -> (r: Option<Credentials>)
        ensures
            match saved {
                Some(c) => if credentials_usable(c) {
                    r == Some(c)
                } else {
                    r is None
                },
                None => r is None,
            },
    {
        match saved {
            Some(c) => if c.is_usable() {
                Some(c)
            } else {
                None
            },
            None => None,
        }
    }

    /// The credentials of a device registered with `identity`: identifiers
    /// from the registration answer, token from the settings answer; an error
    /// when the settings answer carries no token.
    pub fn create_fresh(identity: DeviceIdentity, registration: &JsonValue, settings: &JsonValue)
        -> (r: Result<Credentials, CredentialsError>)
        ensures
            match r {
                Ok(c) => {
                    &&& c.device_id@ == id_member(*registration, "device_id"@)
                    &&& c.install_id@ == id_member(*registration, "install_id"@)
                    &&& c.cdid@ == identity.cdid@
                    &&& c.openudid@ == identity.openudid@
                    &&& c.clientudid@ == identity.clientudid@
                    &&& c.token@ == settings_token(*settings)
                    &&& c.token@.len() > 0
                },
                Err(e) => e == CredentialsError::EmptyToken && settings_token(*settings).len()
                    == 0,
            },
    {
        let (device_id, install_id) = registered_ids(registration);
        match token_from_settings(settings) {
            Ok(token) => Ok(
                Credentials {
                    device_id,
                    install_id,
                    cdid: identity.cdid,
                    openudid: identity.openudid,
                    clientudid: identity.clientudid,
                    token,
                },
            ),
            Err(e) => Err(e),
        }
    }
}

} // verus!
