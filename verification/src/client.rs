//! The recognition client of one device: where it connects, with which
//! headers, and the requests it sends with its credentials.

use vstd::prelude::*;
use crate::credentials::{Credentials, is_uuid_v4_text};
use crate::session::{AsrSession, SessionKind, session_start};
use crate::text::{owned, push_text};

verus! {

/// A recognition client holding a device's credentials.
pub struct AsrClient {
    credentials: Credentials,
}

/// The WebSocket address of the service for a device.
pub open spec fn websocket_url_for(device_id: Seq<char>) -> Seq<char> {
    "wss://frontier-audio-ime-ws.doubao.com/ocean/api/v1/ws?aid=401734&device_id="@ + device_id
}

/// The headers of the WebSocket handshake: the client's user agent, the
/// binary protocol version and the keep-alive flag.
pub open spec fn handshake_headers_spec() -> Seq<(Seq<char>, Seq<char>)> {
    seq![
        ("User-Agent"@, user_agent()),
        ("proto-version"@, "v2"@),
        ("x-custom-keepalive"@, "true"@),
    ]
}

/// The user agent the client presents to the service.
pub open spec fn user_agent() -> Seq<char> {
    "com.bytedance.android.doubaoime/100102018 (Linux; U; Android 16; en_US; Pixel 7 Pro; Build/BP2A.250605.031.A2; Cronet/TTNetVersion:94cf429a 2025-11-17 QuicVersion:1f89f732 2025-05-08)"@
}

/// The user agent text (see [`user_agent`]).
pub fn user_agent_text() -> (r: String)
    ensures
        r@ == user_agent(),
{
    owned(
        "com.bytedance.android.doubaoime/100102018 (Linux; U; Android 16; en_US; Pixel 7 Pro; Build/BP2A.250605.031.A2; Cronet/TTNetVersion:94cf429a 2025-11-17 QuicVersion:1f89f732 2025-05-08)",
    )
}

/// The WebSocket handshake headers (see [`handshake_headers_spec`]).
pub fn handshake_headers() -> (r: Vec<(String, String)>)
    ensures
        r@.len() == 3,
        forall|i: int|
            0 <= i < 3 ==> ((#[trigger] r@[i]).0@, r@[i].1@) == handshake_headers_spec()[i],
{
    let mut v: Vec<(String, String)> = Vec::new();
    v.push((owned("User-Agent"), user_agent_text()));
    v.push((owned("proto-version"), owned("v2")));
    v.push((owned("x-custom-keepalive"), owned("true")));
    v
}

impl AsrClient {
    /// A client for the device with these credentials.
    pub fn new(credentials: Credentials) -> (r: AsrClient)
        ensures
            r.credentials() == credentials,
    {
        AsrClient { credentials }
    }

    /// The client's credentials.
    pub closed spec fn credentials(&self) -> Credentials {
        self.credentials
    }

    /// The client's credentials.
    pub fn credentials_ref(&self) -> (r: &Credentials)
        ensures
            *r == self.credentials(),
    {
        &self.credentials
    }

    /// The WebSocket address for this client's device.
    pub fn websocket_url(&self) -> (r: String)
        ensures
            r@ == websocket_url_for(self.credentials().device_id@),
    {
        let mut r = owned("wss://frontier-audio-ime-ws.doubao.com/ocean/api/v1/ws?aid=401734&device_id=");
        push_text(&mut r, self.credentials.device_id.as_str());
        r
    }

    /// A fresh request identifier (a random UUID).
    pub fn new_request_id() -> (r: String)
        ensures
            is_uuid_v4_text(r@),
    {
        crate::credentials::random_uuid_text()
    }

    /// A session that transcribes `frames` (encoded audio frames, in order)
    /// under one fresh request identifier, with this client's token and
    /// device.
    pub fn file_session(&self, frames: Vec<Vec<u8>>) -> (r: AsrSession)
        ensures
            r.wf(),
            is_uuid_v4_text(r@.request_id),
            r@ == session_start(
                SessionKind::File { frame_count: frames@.len() as u64 },
                r@.request_id,
                self.credentials().token@,
                self.credentials().device_id@,
                frames@,
            ),
    {
        AsrSession::new_file(
            Self::new_request_id(),
            self.credentials.token.clone(),
            self.credentials.device_id.clone(),
            frames,
        )
    }

    /// A session that transcribes live audio under one fresh request
    /// identifier, with this client's token and device.
    pub fn stream_session(&self) -> (r: AsrSession)
        ensures
            r.wf(),
            is_uuid_v4_text(r@.request_id),
            r@ == session_start(
                SessionKind::Stream,
                r@.request_id,
                self.credentials().token@,
                self.credentials().device_id@,
                Seq::empty(),
            ),
    {
        AsrSession::new_stream(
            Self::new_request_id(),
            self.credentials.token.clone(),
            self.credentials.device_id.clone(),
        )
    }
}

} // verus!
