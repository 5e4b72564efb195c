//! Signatures for channel authorisation and for signed REST requests.
use vstd::prelude::*;
use vstd::utf8::encode_utf8;

use crate::crypto::{
    base64_encode, base64_encode_of, hex_encode, hex_lower, hmac_sha256, hmac_sha256_of,
    is_lower_hex_digit, lemma_hex_lower_shape, md5_hex,
    md5_of, sha256, sha256_of,
};
use crate::error::{PusherError, PusherResult};
use crate::json::{json_string, json_string_literal};
use crate::text::{concat_bytes, decimal, u64_to_decimal};

verus! {

/// The lower-case hex HMAC-SHA256 of the UTF-8 bytes of `msg` under the
/// UTF-8 bytes of `secret`.
pub open spec fn signature(secret: Seq<char>, msg: Seq<char>) -> Seq<char> {
    hex_lower(hmac_sha256_of(encode_utf8(secret), encode_utf8(msg)))
}

/// The signature of `msg` under `secret` is 64 lower-case hex digits.
pub open spec fn signature_shaped(secret: Seq<char>, msg: Seq<char>) -> bool {
    &&& signature(secret, msg).len() == 64
    &&& forall|i: int| 0 <= i < 64 ==> is_lower_hex_digit(#[trigger] signature(secret, msg)[i])
}

/// The authorisation string of a private channel subscription:
/// `{key}:{signature of "{socket_id}:{channel}"}`.
pub open spec fn socket_auth(key: Seq<char>, secret: Seq<char>, socket_id: Seq<char>, channel: Seq<
    char,
>) -> Seq<char> {
    key + ":"@ + signature(secret, socket_id + ":"@ + channel)
}

/// The authorisation string of a presence subscription with channel data
/// `data`: `{key}:{signature of "{socket_id}:{channel}:{data}"}:{data}`.
pub open spec fn presence_auth(
    key: Seq<char>,
    secret: Seq<char>,
    socket_id: Seq<char>,
    channel: Seq<char>,
    data: Seq<char>,
) -> Seq<char> {
    key + ":"@ + signature(secret, socket_id + ":"@ + channel + ":"@ + data) + ":"@ + data
}

/// The authorisation string of a private encrypted subscription:
/// `{key}:{signature of "{socket_id}:{channel}"}:{base64 of the shared secret}`.
pub open spec fn encrypted_auth(
    key: Seq<char>,
    secret: Seq<char>,
    socket_id: Seq<char>,
    channel: Seq<char>,
) -> Seq<char> {
    key + ":"@ + signature(secret, socket_id + ":"@ + channel) + ":"@ + base64_encode_of(
        encrypted_channel_secret(secret, channel),
    )
}

/// The JSON channel data of a presence subscription, as serde_json writes
/// `{"user_id": user_id}` with `"user_info"` added when given: keys in
/// sorted order, no spaces.
pub open spec fn presence_channel_data(user_id: Seq<char>, user_info: Option<Seq<char>>) -> Seq<
    char,
> {
    "{\"user_id\":"@ + json_string(user_id) + match user_info {
        Some(info) => ",\"user_info\":"@ + info,
        None => Seq::empty(),
    } + "}"@
}

/// The shared secret of an encrypted channel as this signer derives it:
/// SHA-256 over the secret's bytes followed by the channel name's bytes.
pub open spec fn encrypted_channel_secret(secret: Seq<char>, channel: Seq<char>) -> Seq<u8> {
    sha256_of(encode_utf8(secret) + encode_utf8(channel))
}

/// The text that a signed REST request signs: method, path and the sorted
/// query string, one per line. The parameters are `auth_key`,
/// `auth_timestamp`, `auth_version` and `body_md5`; sorting their `key=value`
/// pairs puts them in this order whatever the values.
pub open spec fn request_signing_text(
    method: Seq<char>,
    path: Seq<char>,
    key: Seq<char>,
    timestamp: Seq<char>,
    body_md5: Seq<char>,
) -> Seq<char> {
    method + "\n"@ + path + "\n"@ + "auth_key="@ + key + "&auth_timestamp="@ + timestamp
        + "&auth_version=1.0&body_md5="@ + body_md5
}

/// The query parameters of a signed REST request, in key order.
pub open spec fn request_params(
    key: Seq<char>,
    secret: Seq<char>,
    method: Seq<char>,
    path: Seq<char>,
    body: Seq<char>,
    timestamp: u64,
) -> Seq<(Seq<char>, Seq<char>)> {
    let ts = decimal(timestamp as nat);
    let body_md5 = hex_lower(md5_of(encode_utf8(body)));
    seq![
        ("auth_key"@, key),
        ("auth_signature"@, signature(secret, request_signing_text(method, path, key, ts, body_md5))),
        ("auth_timestamp"@, ts),
        ("auth_version"@, "1.0"@),
        ("body_md5"@, body_md5),
    ]
}

/// The characters of each part of a list of text pairs.
pub open spec fn pairs_view(v: Seq<(String, String)>) -> Seq<(Seq<char>, Seq<char>)> {
    v.map_values(|p: (String, String)| (p.0@, p.1@))
}

/// The current Unix time in whole seconds (`SystemTime::now().duration_since(UNIX_EPOCH)`);
/// an error, converted to its display text, when the clock reads before 1970.
/// Nothing is known of the value: it depends on the clock.
#[verifier::external_body]
pub(crate) fn unix_time_secs() -> (r: Result<u64, String>) {
    match std::time::SystemTime::now().duration_since(std::time::UNIX_EPOCH) {
        Ok(d) => Ok(d.as_secs()),
        Err(e) => Err(e.to_string()),
    }
}

/// Signs channel subscriptions and REST requests with an app key and secret.
pub struct PusherAuth {
    key: String,
    secret: String,
}

impl PusherAuth {
    /// The app key.
    pub closed spec fn key_view(&self) -> Seq<char> {
        self.key@
    }

    /// The app secret.
    pub closed spec fn secret_view(&self) -> Seq<char> {
        self.secret@
    }

    /// A signer for the given key and secret.
    pub fn new(key: &str, secret: &str) -> (a: Self)
        ensures
            a.key_view() == key@,
            a.secret_view() == secret@,
    {
        PusherAuth { key: String::from_str(key), secret: String::from_str(secret) }
    }

    /// Hex HMAC-SHA256 of `to_sign` under the secret: 64 lower-case hex
    /// digits, for a secret of any length.
    fn sign(&self, to_sign: &str) -> (r: PusherResult<String>)
        ensures
            r is Ok,
            r->Ok_0@ == signature(self.secret_view(), to_sign@),
            signature_shaped(self.secret_view(), to_sign@),
    {
        match hmac_sha256(self.secret.as_str().as_bytes(), to_sign.as_bytes()) {
            Some(mac) => {
                proof {
                    lemma_hex_lower_shape(mac@);
                }
                Ok(hex_encode(mac.as_slice()))
            },
            None => Err(PusherError::AuthError(String::from_str("invalid HMAC key length"))),
        }
    }

    /// `{key}:{signature of "{socket_id}:{channel_name}"}`.
    pub fn authenticate_socket(&self, socket_id: &str, channel_name: &str) -> (r: PusherResult<
        String,
    >)
        ensures
            r is Ok,
            r->Ok_0@ == socket_auth(self.key_view(), self.secret_view(), socket_id@, channel_name@),
            signature_shaped(self.secret_view(), socket_id@ + ":"@ + channel_name@),
    {
        let to_sign = String::from_str(socket_id).concat(":").concat(channel_name);
        let sig = self.sign(to_sign.as_str())?;
        Ok(self.key.clone().concat(":").concat(sig.as_str()))
    }

    /// Authorises a presence subscription: `{key}:{signature}:{channel data}`,
    /// where the channel data is the JSON of the user id and, when given,
    /// the user info (its JSON text), and the signature covers
    /// `"{socket_id}:{channel_name}:{channel data}"`.
    pub fn authenticate_presence_channel(
        &self,
        socket_id: &str,
        channel_name: &str,
        user_id: &str,
        user_info: Option<&str>,
    ) -> (r: PusherResult<String>)
        ensures
            r is Ok,
            ({
                let data = presence_channel_data(
                    user_id@,
                    match user_info {
                        Some(i) => Some(i@),
                        None => None,
                    },
                );
                r->Ok_0@ == presence_auth(
                    self.key_view(),
                    self.secret_view(),
                    socket_id@,
                    channel_name@,
                    data,
                ) && signature_shaped(
                    self.secret_view(),
                    socket_id@ + ":"@ + channel_name@ + ":"@ + data,
                )
            }),
    {
        let data = presence_data_text(user_id, user_info);
        let to_sign = String::from_str(socket_id).concat(":").concat(channel_name).concat(
            ":",
        ).concat(data.as_str());
        let sig = self.sign(to_sign.as_str())?;
        Ok(self.key.clone().concat(":").concat(sig.as_str()).concat(":").concat(data.as_str()))
    }

    /// The SHA-256 of the secret followed by the channel name.
    fn generate_shared_secret(&self, channel_name: &str) -> (r: Vec<u8>)
        ensures
            r@ == encrypted_channel_secret(self.secret_view(), channel_name@),
            r@.len() == 32,
    {
        let input = concat_bytes(self.secret.as_str().as_bytes(), channel_name.as_bytes());
        sha256(input.as_slice())
    }

    /// Authorises a private encrypted subscription:
    /// `{key}:{signature of "{socket_id}:{channel_name}"}:{base64 shared secret}`.
    pub fn authenticate_private_encrypted_channel(
        &self,
        socket_id: &str,
        channel_name: &str,
    ) -> (r: PusherResult<String>)
        ensures
            r is Ok,
            r->Ok_0@ == encrypted_auth(
                self.key_view(),
                self.secret_view(),
                socket_id@,
                channel_name@,
            ),
    {
        let shared_secret = self.generate_shared_secret(channel_name);
        let to_sign = String::from_str(socket_id).concat(":").concat(channel_name);
        let sig = self.sign(to_sign.as_str())?;
        let encoded = base64_encode(shared_secret.as_slice());
        Ok(self.key.clone().concat(":").concat(sig.as_str()).concat(":").concat(encoded.as_str()))
    }

    /// The query parameters that sign a REST request made at `timestamp`
    /// (Unix seconds), in key order: `auth_key`, `auth_signature`,
    /// `auth_timestamp`, `auth_version`, `body_md5`. `body` is the JSON text
    /// of the request body.
    pub fn authenticate_request_at(
        &self,
        method: &str,
        path: &str,
        body: &str,
        timestamp: u64,
    ) -> (r: Vec<(String, String)>)
        ensures
            pairs_view(r@) == request_params(
                self.key_view(),
                self.secret_view(),
                method@,
                path@,
                body@,
                timestamp,
            ),
    {
        proof {
            reveal_strlit("auth_key");
            reveal_strlit("auth_signature");
            reveal_strlit("auth_timestamp");
            reveal_strlit("auth_version");
            reveal_strlit("body_md5");
            reveal_strlit("1.0");
            reveal_strlit("\n");
            reveal_strlit("auth_key=");
            reveal_strlit("&auth_timestamp=");
            reveal_strlit("&auth_version=1.0&body_md5=");
        }
        let ts = u64_to_decimal(timestamp);
        let body_md5 = md5_hex(body.as_bytes());
        let to_sign = String::from_str(method).concat("\n").concat(path).concat("\n").concat(
            "auth_key=",
        ).concat(self.key.as_str()).concat("&auth_timestamp=").concat(ts.as_str()).concat(
            "&auth_version=1.0&body_md5=",
        ).concat(body_md5.as_str());
        let sig = self.sign(to_sign.as_str()).unwrap();
        let mut params: Vec<(String, String)> = Vec::new();
        params.push((String::from_str("auth_key"), self.key.clone()));
        params.push((String::from_str("auth_signature"), sig));
        params.push((String::from_str("auth_timestamp"), ts));
        params.push((String::from_str("auth_version"), String::from_str("1.0")));
        params.push((String::from_str("body_md5"), body_md5));
        assert(pairs_view(params@) =~= request_params(
            self.key_view(),
            self.secret_view(),
            method@,
            path@,
            body@,
            timestamp,
        ));
        params
    }

    /// The query parameters that sign a REST request made now; the clock is
    /// read once, and a clock before 1970 is an `AuthError`.
    pub fn authenticate_request(&self, method: &str, path: &str, body: &str) -> (r: PusherResult<
        Vec<(String, String)>,
    >)
        ensures
            r matches Ok(p) ==> exists|t: u64|
                pairs_view(p@) == request_params(
                    self.key_view(),
                    self.secret_view(),
                    method@,
                    path@,
                    body@,
                    t,
                ),
            r matches Err(e) ==> e is AuthError,
    {
        match unix_time_secs() {
            Ok(t) => Ok(self.authenticate_request_at(method, path, body, t)),
            Err(m) => Err(PusherError::AuthError(m)),
        }
    }
}

/// The JSON channel data of a presence subscription.
pub fn presence_data_text(user_id: &str, user_info: Option<&str>) -> (r: String)
    ensures
        r@ == presence_channel_data(
            user_id@,
            match user_info {
                Some(i) => Some(i@),
                None => None,
            },
        ),
{
    proof {
        reveal_strlit("{\"user_id\":");
        reveal_strlit(",\"user_info\":");
        reveal_strlit("}");
    }
    let mut s = String::from_str("{\"user_id\":").concat(json_string_literal(user_id).as_str());
    match user_info {
        Some(info) => {
            s = s.concat(",\"user_info\":").concat(info);
        },
        None => {},
    }
    s.concat("}")
}

} // verus!
