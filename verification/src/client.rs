//! The client's own state and decisions: subscriptions, encrypted channel
//! secrets, the socket id, event handlers, and the requests it sends.
//! Transport (websocket, HTTP) and scheduling stay with the caller, which
//! performs what these functions return.
use vstd::prelude::*;
use vstd::utf8::encode_utf8;

use crate::auth::{pairs_view, request_params, unix_time_secs, PusherAuth};
use crate::channels::{is_fresh_channel, Channel};
use crate::config::{default_host, default_host_for, duration_millis, opt_view, PusherConfig};
use crate::crypto::{hmac_sha256, hmac_sha256_of};
use crate::encryption::{decrypt_data, encrypt_data, encrypted_text};
use crate::error::{PusherError, PusherResult};
use crate::events::{connection_established_name, Event, SystemEvent, SystemEventData};
use crate::json::{
    batch_body, event_object, event_object_text, event_objects, json_members_of, json_parse_outcome,
    serde_json_members,
    subscribe_message, subscribe_message_text, subscribe_with_auth_message,
    subscribe_with_auth_message_text, unsubscribe_message, unsubscribe_message_text,
};
use crate::text::{has_prefix, starts_with, text_eq};
use crate::text_map::TextMap;
use crate::websocket::Reconnector;

verus! {

/// The state of the connection to Pusher.
#[derive(Debug, Clone, Copy, PartialEq, Eq, Structural)]
pub enum ConnectionState {
    Disconnected,
    Connecting,
    Connected,
    Reconnecting,
    Failed,
}

/// One event of a batch.
#[derive(Debug, Clone)]
pub struct BatchEvent {
    pub channel: String,
    pub event: String,
    pub data: String,
}

/// A REST request to send: its URL, its JSON body, and its query parameters
/// in order.
#[derive(Debug, Clone)]
pub struct ApiRequest {
    pub url: String,
    pub body: String,
    pub query: Vec<(String, String)>,
}

/// `https://api-{cluster}.pusher.com{path}`.
pub open spec fn api_url(cluster: Seq<char>, path: Seq<char>) -> Seq<char> {
    "https://api-"@ + cluster + ".pusher.com"@ + path
}

/// `/apps/{app_id}/events`.
pub open spec fn events_path(app_id: Seq<char>) -> Seq<char> {
    "/apps/"@ + app_id + "/events"@
}

/// `/apps/{app_id}/batch_events`.
pub open spec fn batch_events_path(app_id: Seq<char>) -> Seq<char> {
    "/apps/"@ + app_id + "/batch_events"@
}

/// `/apps/{app_id}/channels/{channel}`.
pub open spec fn channel_path(app_id: Seq<char>, channel: Seq<char>) -> Seq<char> {
    "/apps/"@ + app_id + "/channels/"@ + channel
}

/// The websocket URL before parsing: `{scheme}://{host}/app/{key}?protocol=7`,
/// with scheme `wss` under TLS and `ws` otherwise, and the configured host or
/// else `ws-{cluster}.pusher.com`.
pub open spec fn websocket_url_text(config: crate::config::ConfigView) -> Seq<char> {
    (if config.use_tls {
        "wss"@
    } else {
        "ws"@
    }) + "://"@ + match config.host {
        Some(h) => h,
        None => default_host(config.cluster),
    } + "/app/"@ + config.app_key + "?protocol=7"@
}

/// What `url::Url::parse` followed by `to_string` makes of `s`, or the
/// display text of the parse error.
pub uninterp spec fn url_parse_outcome(s: Seq<char>) -> Result<Seq<char>, Seq<char>>;

/// `url::Url::parse`, giving the parsed URL's serialisation or the error's
/// display text; a function of `s`.
#[verifier::external_body]
fn parse_url(s: &str) -> (r: Result<String, String>)
    ensures
        r is Ok <==> url_parse_outcome(s@) is Ok,
        r is Ok ==> r->Ok_0@ == url_parse_outcome(s@)->Ok_0,
        r is Err ==> r->Err_0@ == url_parse_outcome(s@)->Err_0,
{
    match url::Url::parse(s) {
        Ok(u) => Ok(u.to_string()),
        Err(e) => Err(e.to_string()),
    }
}

/// The key of an encrypted channel as the client derives it: HMAC-SHA256 of
/// the channel name under the app secret.
pub open spec fn channel_shared_secret(app_secret: Seq<char>, channel: Seq<char>) -> Seq<u8> {
    hmac_sha256_of(encode_utf8(app_secret), encode_utf8(channel))
}

/// The outcome of a REST call from its status (success or not, and its
/// display text) and its response body: `Ok` on success, else an `ApiError`
/// reading `{context}: {status} - {body}`.
fn api_outcome(success: bool, context: &str, status: &str, body: &str) -> (r: PusherResult<()>)
    ensures
        success ==> r is Ok,
        !success ==> r is Err && r->Err_0 is ApiError && r->Err_0.detail() == context@ + ": "@
            + status@ + " - "@ + body@,
{
    if success {
        Ok(())
    } else {
        Err(
            PusherError::ApiError(
                String::from_str(context).concat(": ").concat(status).concat(" - ").concat(body),
            ),
        )
    }
}

/// The outcome of publishing an event, from the reply's status and body.
pub fn trigger_outcome(success: bool, status: &str, body: &str) -> (r: PusherResult<()>)
    ensures
        success ==> r is Ok,
        !success ==> r is Err && r->Err_0 is ApiError && r->Err_0.detail()
            == "Failed to trigger event: "@ + status@ + " - "@ + body@,
{
    proof {
        reveal_strlit("Failed to trigger event");
        reveal_strlit("Failed to trigger event: ");
        reveal_strlit(": ");
        assert("Failed to trigger event"@ + ": "@ =~= "Failed to trigger event: "@);
    }
    api_outcome(success, "Failed to trigger event", status, body)
}

/// The outcome of publishing a batch, from the reply's status and body.
pub fn batch_outcome(success: bool, status: &str, body: &str) -> (r: PusherResult<()>)
    ensures
        success ==> r is Ok,
        !success ==> r is Err && r->Err_0 is ApiError && r->Err_0.detail()
            == "Failed to trigger batch events: "@ + status@ + " - "@ + body@,
{
    proof {
        reveal_strlit("Failed to trigger batch events");
        reveal_strlit("Failed to trigger batch events: ");
        reveal_strlit(": ");
        assert("Failed to trigger batch events"@ + ": "@ =~= "Failed to trigger batch events: "@);
    }
    api_outcome(success, "Failed to trigger batch events", status, body)
}

/// Channel occupancy from the `occupied` and `subscription_count` members of
/// a channel-info reply: `occupied` as 1 or 0 when present, else
/// `subscription_count` cut to 32 bits, else 0.
pub open spec fn occupancy_value(occupied: Option<bool>, subscription_count: Option<u64>) -> u32 {
    match occupied {
        Some(b) => if b {
            1u32
        } else {
            0u32
        },
        None => match subscription_count {
            Some(c) => c as u32,
            None => 0u32,
        },
    }
}

/// Channel occupancy from a channel-info response's members.
pub fn occupancy_from(occupied: Option<bool>, subscription_count: Option<u64>) -> (n: u32)
    ensures
        n == occupancy_value(occupied, subscription_count),
{
    match occupied {
        Some(b) => if b {
            1
        } else {
            0
        },
        None => match subscription_count {
            Some(c) => c as u32,
            None => 0,
        },
    }
}

/// The occupancy that a channel-info reply reports: a failure status is an
/// `ApiError` reading `Failed to get channel occupancy: {status} - {body}`;
/// a successful reply whose body is not JSON is an `HttpError` reading
/// `error decoding response body: {parser message}`; otherwise the
/// occupancy read from the body's `occupied` and `subscription_count`.
pub fn occupancy_from_reply(success: bool, status: &str, body: &str) -> (r: PusherResult<u32>)
    ensures
        !success ==> r is Err && r->Err_0 is ApiError && r->Err_0.detail()
            == "Failed to get channel occupancy: "@ + status@ + " - "@ + body@,
        success && json_parse_outcome(body@) is Err ==> r is Err && r->Err_0 is HttpError
            && r->Err_0.detail() == "error decoding response body: "@ + json_parse_outcome(
            body@,
        )->Err_0,
        success && json_parse_outcome(body@) is Ok ==> r is Ok && r->Ok_0 == ({
            let m = json_members_of(body@, "occupied"@, "subscription_count"@);
            occupancy_value(m.0, m.1)
        }),
{
    proof {
        reveal_strlit("Failed to get channel occupancy");
        reveal_strlit("Failed to get channel occupancy: ");
        reveal_strlit(": ");
        assert("Failed to get channel occupancy"@ + ": "@ =~= "Failed to get channel occupancy: "@);
    }
    if !success {
        return match api_outcome(false, "Failed to get channel occupancy", status, body) {
            Ok(()) => Ok(0),
            Err(e) => Err(e),
        };
    }
    match serde_json_members(body, "occupied", "subscription_count") {
        Ok((occupied, count)) => Ok(occupancy_from(occupied, count)),
        Err(m) => Err(
            PusherError::HttpError(String::from_str("error decoding response body: ").concat(m.as_str())),
        ),
    }
}

/// The events of a batch as (channel, event, data) text triples.
pub open spec fn batch_view(events: Seq<BatchEvent>) -> Seq<(Seq<char>, Seq<char>, Seq<char>)> {
    events.map_values(|e: BatchEvent| (e.channel@, e.event@, e.data@))
}

/// The JSON body of a batch.
pub fn batch_body_text(events: &Vec<BatchEvent>) -> (r: String)
    ensures
        r@ == batch_body(batch_view(events@)),
{
    let mut items = String::new();
    let n = events.len();
    let mut i: usize = 0;
    while i < n
        invariant
            n == events@.len(),
            i <= n,
            items@ == event_objects(batch_view(events@).subrange(0, i as int)),
        decreases n - i,
    {
        let e = &events[i];
        let obj = event_object_text(e.channel.as_str(), e.event.as_str(), e.data.as_str());
        let ghost prev = batch_view(events@).subrange(0, i as int);
        let ghost next = batch_view(events@).subrange(0, i + 1);
        proof {
            assert(next.drop_last() =~= prev);
            assert(next.last() == (e.channel@, e.event@, e.data@));
        }
        if i == 0 {
            items = obj;
        } else {
            items = items.concat(",").concat(obj.as_str());
        }
        i = i + 1;
    }
    assert(batch_view(events@).subrange(0, n as int) =~= batch_view(events@));
    String::from_str("{\"batch\":[").concat(items.as_str()).concat("]}")
}

/// `req` publishes `event` with `data` on `channel` for configuration `c`,
/// signed at `timestamp`.
pub open spec fn is_trigger_request(
    c: crate::config::ConfigView,
    channel: Seq<char>,
    event: Seq<char>,
    data: Seq<char>,
    timestamp: u64,
    req: ApiRequest,
) -> bool {
    let path = events_path(c.app_id);
    let body = event_object(channel, event, data);
    &&& req.url@ == api_url(c.cluster, path)
    &&& req.body@ == body
    &&& pairs_view(req.query@) == request_params(
        c.app_key,
        c.app_secret,
        "POST"@,
        path,
        body,
        timestamp,
    )
}

/// `req` publishes the batch `events` for configuration `c`, signed at `timestamp`.
pub open spec fn is_batch_request(
    c: crate::config::ConfigView,
    events: Seq<BatchEvent>,
    timestamp: u64,
    req: ApiRequest,
) -> bool {
    let path = batch_events_path(c.app_id);
    let body = batch_body(batch_view(events));
    &&& req.url@ == api_url(c.cluster, path)
    &&& req.body@ == body
    &&& pairs_view(req.query@) == request_params(
        c.app_key,
        c.app_secret,
        "POST"@,
        path,
        body,
        timestamp,
    )
}

/// `req` asks for the occupancy of `channel` for configuration `c`, signed at
/// `timestamp` over an empty JSON object, with `info=subscription_count` added
/// after the signature.
pub open spec fn is_occupancy_request(
    c: crate::config::ConfigView,
    channel: Seq<char>,
    timestamp: u64,
    req: ApiRequest,
) -> bool {
    let path = channel_path(c.app_id, channel);
    &&& req.url@ == api_url(c.cluster, path)
    &&& req.body@ == "{}"@
    &&& pairs_view(req.query@) == request_params(
        c.app_key,
        c.app_secret,
        "GET"@,
        path,
        "{}"@,
        timestamp,
    ).push(("info"@, "subscription_count"@))
}

/// The handler lists after handler `id` is bound to `name`: `id` is
/// appended to the list of `name`, which starts empty.
pub open spec fn handlers_after_bind(
    handlers: Map<Seq<char>, Seq<usize>>,
    name: Seq<char>,
    id: usize,
) -> Map<Seq<char>, Seq<usize>> {
    handlers.insert(name, handlers_for(handlers, name).push(id))
}

/// The handlers that an event named `name` reaches, in binding order.
pub open spec fn handlers_for(handlers: Map<Seq<char>, Seq<usize>>, name: Seq<char>) -> Seq<usize> {
    if handlers.contains_key(name) {
        handlers[name]
    } else {
        Seq::empty()
    }
}

/// A client's state: its configuration and signer, the channels it tracks,
/// the keys of its encrypted channels, its socket id, the handlers bound to
/// each event name, the connection state, and whether a websocket link is
/// open to carry messages.
pub struct PusherClient {
    config: PusherConfig,
    auth: PusherAuth,
    channels: TextMap<Channel>,
    encrypted_channels: TextMap<Vec<u8>>,
    socket_id: Option<String>,
    handlers: TextMap<Vec<usize>>,
    handler_count: usize,
    state: ConnectionState,
    link_open: bool,
}

impl PusherClient {
    /// The configuration.
    pub closed spec fn config_view(&self) -> crate::config::ConfigView {
        self.config@
    }

    /// The tracked channels, by name.
    pub closed spec fn channels_view(&self) -> Map<Seq<char>, Channel> {
        self.channels@
    }

    /// The keys of the encrypted channels, by name.
    pub closed spec fn secrets_view(&self) -> Map<Seq<char>, Seq<u8>> {
        self.encrypted_channels@.map_values(|v: Vec<u8>| v@)
    }

    /// The socket id, once the connection has reported it.
    pub closed spec fn socket_id_view(&self) -> Option<Seq<char>> {
        opt_view(self.socket_id)
    }

    /// The handler ids bound to each event name, in binding order.
    pub closed spec fn handlers_view(&self) -> Map<Seq<char>, Seq<usize>> {
        self.handlers@.map_values(|v: Vec<usize>| v@)
    }

    /// How many handlers have been bound; the next handler gets this id.
    pub closed spec fn handler_count_view(&self) -> nat {
        self.handler_count as nat
    }

    /// The connection state.
    pub closed spec fn state_view(&self) -> ConnectionState {
        self.state
    }

    /// Whether a websocket link is open to carry messages.
    pub closed spec fn link_open_view(&self) -> bool {
        self.link_open
    }

    /// The app key and secret of the signer, which come from the configuration.
    pub closed spec fn wf(&self) -> bool {
        &&& self.channels.wf()
        &&& self.encrypted_channels.wf()
        &&& self.handlers.wf()
        &&& self.auth.key_view() == self.config@.app_key
        &&& self.auth.secret_view() == self.config@.app_secret
        &&& forall|k: Seq<char>| #[trigger]
            self.encrypted_channels@.contains_key(k) ==> self.encrypted_channels@[k]@.len() == 32
        &&& forall|k: Seq<char>, i: int| #[trigger]
            self.handlers@.contains_key(k) && 0 <= i < self.handlers@[k]@.len() ==> #[trigger] self.handlers@[k]@[i]
                < self.handler_count
        &&& forall|k: Seq<char>, i: int, j: int|
            #![trigger self.handlers@[k]@[i], self.handlers@[k]@[j]]
            self.handlers@.contains_key(k) && 0 <= i < j < self.handlers@[k]@.len()
                ==> self.handlers@[k]@[i] < self.handlers@[k]@[j]
    }

    /// A disconnected client with no channels, secrets, socket id or handlers.
    pub fn new(config: PusherConfig) -> (r: PusherResult<Self>)
        ensures
            r is Ok,
            r->Ok_0.wf(),
            r->Ok_0.config_view() == config@,
            r->Ok_0.channels_view() == Map::<Seq<char>, Channel>::empty(),
            r->Ok_0.secrets_view() == Map::<Seq<char>, Seq<u8>>::empty(),
            r->Ok_0.socket_id_view() is None,
            r->Ok_0.handlers_view() == Map::<Seq<char>, Seq<usize>>::empty(),
            r->Ok_0.handler_count_view() == 0,
            r->Ok_0.state_view() == ConnectionState::Disconnected,
            !r->Ok_0.link_open_view(),
    {
        let auth = PusherAuth::new(config.app_key.as_str(), config.app_secret.as_str());
        let c = PusherClient {
            config,
            auth,
            channels: TextMap::new(),
            encrypted_channels: TextMap::new(),
            socket_id: None,
            handlers: TextMap::new(),
            handler_count: 0,
            state: ConnectionState::Disconnected,
            link_open: false,
        };
        assert(c.secrets_view() =~= Map::<Seq<char>, Seq<u8>>::empty());
        assert(c.handlers_view() =~= Map::<Seq<char>, Seq<usize>>::empty());
        Ok(c)
    }

    /// The configuration.
    pub fn config(&self) -> (c: &PusherConfig)
        ensures
            c@ == self.config_view(),
    {
        &self.config
    }

    /// The signer made from the configured key and secret.
    pub fn auth(&self) -> (a: &PusherAuth)
        requires
            self.wf(),
        ensures
            a.key_view() == self.config_view().app_key,
            a.secret_view() == self.config_view().app_secret,
    {
        &self.auth
    }

    /// The websocket URL to connect to, as `url::Url` parses it; a parse
    /// failure is a `UrlParseError`.
    pub fn websocket_url(&self) -> (r: PusherResult<String>)
        ensures
            match url_parse_outcome(websocket_url_text(self.config_view())) {
                Ok(u) => r is Ok && r->Ok_0@ == u,
                Err(m) => r is Err && r->Err_0 is UrlParseError && r->Err_0.detail() == m,
            },
            self.config_view().host is None ==> match url_parse_outcome(
                (if self.config_view().use_tls {
                    "wss"@
                } else {
                    "ws"@
                }) + "://ws-"@ + self.config_view().cluster + ".pusher.com/app/"@
                    + self.config_view().app_key + "?protocol=7"@,
            ) {
                Ok(u) => r is Ok && r->Ok_0@ == u,
                Err(m) => r is Err && r->Err_0 is UrlParseError && r->Err_0.detail() == m,
            },
    {
        proof {
            crate::laws::law_websocket_url_follows_cluster(self.config_view(), self.config_view());
        }
        let scheme = if self.config.use_tls {
            "wss"
        } else {
            "ws"
        };
        let host = match &self.config.host {
            Some(h) => h.clone(),
            None => default_host_for(self.config.cluster.as_str()),
        };
        let text = String::from_str(scheme).concat("://").concat(host.as_str()).concat(
            "/app/",
        ).concat(self.config.app_key.as_str()).concat("?protocol=7");
        match parse_url(text.as_str()) {
            Ok(u) => Ok(u),
            Err(m) => Err(PusherError::UrlParseError(m)),
        }
    }

    /// Records that the websocket connected: the link is open and the state
    /// is `Connected`.
    pub fn connected(&mut self)
        requires
            old(self).wf(),
        ensures
            final(self).wf(),
            final(self).state_view() == ConnectionState::Connected,
            final(self).link_open_view(),
            final(self).channels_view() == old(self).channels_view(),
            final(self).secrets_view() == old(self).secrets_view(),
            final(self).socket_id_view() == old(self).socket_id_view(),
            final(self).handlers_view() == old(self).handlers_view(),
            final(self).handler_count_view() == old(self).handler_count_view(),
            final(self).config_view() == old(self).config_view(),
    {
        self.state = ConnectionState::Connected;
        self.link_open = true;
    }

    /// Records a new connection state reported by the websocket session.
    pub fn set_state(&mut self, state: ConnectionState)
        requires
            old(self).wf(),
        ensures
            final(self).wf(),
            final(self).state_view() == state,
            final(self).link_open_view() == old(self).link_open_view(),
            final(self).channels_view() == old(self).channels_view(),
            final(self).secrets_view() == old(self).secrets_view(),
            final(self).socket_id_view() == old(self).socket_id_view(),
            final(self).handlers_view() == old(self).handlers_view(),
            final(self).handler_count_view() == old(self).handler_count_view(),
            final(self).config_view() == old(self).config_view(),
    {
        self.state = state;
    }

    /// Disconnects: reports whether a link was open (so that the caller
    /// closes it), drops the link, and sets the state to `Disconnected`.
    pub fn disconnect(&mut self) -> (had_link: bool)
        requires
            old(self).wf(),
        ensures
            final(self).wf(),
            had_link == old(self).link_open_view(),
            !final(self).link_open_view(),
            final(self).state_view() == ConnectionState::Disconnected,
            final(self).channels_view() == old(self).channels_view(),
            final(self).secrets_view() == old(self).secrets_view(),
            final(self).socket_id_view() == old(self).socket_id_view(),
            final(self).handlers_view() == old(self).handlers_view(),
            final(self).handler_count_view() == old(self).handler_count_view(),
            final(self).config_view() == old(self).config_view(),
    {
        let had_link = self.link_open;
        self.link_open = false;
        self.state = ConnectionState::Disconnected;
        had_link
    }

    /// The number of handlers bound so far, which is the id the next one gets.
    pub fn handler_count(&self) -> (n: usize)
        ensures
            n == self.handler_count_view(),
    {
        self.handler_count
    }

    /// The current connection state.
    pub fn get_connection_state(&self) -> (s: ConnectionState)
        ensures
            s == self.state_view(),
    {
        self.state
    }

    /// A message ready to go out over the link, or `ConnectionError("Not connected")`.
    pub fn outgoing(&self, message: String) -> (r: PusherResult<String>)
        ensures
            self.link_open_view() ==> r is Ok && r->Ok_0 == message,
            !self.link_open_view() ==> r is Err && r->Err_0 is ConnectionError && r->Err_0.detail()
                == "Not connected"@,
    {
        if self.link_open {
            Ok(message)
        } else {
            Err(PusherError::ConnectionError(String::from_str("Not connected")))
        }
    }

    /// Subscribes to `channel_name`: tracks a new channel of that name and
    /// returns the subscribe message to send (or `Not connected`).
    pub fn subscribe(&mut self, channel_name: &str) -> (r: PusherResult<String>)
        requires
            old(self).wf(),
        ensures
            final(self).wf(),
            exists|c: Channel|
                is_fresh_channel(c, channel_name@) && final(self).channels_view() == old(
                    self,
                ).channels_view().insert(channel_name@, c),
            old(self).link_open_view() ==> r is Ok && r->Ok_0@ == subscribe_message(
                channel_name@,
            ),
            !old(self).link_open_view() ==> r is Err && r->Err_0 is ConnectionError
                && r->Err_0.detail() == "Not connected"@,
            final(self).secrets_view() == old(self).secrets_view(),
            final(self).socket_id_view() == old(self).socket_id_view(),
            final(self).handlers_view() == old(self).handlers_view(),
            final(self).handler_count_view() == old(self).handler_count_view(),
            final(self).state_view() == old(self).state_view(),
            final(self).link_open_view() == old(self).link_open_view(),
            final(self).config_view() == old(self).config_view(),
    {
        let channel = Channel::new(channel_name);
        self.channels.insert(String::from_str(channel_name), channel);
        let message = subscribe_message_text(channel_name);
        self.outgoing(message)
    }

    /// Subscribes to `channel_name` with an authorisation string.
    pub fn subscribe_with_auth(&mut self, channel_name: &str, auth: &str) -> (r: PusherResult<
        String,
    >)
        requires
            old(self).wf(),
        ensures
            final(self).wf(),
            exists|c: Channel|
                is_fresh_channel(c, channel_name@) && final(self).channels_view() == old(
                    self,
                ).channels_view().insert(channel_name@, c),
            old(self).link_open_view() ==> r is Ok && r->Ok_0@ == subscribe_with_auth_message(
                channel_name@,
                auth@,
            ),
            !old(self).link_open_view() ==> r is Err && r->Err_0 is ConnectionError
                && r->Err_0.detail() == "Not connected"@,
            final(self).secrets_view() == old(self).secrets_view(),
            final(self).socket_id_view() == old(self).socket_id_view(),
            final(self).handlers_view() == old(self).handlers_view(),
            final(self).handler_count_view() == old(self).handler_count_view(),
            final(self).state_view() == old(self).state_view(),
            final(self).link_open_view() == old(self).link_open_view(),
            final(self).config_view() == old(self).config_view(),
    {
        let channel = Channel::new(channel_name);
        self.channels.insert(String::from_str(channel_name), channel);
        let message = subscribe_with_auth_message_text(channel_name, auth);
        self.outgoing(message)
    }

    /// The key of an encrypted channel: HMAC-SHA256 of its name under the app secret.
    fn generate_shared_secret(&self, channel_name: &str) -> (r: Vec<u8>)
        ensures
            r@ == channel_shared_secret(self.config_view().app_secret, channel_name@),
            r@.len() == 32,
    {
        hmac_sha256(self.config.app_secret.as_str().as_bytes(), channel_name.as_bytes()).unwrap()
    }

    /// Subscribes to an encrypted channel. A name that does not start with
    /// `private-encrypted-` is refused with a `ChannelError` and nothing
    /// changes; otherwise the channel's key is recorded and the channel is
    /// subscribed as `subscribe` does.
    pub fn subscribe_encrypted(&mut self, channel_name: &str) -> (r: PusherResult<String>)
        requires
            old(self).wf(),
        ensures
            final(self).wf(),
            !has_prefix(channel_name@, "private-encrypted-"@) ==> r is Err && r->Err_0 is ChannelError
                && r->Err_0.detail() == "Encrypted channels must start with 'private-encrypted-'"@
                && final(self).channels_view() == old(self).channels_view()
                && final(self).secrets_view() == old(self).secrets_view(),
            has_prefix(channel_name@, "private-encrypted-"@) ==> final(self).secrets_view()
                == old(self).secrets_view().insert(
                channel_name@,
                channel_shared_secret(old(self).config_view().app_secret, channel_name@),
            ) && (exists|c: Channel|
                is_fresh_channel(c, channel_name@) && final(self).channels_view() == old(
                    self,
                ).channels_view().insert(channel_name@, c)) && (old(
                self,
            ).link_open_view() ==> r is Ok && r->Ok_0@ == subscribe_message(channel_name@)) && (!old(
                self,
            ).link_open_view() ==> r is Err && r->Err_0 is ConnectionError && r->Err_0.detail()
                == "Not connected"@),
            final(self).socket_id_view() == old(self).socket_id_view(),
            final(self).handlers_view() == old(self).handlers_view(),
            final(self).handler_count_view() == old(self).handler_count_view(),
            final(self).state_view() == old(self).state_view(),
            final(self).link_open_view() == old(self).link_open_view(),
            final(self).config_view() == old(self).config_view(),
    {
        proof {
            reveal_strlit("private-encrypted-");
            reveal_strlit("Encrypted channels must start with 'private-encrypted-'");
        }
        if !starts_with(channel_name, "private-encrypted-") {
            return Err(
                PusherError::ChannelError(
                    String::from_str("Encrypted channels must start with 'private-encrypted-'"),
                ),
            );
        }
        let shared_secret = self.generate_shared_secret(channel_name);
        let ghost secret_view = shared_secret@;
        let ghost old_secrets = self.encrypted_channels@;
        self.encrypted_channels.insert(String::from_str(channel_name), shared_secret);
        proof {
            assert(self.secrets_view() =~= old(self).secrets_view().insert(
                channel_name@,
                secret_view,
            ));
        }
        self.subscribe(channel_name)
    }

    /// Unsubscribes from `channel_name`: stops tracking it and its key, and
    /// returns the unsubscribe message to send (or `Not connected`).
    pub fn unsubscribe(&mut self, channel_name: &str) -> (r: PusherResult<String>)
        requires
            old(self).wf(),
        ensures
            final(self).wf(),
            final(self).channels_view() == old(self).channels_view().remove(channel_name@),
            final(self).secrets_view() == old(self).secrets_view().remove(channel_name@),
            old(self).link_open_view() ==> r is Ok && r->Ok_0@ == unsubscribe_message(
                channel_name@,
            ),
            !old(self).link_open_view() ==> r is Err && r->Err_0 is ConnectionError
                && r->Err_0.detail() == "Not connected"@,
            final(self).socket_id_view() == old(self).socket_id_view(),
            final(self).handlers_view() == old(self).handlers_view(),
            final(self).handler_count_view() == old(self).handler_count_view(),
            final(self).state_view() == old(self).state_view(),
            final(self).link_open_view() == old(self).link_open_view(),
            final(self).config_view() == old(self).config_view(),
    {
        self.channels.remove(channel_name);
        self.encrypted_channels.remove(channel_name);
        proof {
            assert(self.secrets_view() =~= old(self).secrets_view().remove(channel_name@));
        }
        let message = unsubscribe_message_text(channel_name);
        self.outgoing(message)
    }

    /// The socket id, or a `ConnectionError` while it is unknown.
    pub fn get_socket_id(&self) -> (r: PusherResult<String>)
        ensures
            match self.socket_id_view() {
                Some(s) => r is Ok && r->Ok_0@ == s,
                None => r is Err && r->Err_0 is ConnectionError && r->Err_0.detail()
                    == "Not connected or socket ID not available"@,
            },
    {
        match &self.socket_id {
            Some(s) => Ok(s.clone()),
            None => Err(
                PusherError::ConnectionError(
                    String::from_str("Not connected or socket ID not available"),
                ),
            ),
        }
    }

    /// The names of the tracked channels, each once.
    pub fn get_subscribed_channels(&self) -> (r: Vec<String>)
        requires
            self.wf(),
        ensures
            r@.len() == self.channels_view().len(),
            forall|i: int|
                0 <= i < r@.len() ==> self.channels_view().contains_key(#[trigger] r@[i]@),
            forall|k: Seq<char>| #[trigger]
                self.channels_view().contains_key(k) ==> exists|i: int|
                    0 <= i < r@.len() && r@[i]@ == k,
            forall|i: int, j: int| 0 <= i < j < r@.len() ==> r@[i]@ != r@[j]@,
    {
        self.channels.keys()
    }

    /// The reconnection policy of this client: at most the configured
    /// `max_reconnection_attempts` attempts, with the configured backoff
    /// interval in whole milliseconds (capped at the largest `u64`) as the
    /// first wait.
    pub fn reconnector(&self) -> (r: Reconnector)
        ensures
            r.attempts_view() == 0,
            r.max_view() == self.config_view().max_reconnection_attempts,
            r.backoff_view() == (if duration_millis(self.config_view().backoff_interval) <= u64::MAX {
                duration_millis(self.config_view().backoff_interval) as u64
            } else {
                u64::MAX
            }),
    {
        let millis: u128 = self.config.backoff_interval.as_millis();
        let backoff_ms: u64 = if millis > 18446744073709551615u128 {
            18446744073709551615u64
        } else {
            millis as u64
        };
        Reconnector::new(self.config.max_reconnection_attempts, backoff_ms)
    }

    /// The names of the tracked channels, each once, in storage order.
    pub closed spec fn channel_names(&self) -> Seq<Seq<char>> {
        self.channels.key_seq()
    }

    /// The subscribe messages that restore every tracked channel on a new
    /// connection, one per channel.
    pub fn resubscribe_messages(&self) -> (r: Vec<String>)
        requires
            self.wf(),
        ensures
            r@.len() == self.channel_names().len(),
            forall|i: int| 0 <= i < r@.len() ==> #[trigger] r@[i]@ == subscribe_message(self.channel_names()[i]),
            self.channel_names().no_duplicates(),
            forall|k: Seq<char>| #[trigger]
                self.channels_view().contains_key(k) <==> self.channel_names().contains(k),
    {
        proof {
            self.channels.lemma_entries();
            assert forall|k: Seq<char>| #[trigger]
                self.channels_view().contains_key(k) <==> self.channel_names().contains(k) by {
                if self.channel_names().contains(k) {
                    let i = choose|i: int| 0 <= i < self.channel_names().len() && self.channel_names()[i] == k;
                    assert(self.channels_view().contains_key(self.channel_names()[i]));
                }
            }
        }
        let names = self.channels.keys();
        let mut r: Vec<String> = Vec::new();
        let n = names.len();
        let mut i: usize = 0;
        while i < n
            invariant
                n == names@.len(),
                n == self.channel_names().len(),
                forall|j: int| 0 <= j < n ==> #[trigger] names@[j]@ == self.channel_names()[j],
                i <= n,
                r@.len() == i,
                forall|j: int| 0 <= j < i ==> #[trigger] r@[j]@ == subscribe_message(self.channel_names()[j]),
            decreases n - i,
        {
            r.push(subscribe_message_text(names[i].as_str()));
            i = i + 1;
        }
        r
    }

    /// Binds a new handler to `event_name`; returns its id, which is the
    /// number of handlers bound before it.
    pub fn bind(&mut self, event_name: &str) -> (id: usize)
        requires
            old(self).wf(),
            old(self).handler_count_view() < usize::MAX,
        ensures
            final(self).wf(),
            id == old(self).handler_count_view(),
            final(self).handler_count_view() == old(self).handler_count_view() + 1,
            final(self).handlers_view() == handlers_after_bind(
                old(self).handlers_view(),
                event_name@,
                id,
            ),
            final(self).channels_view() == old(self).channels_view(),
            final(self).secrets_view() == old(self).secrets_view(),
            final(self).socket_id_view() == old(self).socket_id_view(),
            final(self).state_view() == old(self).state_view(),
            final(self).link_open_view() == old(self).link_open_view(),
            final(self).config_view() == old(self).config_view(),
    {
        let id = self.handler_count;
        let ghost old_handlers = self.handlers@;
        match self.handlers.get_mut(event_name) {
            Some(list) => {
                list.push(id);
            },
            None => {
                let mut list: Vec<usize> = Vec::new();
                list.push(id);
                self.handlers.insert(String::from_str(event_name), list);
            },
        }
        self.handler_count = self.handler_count + 1;
        proof {
            let expected = handlers_for(old(self).handlers_view(), event_name@).push(id);
            if !old(self).handlers_view().contains_key(event_name@) {
                assert(expected =~= seq![id]);
            }
            assert(self.handlers_view() =~= handlers_after_bind(
                old(self).handlers_view(),
                event_name@,
                id,
            ));
            assert forall|k: Seq<char>, i: int| #[trigger]
                self.handlers@.contains_key(k) && 0 <= i < self.handlers@[k]@.len() implies #[trigger] self.handlers@[k]@[i]
                < self.handler_count by {
                if k != event_name@ {
                    assert(old_handlers.contains_key(k));
                    assert(old_handlers[k]@[i] < old(self).handler_count);
                } else if old_handlers.contains_key(k) && i < old_handlers[k]@.len() {
                    assert(self.handlers@[k]@[i] == old_handlers[k]@[i]);
                    assert(old_handlers[k]@[i] < old(self).handler_count);
                }
            }
        }
        id
    }

    /// Handles an incoming event: a `pusher:connection_established` event whose
    /// system form (`system`, see `Event::as_system_event_from`) carries a socket id
    /// records that id; returns the ids of the handlers bound to the event's
    /// name, in binding order, for the caller to run.
    pub fn dispatch(&mut self, event: &Event, system: Option<SystemEvent>) -> (ids: Vec<usize>)
        requires
            old(self).wf(),
        ensures
            final(self).wf(),
            final(self).socket_id_view() == (if event.event@ == connection_established_name()
                && system is Some && system->Some_0.data is ConnectionEstablished {
                Some(system->Some_0.data->ConnectionEstablished_socket_id@)
            } else {
                old(self).socket_id_view()
            }),
            ids@ == handlers_for(old(self).handlers_view(), event.event@),
            forall|i: int, j: int| 0 <= i < j < ids@.len() ==> ids@[i] < ids@[j],
            forall|i: int| 0 <= i < ids@.len() ==> ids@[i] < old(self).handler_count_view(),
            final(self).handlers_view() == old(self).handlers_view(),
            final(self).handler_count_view() == old(self).handler_count_view(),
            final(self).channels_view() == old(self).channels_view(),
            final(self).secrets_view() == old(self).secrets_view(),
            final(self).state_view() == old(self).state_view(),
            final(self).link_open_view() == old(self).link_open_view(),
            final(self).config_view() == old(self).config_view(),
    {
        proof {
            reveal_strlit("pusher:connection_established");
        }
        if text_eq(event.event.as_str(), "pusher:connection_established") {
            match system {
                Some(se) => match se.data {
                    SystemEventData::ConnectionEstablished { socket_id, .. } => {
                        self.socket_id = Some(socket_id);
                    },
                    _ => {},
                },
                None => {},
            }
        }
        match self.handlers.get(event.event.as_str()) {
            Some(list) => list.clone(),
            None => Vec::new(),
        }
    }

    /// The encrypted form of `data` for `channel`: base64 of a fresh IV and the
    /// AES-256-CBC ciphertext under the channel's key; a `ChannelError` when
    /// the channel has no key (not subscribed, or not encrypted).
    pub fn encrypted_payload(&self, channel: &str, data: &str) -> (r: PusherResult<String>)
        requires
            self.wf(),
            encode_utf8(data@).len() <= usize::MAX / 4,
        ensures
            !self.secrets_view().contains_key(channel@) ==> r is Err && r->Err_0 is ChannelError
                && r->Err_0.detail() == "Channel is not subscribed or is not encrypted"@,
            self.secrets_view().contains_key(channel@) ==> r is Ok && exists|iv: Seq<u8>|
                iv.len() == 16 && r->Ok_0@ == encrypted_text(
                    data@,
                    self.secrets_view()[channel@],
                    iv,
                ),
    {
        match self.encrypted_channels.get(channel) {
            Some(secret) => encrypt_data(data, secret.as_slice()),
            None => Err(
                PusherError::ChannelError(
                    String::from_str("Channel is not subscribed or is not encrypted"),
                ),
            ),
        }
    }

    /// Decrypts a payload of an encrypted channel with its 32-byte key; see
    /// `encryption::decrypt_data`.
    pub fn decrypt_data(&self, encrypted_data: &str, shared_secret: &[u8]) -> (r: PusherResult<
        String,
    >)
        ensures
            r is Ok <==> shared_secret@.len() == 32 && crate::encryption::decrypted_text(
                encrypted_data@,
                shared_secret@,
            ) is Some,
            r is Ok ==> r->Ok_0@ == crate::encryption::decrypted_text(
                encrypted_data@,
                shared_secret@,
            )->Some_0,
            r is Err ==> r->Err_0 is DecryptionError,
            (exists|b: Seq<u8>| crate::crypto::base64_encode_of(b) == encrypted_data@ && b.len()
                < 16) ==> (r is Err && r->Err_0.detail() == "Invalid encrypted data"@),
            shared_secret@.len() != 32 && (exists|b: Seq<u8>|
                crate::crypto::base64_encode_of(b) == encrypted_data@ && b.len() >= 16) ==> (r is Err
                && r->Err_0.detail() == "Invalid key length"@),
            shared_secret@.len() == 32 ==> forall|data: Seq<char>, iv: Seq<u8>|
                iv.len() == 16 && #[trigger] encrypted_text(data, shared_secret@, iv)
                    == encrypted_data@ ==> r is Ok && r->Ok_0@ == data,
    {
        decrypt_data(encrypted_data, shared_secret)
    }

    /// Authorises a presence subscription with the configured key and secret;
    /// see `PusherAuth::authenticate_presence_channel`.
    pub fn authenticate_presence_channel(
        &self,
        socket_id: &str,
        channel_name: &str,
        user_id: &str,
        user_info: Option<&str>,
    ) -> (r: PusherResult<String>)
        requires
            self.wf(),
        ensures
            r is Ok,
            ({
                let data = crate::auth::presence_channel_data(
                    user_id@,
                    match user_info {
                        Some(i) => Some(i@),
                        None => None,
                    },
                );
                r->Ok_0@ == crate::auth::presence_auth(
                    self.config_view().app_key,
                    self.config_view().app_secret,
                    socket_id@,
                    channel_name@,
                    data,
                )
            }),
    {
        self.auth.authenticate_presence_channel(socket_id, channel_name, user_id, user_info)
    }

    /// The request that publishes `event` with `data` on `channel`, signed at
    /// `timestamp`. The data is any text and travels as a JSON string.
    pub fn trigger_request_at(&self, channel: &str, event: &str, data: &str, timestamp: u64) -> (r:
        ApiRequest)
        requires
            self.wf(),
        ensures
            is_trigger_request(self.config_view(), channel@, event@, data@, timestamp, r),
    {
        let body = event_object_text(channel, event, data);
        let path = String::from_str("/apps/").concat(self.config.app_id.as_str()).concat("/events");
        let url = String::from_str("https://api-").concat(self.config.cluster.as_str()).concat(
            ".pusher.com",
        ).concat(path.as_str());
        let query = self.auth.authenticate_request_at("POST", path.as_str(), body.as_str(), timestamp);
        ApiRequest { url, body, query }
    }

    /// The request that publishes a batch of events, signed at `timestamp`.
    pub fn trigger_batch_request_at(&self, events: &Vec<BatchEvent>, timestamp: u64) -> (r:
        ApiRequest)
        requires
            self.wf(),
        ensures
            is_batch_request(self.config_view(), events@, timestamp, r),
    {
        let body = batch_body_text(events);
        let path = String::from_str("/apps/").concat(self.config.app_id.as_str()).concat(
            "/batch_events",
        );
        let url = String::from_str("https://api-").concat(self.config.cluster.as_str()).concat(
            ".pusher.com",
        ).concat(path.as_str());
        let query = self.auth.authenticate_request_at("POST", path.as_str(), body.as_str(), timestamp);
        ApiRequest { url, body, query }
    }

    /// The request that asks for a channel's occupancy, signed at
    /// `timestamp` over an empty JSON object; `info=subscription_count` is
    /// added to the query after signing.
    pub fn occupancy_request_at(&self, channel: &str, timestamp: u64) -> (r: ApiRequest)
        requires
            self.wf(),
        ensures
            is_occupancy_request(self.config_view(), channel@, timestamp, r),
    {
        let path = String::from_str("/apps/").concat(self.config.app_id.as_str()).concat(
            "/channels/",
        ).concat(channel);
        let url = String::from_str("https://api-").concat(self.config.cluster.as_str()).concat(
            ".pusher.com",
        ).concat(path.as_str());
        let body = String::from_str("{}");
        let mut query = self.auth.authenticate_request_at("GET", path.as_str(), body.as_str(), timestamp);
        let ghost signed = query@;
        query.push((String::from_str("info"), String::from_str("subscription_count")));
        assert(pairs_view(query@) =~= pairs_view(signed).push(("info"@, "subscription_count"@)));
        ApiRequest { url, body, query }
    }

    /// The request that publishes `event` with `data` on `channel`, signed
    /// now; a clock before 1970 is an `AuthError`.
    pub fn trigger_request(&self, channel: &str, event: &str, data: &str) -> (r: PusherResult<
        ApiRequest,
    >)
        requires
            self.wf(),
        ensures
            r is Ok ==> exists|t: u64| #[trigger]
                is_trigger_request(self.config_view(), channel@, event@, data@, t, r->Ok_0),
            r is Err ==> r->Err_0 is AuthError,
    {
        match unix_time_secs() {
            Ok(t) => {
                let req = self.trigger_request_at(channel, event, data, t);
                let r: PusherResult<ApiRequest> = Ok(req);
                assert(is_trigger_request(self.config_view(), channel@, event@, data@, t, r->Ok_0));
                r
            },
            Err(m) => Err(PusherError::AuthError(m)),
        }
    }

    /// The request that publishes a batch of events, signed now; a clock
    /// before 1970 is an `AuthError`.
    pub fn trigger_batch_request(&self, events: &Vec<BatchEvent>) -> (r: PusherResult<ApiRequest>)
        requires
            self.wf(),
        ensures
            r is Ok ==> exists|t: u64| #[trigger] is_batch_request(self.config_view(), events@, t, r->Ok_0),
            r is Err ==> r->Err_0 is AuthError,
    {
        match unix_time_secs() {
            Ok(t) => {
                let req = self.trigger_batch_request_at(events, t);
                let r: PusherResult<ApiRequest> = Ok(req);
                assert(is_batch_request(self.config_view(), events@, t, r->Ok_0));
                r
            },
            Err(m) => Err(PusherError::AuthError(m)),
        }
    }

    /// The request that asks for a channel's occupancy, signed now; a clock
    /// before 1970 is an `AuthError`.
    pub fn occupancy_request(&self, channel: &str) -> (r: PusherResult<ApiRequest>)
        requires
            self.wf(),
        ensures
            r is Ok ==> exists|t: u64| #[trigger] is_occupancy_request(self.config_view(), channel@, t, r->Ok_0),
            r is Err ==> r->Err_0 is AuthError,
    {
        match unix_time_secs() {
            Ok(t) => {
                let req = self.occupancy_request_at(channel, t);
                let r: PusherResult<ApiRequest> = Ok(req);
                assert(is_occupancy_request(self.config_view(), channel@, t, r->Ok_0));
                r
            },
            Err(m) => Err(PusherError::AuthError(m)),
        }
    }
}

} // verus!
