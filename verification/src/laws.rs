//! Properties that hold across the library's operations.
use vstd::prelude::*;

use crate::auth::{encrypted_auth, encrypted_channel_secret, socket_auth};
use crate::channels::{channel_type_of, Channel, ChannelType};
use crate::client::{handlers_after_bind, handlers_for};
use crate::config::{builder_defaults, built, config_from_env, default_host, BuilderView, ConfigView};
use crate::client::websocket_url_text;
use crate::crypto::base64_encode_of;
use crate::events::{is_presence_name, is_subscription_name, is_system_name};
use crate::text::{
    all_digits, decimal, digit_char, digit_value, digits_value, has_prefix, is_digit,
    unsigned_decimal,
};
use crate::client::ConnectionState;
use crate::websocket::{
    attempts_after, backoff_delay, doubled, reconnect_step, session_next, state_for_step, Frame,
    ReconnectStep, SessionAction, SessionInput, WebSocketCommand,
};

verus! {

/// A name that starts with `presence-` is a presence channel, one that
/// starts with `private-encrypted-` is an encrypted channel although it also
/// starts with `private-`, and a name with none of the three prefixes is public.
pub proof fn law_channel_kind_follows_prefix(name: Seq<char>)
    ensures
        has_prefix(name, "presence-"@) ==> channel_type_of(name) == ChannelType::Presence,
        has_prefix(name, "private-encrypted-"@) ==> channel_type_of(name)
            == ChannelType::PrivateEncrypted && has_prefix(name, "private-"@),
        has_prefix(name, "private-"@) && !has_prefix(name, "private-encrypted-"@) ==> channel_type_of(
            name,
        ) == ChannelType::Private,
        !has_prefix(name, "private-"@) && !has_prefix(name, "presence-"@) ==> channel_type_of(name)
            == ChannelType::Public,
{
    reveal_strlit("presence-");
    reveal_strlit("private-");
    reveal_strlit("private-encrypted-");
    if has_prefix(name, "presence-"@) {
        assert(name.subrange(0, 9)[2] == 'e');
        if has_prefix(name, "private-"@) {
            assert(name.subrange(0, 8)[2] == 'i');
        }
        if has_prefix(name, "private-encrypted-"@) {
            assert(name.subrange(0, 18)[2] == 'i');
        }
    }
    if has_prefix(name, "private-encrypted-"@) {
        assert(name.subrange(0, 8) =~= name.subrange(0, 18).subrange(0, 8));
        assert(name.subrange(0, 8) =~= "private-"@);
    }
}

/// Unsubscribing right after subscribing leaves the tracked channels as
/// they were without that name: the subscription is forgotten and no other
/// channel is touched.
pub proof fn law_unsubscribe_undoes_subscribe(
    channels: Map<Seq<char>, Channel>,
    name: Seq<char>,
    channel: Channel,
)
    ensures
        channels.insert(name, channel).remove(name) == channels.remove(name),
        !channels.contains_key(name) ==> channels.insert(name, channel).remove(name) == channels,
        !channels.insert(name, channel).remove(name).contains_key(name),
        forall|k: Seq<char>|
            k != name && channels.contains_key(k) ==> #[trigger] channels.insert(
                name,
                channel,
            ).remove(name)[k] == channels[k],
{
    assert(channels.insert(name, channel).remove(name) =~= channels.remove(name));
    if !channels.contains_key(name) {
        assert(channels.remove(name) =~= channels);
    }
}

/// Binding a handler to an event name makes it the last of the handlers that
/// an event of that name reaches, after those bound before it; events of
/// other names reach the same handlers as before.
pub proof fn law_bind_then_dispatch(
    handlers: Map<Seq<char>, Seq<usize>>,
    name: Seq<char>,
    id: usize,
    other: Seq<char>,
)
    ensures
        handlers_for(handlers_after_bind(handlers, name, id), name) == handlers_for(
            handlers,
            name,
        ).push(id),
        other != name ==> handlers_for(handlers_after_bind(handlers, name, id), other)
            == handlers_for(handlers, other),
{
}

/// Adding a member and then removing the same id leaves the other members
/// as they were; adding records the member's info under its id.
pub proof fn law_member_add_then_remove(
    members: Map<Seq<char>, serde_json::Value>,
    id: Seq<char>,
    info: serde_json::Value,
)
    ensures
        members.insert(id, info).contains_key(id),
        members.insert(id, info)[id] == info,
        members.insert(id, info).remove(id) == members.remove(id),
{
    assert(members.insert(id, info).remove(id) =~= members.remove(id));
}

/// A builder that has an app id, key and secret always builds; an unset
/// cluster becomes `mt1` and an unset host follows the cluster.
pub proof fn law_build_with_credentials(b: BuilderView)
    requires
        b.app_id is Some,
        b.app_key is Some,
        b.app_secret is Some,
    ensures
        built(b) is Ok,
        built(b)->Ok_0.cluster == (match b.cluster {
            Some(c) => c,
            None => "mt1"@,
        }),
        b.host is None ==> built(b)->Ok_0.host == Some(default_host(built(b)->Ok_0.cluster)),
        b.host is Some ==> built(b)->Ok_0.host == b.host,
        built(b)->Ok_0.use_tls == b.use_tls,
        built(b)->Ok_0.max_reconnection_attempts == b.max_reconnection_attempts,
{
}

/// A builder that is given only credentials builds a TLS configuration for
/// cluster `mt1` on host `ws-mt1.pusher.com`, with the default retry
/// settings; without an app id it reports `app_id is required`.
pub proof fn law_default_builder(app_id: Seq<char>, key: Seq<char>, secret: Seq<char>)
    ensures
        ({
            let b = BuilderView {
                app_id: Some(app_id),
                app_key: Some(key),
                app_secret: Some(secret),
                ..builder_defaults()
            };
            &&& built(b) is Ok
            &&& built(b)->Ok_0.cluster == "mt1"@
            &&& built(b)->Ok_0.host == Some("ws-mt1.pusher.com"@)
            &&& built(b)->Ok_0.use_tls
            &&& built(b)->Ok_0.max_reconnection_attempts == 6
            &&& built(b)->Ok_0.backoff_interval == builder_defaults().backoff_interval
        }),
        built(builder_defaults()) == Err::<ConfigView, Seq<char>>("app_id is required"@),
{
    reveal_strlit("ws-");
    reveal_strlit(".pusher.com");
    reveal_strlit("mt1");
    reveal_strlit("ws-mt1.pusher.com");
    assert("ws-"@ + "mt1"@ + ".pusher.com"@ =~= "ws-mt1.pusher.com"@);
}

/// A websocket session ends exactly when a ping cannot be sent, a close is
/// commanded, a close frame arrives, the stream fails or ends, or the pong
/// timer runs out while a pong is awaited; a commanded close is the only
/// ending in which the session closes the socket itself, and every other
/// ending counts as a lost connection, to be reconnected.
pub proof fn law_session_ends(waiting: bool, input: SessionInput)
    ensures
        !session_next(waiting, input).1 <==> (input is PingSendFailed || input
            == SessionInput::Command(WebSocketCommand::Close) || input == SessionInput::Received(
            Frame::Close,
        ) || input is StreamError || input is StreamEnded || (input is PongTimeout && waiting)),
        session_next(waiting, input).2 is CloseSocket <==> input == SessionInput::Command(
            WebSocketCommand::Close,
        ),
        !session_next(waiting, input).1 && input != SessionInput::Command(WebSocketCommand::Close)
            ==> session_next(waiting, input).2 is ConnectionLost,
        session_next(waiting, input).1 ==> !(session_next(waiting, input).2 is ConnectionLost),
{
}

/// A lost connection is retried with exponential backoff: attempt `k`
/// (counting from 0) waits the backoff interval doubled `k` times, capped at
/// the largest `u64`, so that each uncapped wait is twice the one before;
/// the client waits while fewer than `max_attempts` attempts have been made,
/// in the `Reconnecting` state, and otherwise gives up, in the `Failed` state.
pub proof fn law_reconnect_backoff(max_attempts: nat, backoff_ms: u64, k: nat)
    ensures
        reconnect_step(k, max_attempts, backoff_ms) is Wait <==> k < max_attempts,
        k < max_attempts ==> reconnect_step(k, max_attempts, backoff_ms) == ReconnectStep::Wait(
            backoff_delay(backoff_ms, k),
        ) && state_for_step(reconnect_step(k, max_attempts, backoff_ms))
            == ConnectionState::Reconnecting,
        k >= max_attempts ==> state_for_step(reconnect_step(k, max_attempts, backoff_ms))
            == ConnectionState::Failed,
        backoff_delay(backoff_ms, 0) == backoff_ms,
        doubled(backoff_ms as nat, k + 1) <= u64::MAX ==> backoff_delay(backoff_ms, k + 1) == 2
            * backoff_delay(backoff_ms, k),
{
    assert(doubled(backoff_ms as nat, k + 1) == 2 * doubled(backoff_ms as nat, k));
}

/// Starting afresh, the reconnector makes exactly `max_attempts` attempts:
/// after `steps` steps it has made `min(steps, max_attempts)` of them, and
/// step number `steps` (counting from 0) waits exactly when
/// `steps < max_attempts`, then gives up at every later step.
pub proof fn law_reconnect_attempts(steps: nat, max_attempts: nat, backoff_ms: u64)
    ensures
        attempts_after(steps, max_attempts) == (if steps <= max_attempts {
            steps
        } else {
            max_attempts
        }),
        reconnect_step(attempts_after(steps, max_attempts), max_attempts, backoff_ms) is Wait
            <==> steps < max_attempts,
    decreases steps,
{
    if steps > 0 {
        law_reconnect_attempts((steps - 1) as nat, max_attempts, backoff_ms);
    }
}

/// A ping tick makes the session await a pong, a pong ends the wait, and a
/// pong timer that runs out while no pong is awaited changes nothing.
pub proof fn law_session_pong_tracking(waiting: bool)
    ensures
        session_next(waiting, SessionInput::PingTick) == (true, true, SessionAction::SendPing),
        session_next(waiting, SessionInput::Received(Frame::Pong)).0 == false,
        session_next(waiting, SessionInput::Received(Frame::Pong)).1,
        !waiting ==> session_next(waiting, SessionInput::PongTimeout) == (
            waiting,
            true,
            SessionAction::Ignore,
        ),
{
}

/// The authorisation of an encrypted channel is the ordinary socket
/// authorisation followed by the base64 of the channel's shared secret.
pub proof fn law_encrypted_auth_extends_socket_auth(
    key: Seq<char>,
    secret: Seq<char>,
    socket_id: Seq<char>,
    channel: Seq<char>,
)
    ensures
        encrypted_auth(key, secret, socket_id, channel) == socket_auth(
            key,
            secret,
            socket_id,
            channel,
        ) + ":"@ + base64_encode_of(encrypted_channel_secret(secret, channel)),
{
}

/// Presence events and subscription events are system events.
pub proof fn law_presence_and_subscription_events_are_system(name: Seq<char>)
    ensures
        is_presence_name(name) ==> is_system_name(name),
        is_subscription_name(name) ==> is_system_name(name),
{
    reveal_strlit("pusher:");
    reveal_strlit("pusher:member_added");
    reveal_strlit("pusher:member_removed");
    reveal_strlit("pusher:subscription_succeeded");
    reveal_strlit("pusher:subscription_error");
    if is_presence_name(name) || is_subscription_name(name) {
        assert(name.subrange(0, 7) =~= "pusher:"@);
    }
}

proof fn lemma_decimal_digits(n: nat)
    ensures
        decimal(n).len() > 0,
        all_digits(decimal(n)),
        digits_value(decimal(n)) == n,
        decimal(n)[0] != '+',
    decreases n,
{
    if n < 10 {
        let d = decimal(n);
        assert(digit_value(digit_char(n)) == n);
        assert(d.drop_last() =~= Seq::<char>::empty());
        assert(digits_value(d.drop_last()) == 0);
        assert(d.last() == digit_char(n));
    } else {
        lemma_decimal_digits(n / 10);
        let d = decimal(n);
        assert(d.drop_last() =~= decimal(n / 10));
        assert(digit_value(digit_char(n % 10)) == n % 10);
        assert forall|i: int| 0 <= i < d.len() implies is_digit(#[trigger] d[i]) by {
            if i < d.len() - 1 {
                assert(d[i] == decimal(n / 10)[i]);
            }
        }
        assert(d[0] == decimal(n / 10)[0]);
    }
}

/// Each setting read from the environment comes from its own variable: a
/// variable that holds the decimal text of `n` sets its setting to `n`
/// whatever the other variables hold, an unset one gives the setting's
/// default (6 attempts; 1, 120 and 30 seconds), and the cluster and host
/// follow their variables, the host defaulting to `ws-{cluster}.pusher.com`.
pub proof fn law_env_settings_read_from_their_own_variables(
    app_id: Seq<char>,
    key: Seq<char>,
    secret: Seq<char>,
    cluster: Option<Seq<char>>,
    host: Option<Seq<char>>,
    use_tls: Option<Seq<char>>,
    attempts: Option<Seq<char>>,
    backoff: Option<Seq<char>>,
    activity: Option<Seq<char>>,
    pong: Option<Seq<char>>,
    n: u32,
    m: u64,
)
    ensures
        ({
            let r = config_from_env(
                Some(app_id),
                Some(key),
                Some(secret),
                cluster,
                host,
                use_tls,
                attempts,
                backoff,
                activity,
                pong,
            );
            &&& r is Ok
            &&& r->Ok_0.0.app_id == app_id && r->Ok_0.0.app_key == key && r->Ok_0.0.app_secret
                == secret
            &&& cluster is Some ==> r->Ok_0.0.cluster == cluster->Some_0
            &&& cluster is None ==> r->Ok_0.0.cluster == "mt1"@
            &&& host is Some ==> r->Ok_0.0.host == host
            &&& host is None ==> r->Ok_0.0.host == Some("ws-"@ + r->Ok_0.0.cluster + ".pusher.com"@)
            &&& attempts == Some(decimal(n as nat)) ==> r->Ok_0.0.max_reconnection_attempts == n
            &&& attempts is None ==> r->Ok_0.0.max_reconnection_attempts == 6
            &&& backoff == Some(decimal(m as nat)) ==> r->Ok_0.1 == m
            &&& backoff is None ==> r->Ok_0.1 == 1
            &&& activity == Some(decimal(m as nat)) ==> r->Ok_0.2 == m
            &&& activity is None ==> r->Ok_0.2 == 120
            &&& pong == Some(decimal(m as nat)) ==> r->Ok_0.3 == m
            &&& pong is None ==> r->Ok_0.3 == 30
        }),
{
    reveal_strlit("mt1");
    law_decimal_roundtrip(n as nat);
    law_decimal_roundtrip(m as nat);
}

/// The websocket URL names the configured host, or else the cluster's own
/// host `ws-{cluster}.pusher.com`, then the app key: for two
/// configurations without a host that agree on TLS and key, the URLs are the
/// same exactly when the clusters are.
pub proof fn law_websocket_url_follows_cluster(c: ConfigView, d: ConfigView)
    ensures
        c.host is None ==> websocket_url_text(c) == (if c.use_tls {
            "wss"@
        } else {
            "ws"@
        }) + "://ws-"@ + c.cluster + ".pusher.com/app/"@ + c.app_key + "?protocol=7"@,
        c.host is Some ==> websocket_url_text(c) == (if c.use_tls {
            "wss"@
        } else {
            "ws"@
        }) + "://"@ + c.host->Some_0 + "/app/"@ + c.app_key + "?protocol=7"@,
        c.host is None && d.host is None && c.use_tls == d.use_tls && c.app_key == d.app_key
            ==> (websocket_url_text(c) == websocket_url_text(d) <==> c.cluster == d.cluster),
{
    reveal_strlit("wss");
    reveal_strlit("ws");
    reveal_strlit("://");
    reveal_strlit("://ws-");
    reveal_strlit("ws-");
    reveal_strlit(".pusher.com");
    reveal_strlit(".pusher.com/app/");
    reveal_strlit("/app/");
    let scheme = if c.use_tls {
        "wss"@
    } else {
        "ws"@
    };
    if c.host is None {
        assert(websocket_url_text(c) =~= scheme + "://ws-"@ + c.cluster + ".pusher.com/app/"@
            + c.app_key + "?protocol=7"@);
    }
    if c.host is None && d.host is None && c.use_tls == d.use_tls && c.app_key == d.app_key {
        let tail = ".pusher.com/app/"@ + c.app_key + "?protocol=7"@;
        let u = scheme + "://ws-"@ + c.cluster + tail;
        let v = scheme + "://ws-"@ + d.cluster + tail;
        assert(websocket_url_text(c) =~= u);
        assert(websocket_url_text(d) =~= v);
        if u == v {
            let p = (scheme + "://ws-"@).len() as int;
            assert(u.len() == v.len());
            assert(c.cluster.len() == d.cluster.len());
            assert(u.subrange(p, p + c.cluster.len()) =~= c.cluster);
            assert(v.subrange(p, p + d.cluster.len()) =~= d.cluster);
        }
    }
}

/// Reading back the decimal text of a number gives the number: parsing
/// undoes formatting.
pub proof fn law_decimal_roundtrip(n: nat)
    ensures
        unsigned_decimal(decimal(n)) == Some(n),
{
    lemma_decimal_digits(n);
}

} // verus!
