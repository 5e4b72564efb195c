//! Client configuration: defaults, a builder, and reading environment values.
use vstd::prelude::*;

use core::time::Duration;

use crate::laws::law_decimal_roundtrip;
use crate::text::{decimal, parse_unsigned, text_eq, unsigned_decimal, IntoText};

verus! {

/// The `Duration` that `Duration::from_secs` returns for `secs`.
pub uninterp spec fn duration_of_secs(secs: u64) -> Duration;

/// The whole milliseconds that a `Duration` holds, as `Duration::as_millis`
/// returns them.
pub uninterp spec fn duration_millis(d: Duration) -> nat;

/// `Duration::from_secs` builds the duration of `secs` whole seconds; it is
/// a pure function of its argument, which the name records, and holds
/// `secs * 1000` whole milliseconds.
pub assume_specification[ core::time::Duration::from_secs ](secs: u64) -> (d: Duration)
    ensures
        d == duration_of_secs(secs),
        duration_millis(d) == secs * 1000,
;

/// `Duration::as_millis`: the total number of whole milliseconds in `d`.
pub assume_specification[ core::time::Duration::as_millis ](d: &Duration) -> (r: u128)
    ensures
        r == duration_millis(*d),
;

/// `Duration` is `Copy`, and its `Clone` returns the same duration.
pub assume_specification[ <core::time::Duration as Clone>::clone ](d: &Duration) -> (r: Duration)
    ensures
        r == *d,
;

/// Config for the Pusher client.
#[derive(Clone, Debug)]
pub struct PusherConfig {
    /// The Pusher App ID.
    pub app_id: String,
    /// The Pusher App key.
    pub app_key: String,
    /// The Pusher App secret.
    pub app_secret: String,
    /// The cluster.
    pub cluster: String,
    /// Whether to use TLS for connections.
    pub use_tls: bool,
    /// The host to connect to. If None, the default Pusher host is used.
    pub host: Option<String>,
    /// The maximum number of reconnection attempts. Defaults to 6.
    pub max_reconnection_attempts: u32,
    /// The backoff interval for reconnection attempts. Defaults to 1 second.
    pub backoff_interval: Duration,
    /// The activity timeout. Defaults to 120 seconds.
    pub activity_timeout: Duration,
    /// The pong timeout. Defaults to 30 seconds.
    pub pong_timeout: Duration,
}

/// The host name of a cluster's websocket endpoint: `ws-{cluster}.pusher.com`.
pub open spec fn default_host(cluster: Seq<char>) -> Seq<char> {
    "ws-"@ + cluster + ".pusher.com"@
}

/// `ws-{cluster}.pusher.com`.
pub fn default_host_for(cluster: &str) -> (h: String)
    ensures
        h@ == default_host(cluster@),
{
    String::from_str("ws-").concat(cluster).concat(".pusher.com")
}

impl Default for PusherConfig {
    /// Empty credentials and cluster, TLS on, no host, 6 reconnection
    /// attempts, and intervals of 1, 120 and 30 seconds.
    fn default() -> (c: Self)
        ensures
            c.app_id@ == Seq::<char>::empty(),
            c.app_key@ == Seq::<char>::empty(),
            c.app_secret@ == Seq::<char>::empty(),
            c.cluster@ == Seq::<char>::empty(),
            c.use_tls,
            c.host is None,
            c.max_reconnection_attempts == 6,
            c.backoff_interval == duration_of_secs(1),
            c.activity_timeout == duration_of_secs(120),
            c.pong_timeout == duration_of_secs(30),
    {
        PusherConfig {
            app_id: String::new(),
            app_key: String::new(),
            app_secret: String::new(),
            cluster: String::new(),
            use_tls: true,
            host: None,
            max_reconnection_attempts: 6,
            backoff_interval: Duration::from_secs(1),
            activity_timeout: Duration::from_secs(120),
            pong_timeout: Duration::from_secs(30),
        }
    }
}

/// The abstract contents of a `PusherConfigBuilder`.
pub struct BuilderView {
    pub app_id: Option<Seq<char>>,
    pub app_key: Option<Seq<char>>,
    pub app_secret: Option<Seq<char>>,
    pub cluster: Option<Seq<char>>,
    pub use_tls: bool,
    pub host: Option<Seq<char>>,
    pub max_reconnection_attempts: u32,
    pub backoff_interval: Duration,
    pub activity_timeout: Duration,
    pub pong_timeout: Duration,
}

/// The characters of an optional string.
pub open spec fn opt_view(s: Option<String>) -> Option<Seq<char>> {
    match s {
        Some(t) => Some(t@),
        None => None,
    }
}

/// Builder for `PusherConfig` to enable programmatic configuration.
#[derive(Debug, Clone)]
pub struct PusherConfigBuilder {
    app_id: Option<String>,
    app_key: Option<String>,
    app_secret: Option<String>,
    cluster: Option<String>,
    use_tls: bool,
    host: Option<String>,
    max_reconnection_attempts: u32,
    backoff_interval: Duration,
    activity_timeout: Duration,
    pong_timeout: Duration,
}

impl View for PusherConfigBuilder {
    type V = BuilderView;

    closed spec fn view(&self) -> BuilderView {
        BuilderView {
            app_id: opt_view(self.app_id),
            app_key: opt_view(self.app_key),
            app_secret: opt_view(self.app_secret),
            cluster: opt_view(self.cluster),
            use_tls: self.use_tls,
            host: opt_view(self.host),
            max_reconnection_attempts: self.max_reconnection_attempts,
            backoff_interval: self.backoff_interval,
            activity_timeout: self.activity_timeout,
            pong_timeout: self.pong_timeout,
        }
    }
}

/// What a fresh builder holds: no credentials, cluster or host, TLS on,
/// 6 reconnection attempts, and intervals of 1, 120 and 30 seconds.
pub open spec fn builder_defaults() -> BuilderView {
    BuilderView {
        app_id: None,
        app_key: None,
        app_secret: None,
        cluster: None,
        use_tls: true,
        host: None,
        max_reconnection_attempts: 6,
        backoff_interval: duration_of_secs(1),
        activity_timeout: duration_of_secs(120),
        pong_timeout: duration_of_secs(30),
    }
}

impl Default for PusherConfigBuilder {
    fn default() -> (b: Self)
        ensures
            b@ == builder_defaults(),
    {
        PusherConfigBuilder {
            app_id: None,
            app_key: None,
            app_secret: None,
            cluster: None,
            use_tls: true,
            host: None,
            max_reconnection_attempts: 6,
            backoff_interval: Duration::from_secs(1),
            activity_timeout: Duration::from_secs(120),
            pong_timeout: Duration::from_secs(30),
        }
    }
}

/// The configuration that `build` makes of a builder's contents, or the
/// message for the first missing credential among app id, key and secret.
pub open spec fn built(b: BuilderView) -> Result<ConfigView, Seq<char>> {
    if b.app_id is None {
        Err("app_id is required"@)
    } else if b.app_key is None {
        Err("app_key is required"@)
    } else if b.app_secret is None {
        Err("app_secret is required"@)
    } else {
        let cluster = match b.cluster {
            Some(c) => c,
            None => "mt1"@,
        };
        Ok(
            ConfigView {
                app_id: b.app_id->Some_0,
                app_key: b.app_key->Some_0,
                app_secret: b.app_secret->Some_0,
                cluster,
                use_tls: b.use_tls,
                host: Some(
                    match b.host {
                        Some(h) => h,
                        None => default_host(cluster),
                    },
                ),
                max_reconnection_attempts: b.max_reconnection_attempts,
                backoff_interval: b.backoff_interval,
                activity_timeout: b.activity_timeout,
                pong_timeout: b.pong_timeout,
            },
        )
    }
}

/// The abstract contents of a `PusherConfig`.
pub struct ConfigView {
    pub app_id: Seq<char>,
    pub app_key: Seq<char>,
    pub app_secret: Seq<char>,
    pub cluster: Seq<char>,
    pub use_tls: bool,
    pub host: Option<Seq<char>>,
    pub max_reconnection_attempts: u32,
    pub backoff_interval: Duration,
    pub activity_timeout: Duration,
    pub pong_timeout: Duration,
}

impl View for PusherConfig {
    type V = ConfigView;

    open spec fn view(&self) -> ConfigView {
        ConfigView {
            app_id: self.app_id@,
            app_key: self.app_key@,
            app_secret: self.app_secret@,
            cluster: self.cluster@,
            use_tls: self.use_tls,
            host: opt_view(self.host),
            max_reconnection_attempts: self.max_reconnection_attempts,
            backoff_interval: self.backoff_interval,
            activity_timeout: self.activity_timeout,
            pong_timeout: self.pong_timeout,
        }
    }
}

impl PusherConfigBuilder {
    /// Creates a new builder with default values.
    pub fn new() -> (b: Self)
        ensures
            b@ == builder_defaults(),
    {
        Self::default()
    }

    /// Sets the Pusher App ID.
    pub fn app_id<S: IntoText>(self, app_id: S) -> (b: Self)
        ensures
            b@ == (BuilderView { app_id: Some(app_id.text_view()), ..self@ }),
    {
        let mut s = self;
        s.app_id = Some(app_id.into_text());
        s
    }

    /// Sets the Pusher App key.
    pub fn app_key<S: IntoText>(self, app_key: S) -> (b: Self)
        ensures
            b@ == (BuilderView { app_key: Some(app_key.text_view()), ..self@ }),
    {
        let mut s = self;
        s.app_key = Some(app_key.into_text());
        s
    }

    /// Sets the Pusher App secret.
    pub fn app_secret<S: IntoText>(self, app_secret: S) -> (b: Self)
        ensures
            b@ == (BuilderView { app_secret: Some(app_secret.text_view()), ..self@ }),
    {
        let mut s = self;
        s.app_secret = Some(app_secret.into_text());
        s
    }

    /// Sets the cluster.
    pub fn cluster<S: IntoText>(self, cluster: S) -> (b: Self)
        ensures
            b@ == (BuilderView { cluster: Some(cluster.text_view()), ..self@ }),
    {
        let mut s = self;
        s.cluster = Some(cluster.into_text());
        s
    }

    /// Sets whether to use TLS for connections.
    pub fn use_tls(self, use_tls: bool) -> (b: Self)
        ensures
            b@ == (BuilderView { use_tls, ..self@ }),
    {
        let mut s = self;
        s.use_tls = use_tls;
        s
    }

    /// Sets a custom host to connect to.
    pub fn host<S: IntoText>(self, host: S) -> (b: Self)
        ensures
            b@ == (BuilderView { host: Some(host.text_view()), ..self@ }),
    {
        let mut s = self;
        s.host = Some(host.into_text());
        s
    }

    /// Sets the maximum number of reconnection attempts.
    pub fn max_reconnection_attempts(self, max_reconnection_attempts: u32) -> (b: Self)
        ensures
            b@ == (BuilderView { max_reconnection_attempts, ..self@ }),
    {
        let mut s = self;
        s.max_reconnection_attempts = max_reconnection_attempts;
        s
    }

    /// Sets the backoff interval for reconnection attempts.
    pub fn backoff_interval(self, backoff_interval: Duration) -> (b: Self)
        ensures
            b@ == (BuilderView { backoff_interval, ..self@ }),
    {
        let mut s = self;
        s.backoff_interval = backoff_interval;
        s
    }

    /// Sets the activity timeout.
    pub fn activity_timeout(self, activity_timeout: Duration) -> (b: Self)
        ensures
            b@ == (BuilderView { activity_timeout, ..self@ }),
    {
        let mut s = self;
        s.activity_timeout = activity_timeout;
        s
    }

    /// Sets the pong timeout.
    pub fn pong_timeout(self, pong_timeout: Duration) -> (b: Self)
        ensures
            b@ == (BuilderView { pong_timeout, ..self@ }),
    {
        let mut s = self;
        s.pong_timeout = pong_timeout;
        s
    }

    /// Builds the `PusherConfig`. App id, key and secret are required (the
    /// first one missing is reported); the cluster defaults to `mt1` and the
    /// host to `ws-{cluster}.pusher.com`.
    pub fn build(self) -> (r: Result<PusherConfig, String>)
        ensures
            match r {
                Ok(c) => built(self@) == Ok::<ConfigView, Seq<char>>(c@),
                Err(m) => built(self@) == Err::<ConfigView, Seq<char>>(m@),
            },
    {
        proof {
            reveal_strlit("app_id is required");
            reveal_strlit("app_key is required");
            reveal_strlit("app_secret is required");
            reveal_strlit("mt1");
        }
        let ghost v = self@;
        let app_id = match self.app_id {
            Some(a) => a,
            None => {
                return Err(String::from_str("app_id is required"));
            },
        };
        let app_key = match self.app_key {
            Some(a) => a,
            None => {
                return Err(String::from_str("app_key is required"));
            },
        };
        let app_secret = match self.app_secret {
            Some(a) => a,
            None => {
                return Err(String::from_str("app_secret is required"));
            },
        };
        let cluster = match self.cluster {
            Some(c) => c,
            None => String::from_str("mt1"),
        };
        let host = match self.host {
            Some(h) => h,
            None => default_host_for(cluster.as_str()),
        };
        let c = PusherConfig {
            app_id,
            app_key,
            app_secret,
            cluster,
            use_tls: self.use_tls,
            host: Some(host),
            max_reconnection_attempts: self.max_reconnection_attempts,
            backoff_interval: self.backoff_interval,
            activity_timeout: self.activity_timeout,
            pong_timeout: self.pong_timeout,
        };
        assert(built(v) == Ok::<ConfigView, Seq<char>>(c@));
        Ok(c)
    }
}

/// The environment variables that a configuration is read from, each as
/// read: `None` where the variable is unset or not valid Unicode.
pub struct EnvValues {
    /// `PUSHER_APP_ID`
    pub app_id: Option<String>,
    /// `PUSHER_KEY`
    pub key: Option<String>,
    /// `PUSHER_SECRET`
    pub secret: Option<String>,
    /// `PUSHER_CLUSTER`
    pub cluster: Option<String>,
    /// `PUSHER_HOST`
    pub host: Option<String>,
    /// `PUSHER_USE_TLS`
    pub use_tls: Option<String>,
    /// `PUSHER_MAX_RECONNECTION_ATTEMPTS`
    pub max_reconnection_attempts: Option<String>,
    /// `PUSHER_BACKOFF_INTERVAL`
    pub backoff_interval: Option<String>,
    /// `PUSHER_ACTIVITY_TIMEOUT`
    pub activity_timeout: Option<String>,
    /// `PUSHER_PONG_TIMEOUT`
    pub pong_timeout: Option<String>,
}

/// A required environment variable that could not be read.
#[derive(Debug, Clone, Copy, PartialEq, Eq, Structural)]
pub enum RequiredVar {
    /// `PUSHER_APP_ID`
    AppId,
    /// `PUSHER_KEY`
    Key,
    /// `PUSHER_SECRET`
    Secret,
}

/// What `str::to_lowercase` returns for `s`.
pub uninterp spec fn lowercase(s: Seq<char>) -> Seq<char>;

/// `str::to_lowercase`: the lowercase equivalent of `s` under Unicode's
/// case mapping tables; a function of `s` alone.
#[verifier::external_body]
fn to_lowercase(s: &str) -> (r: String)
    ensures
        r@ == lowercase(s@),
{
    s.to_lowercase()
}

/// The number that an optional variable holds when it parses as an unsigned
/// decimal no larger than `max`, else `default`.
pub open spec fn number_or(v: Option<Seq<char>>, max: nat, default: nat) -> nat {
    match v {
        Some(t) => match unsigned_decimal(t) {
            Some(n) => if n <= max {
                n
            } else {
                default
            },
            None => default,
        },
        None => default,
    }
}

/// The configuration read from environment values: the first unreadable
/// variable among app id, key and secret is an error; the cluster defaults
/// to `mt1`, the host to `ws-{cluster}.pusher.com`; TLS is on unless
/// `PUSHER_USE_TLS` is set to something whose lowercase form is not `true`;
/// numbers that do not parse fall back to 6 attempts and 1, 120 and 30 seconds.
pub open spec fn config_from_env(
    app_id: Option<Seq<char>>,
    key: Option<Seq<char>>,
    secret: Option<Seq<char>>,
    cluster: Option<Seq<char>>,
    host: Option<Seq<char>>,
    use_tls: Option<Seq<char>>,
    attempts: Option<Seq<char>>,
    backoff: Option<Seq<char>>,
    activity: Option<Seq<char>>,
    pong: Option<Seq<char>>,
) -> Result<(ConfigView, nat, nat, nat), RequiredVar> {
    if app_id is None {
        Err(RequiredVar::AppId)
    } else if key is None {
        Err(RequiredVar::Key)
    } else if secret is None {
        Err(RequiredVar::Secret)
    } else {
        let cluster = match cluster {
            Some(c) => c,
            None => "mt1"@,
        };
        let v = ConfigView {
            app_id: app_id->Some_0,
            app_key: key->Some_0,
            app_secret: secret->Some_0,
            cluster,
            use_tls: match use_tls {
                Some(t) => lowercase(t) == "true"@,
                None => true,
            },
            host: Some(
                match host {
                    Some(h) => h,
                    None => default_host(cluster),
                },
            ),
            max_reconnection_attempts: number_or(attempts, u32::MAX as nat, 6) as u32,
            backoff_interval: duration_of_secs(1),
            activity_timeout: duration_of_secs(120),
            pong_timeout: duration_of_secs(30),
        };
        Ok(
            (
                v,
                number_or(backoff, u64::MAX as nat, 1),
                number_or(activity, u64::MAX as nat, 120),
                number_or(pong, u64::MAX as nat, 30),
            ),
        )
    }
}

/// The number in `v` when it parses as an unsigned decimal no larger than
/// `max`, else `default`.
fn number_or_default(v: &Option<String>, max: u64, default: u64) -> (n: u64)
    requires
        default <= max,
    ensures
        n == number_or(opt_view(*v), max as nat, default as nat),
{
    match v {
        Some(t) => match parse_unsigned(t.as_str(), max) {
            Some(n) => n,
            None => default,
        },
        None => default,
    }
}

impl PusherConfig {
    /// Builds the configuration from the values of the `PUSHER_*`
    /// environment variables.
    pub fn from_env_values(vars: &EnvValues) -> (r: Result<PusherConfig, RequiredVar>)
        ensures
            match config_from_env(
                opt_view(vars.app_id),
                opt_view(vars.key),
                opt_view(vars.secret),
                opt_view(vars.cluster),
                opt_view(vars.host),
                opt_view(vars.use_tls),
                opt_view(vars.max_reconnection_attempts),
                opt_view(vars.backoff_interval),
                opt_view(vars.activity_timeout),
                opt_view(vars.pong_timeout),
            ) {
                Ok((v, backoff, activity, pong)) => r matches Ok(c) && c@ == (ConfigView {
                    backoff_interval: duration_of_secs(backoff as u64),
                    activity_timeout: duration_of_secs(activity as u64),
                    pong_timeout: duration_of_secs(pong as u64),
                    ..v
                }),
                Err(missing) => r == Err::<PusherConfig, RequiredVar>(missing),
            },
            r is Ok ==> r->Ok_0.app_id@ == vars.app_id->Some_0@ && r->Ok_0.app_key@
                == vars.key->Some_0@ && r->Ok_0.app_secret@ == vars.secret->Some_0@,
            r is Ok && vars.cluster is Some ==> r->Ok_0.cluster@ == vars.cluster->Some_0@,
            r is Ok && vars.cluster is None ==> r->Ok_0.cluster@ == "mt1"@,
            r is Ok && vars.host is Some ==> r->Ok_0.host == Some(vars.host->Some_0),
            r is Ok && vars.host is None ==> r->Ok_0.host is Some && r->Ok_0.host->Some_0@ == "ws-"@
                + r->Ok_0.cluster@ + ".pusher.com"@,
            r is Ok && vars.max_reconnection_attempts is None ==> r->Ok_0.max_reconnection_attempts
                == 6,
            forall|n: u32|
                r is Ok && vars.max_reconnection_attempts is Some
                    && vars.max_reconnection_attempts->Some_0@ == #[trigger] decimal(n as nat)
                    ==> r->Ok_0.max_reconnection_attempts == n,
            r is Ok && vars.backoff_interval is None ==> r->Ok_0.backoff_interval == duration_of_secs(
                1,
            ),
            forall|n: u64|
                r is Ok && vars.backoff_interval is Some && vars.backoff_interval->Some_0@
                    == #[trigger] decimal(n as nat) ==> r->Ok_0.backoff_interval == duration_of_secs(
                    n,
                ),
            r is Ok && vars.activity_timeout is None ==> r->Ok_0.activity_timeout
                == duration_of_secs(120),
            forall|n: u64|
                r is Ok && vars.activity_timeout is Some && vars.activity_timeout->Some_0@
                    == #[trigger] decimal(n as nat) ==> r->Ok_0.activity_timeout
                    == duration_of_secs(n),
            r is Ok && vars.pong_timeout is None ==> r->Ok_0.pong_timeout == duration_of_secs(30),
            forall|n: u64|
                r is Ok && vars.pong_timeout is Some && vars.pong_timeout->Some_0@ == #[trigger] decimal(
                    n as nat,
                ) ==> r->Ok_0.pong_timeout == duration_of_secs(n),
    {
        proof {
            reveal_strlit("mt1");
            reveal_strlit("true");
            reveal_strlit("ws-");
            reveal_strlit(".pusher.com");
            assert forall|n: nat| #[trigger] decimal(n) == decimal(n) implies unsigned_decimal(
                decimal(n),
            ) == Some(n) by {
                law_decimal_roundtrip(n);
            }
        }
        let cluster = match &vars.cluster {
            Some(c) => c.clone(),
            None => String::from_str("mt1"),
        };
        let host = match &vars.host {
            Some(h) => h.clone(),
            None => default_host_for(cluster.as_str()),
        };
        let app_id = match &vars.app_id {
            Some(a) => a.clone(),
            None => {
                return Err(RequiredVar::AppId);
            },
        };
        let app_key = match &vars.key {
            Some(a) => a.clone(),
            None => {
                return Err(RequiredVar::Key);
            },
        };
        let app_secret = match &vars.secret {
            Some(a) => a.clone(),
            None => {
                return Err(RequiredVar::Secret);
            },
        };
        let use_tls = match &vars.use_tls {
            Some(t) => {
                let lower = to_lowercase(t.as_str());
                text_eq(lower.as_str(), "true")
            },
            None => true,
        };
        let attempts = number_or_default(&vars.max_reconnection_attempts, 4294967295u64, 6);
        proof {
            assert(u32::MAX == 4294967295u64);
        }
        let backoff = number_or_default(&vars.backoff_interval, 18446744073709551615u64, 1);
        let activity = number_or_default(&vars.activity_timeout, 18446744073709551615u64, 120);
        let pong = number_or_default(&vars.pong_timeout, 18446744073709551615u64, 30);
        Ok(
            PusherConfig {
                app_id,
                app_key,
                app_secret,
                cluster,
                use_tls,
                host: Some(host),
                max_reconnection_attempts: attempts as u32,
                backoff_interval: Duration::from_secs(backoff),
                activity_timeout: Duration::from_secs(activity),
                pong_timeout: Duration::from_secs(pong),
            },
        )
    }

    /// Creates a new builder for `PusherConfig`.
    pub fn builder() -> (b: PusherConfigBuilder)
        ensures
            b@ == builder_defaults(),
    {
        PusherConfigBuilder::new()
    }
}

} // verus!
