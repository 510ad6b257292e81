//! Engine configuration: default values, validation, the builder that
//! layers TOML file settings and `ME_*` environment overrides over the
//! defaults, and the change report between two configurations.
//!
//! Reading files and the environment happens outside this module: the text
//! of each configuration file is handed in, and is parsed here with the
//! `toml` crate; the environment comes in as [`EnvOverrides`].

use vstd::prelude::*;
use toml::Value;
use crate::error::{Error, Result};
use crate::shared_types::IntoText;
use crate::text::{
    contains, decimal, eq_ignore_ascii_case, eq_ignore_ascii_case_spec, owned, parse_unsigned,
    occurs_at, parse_unsigned_bounded, push_char, push_decimal, push_signed_decimal, push_str, seq_contains,
    signed_decimal, str_eq, u64_to_decimal,
};

verus! {

// ============================================================================
// Config
// ============================================================================

/// Application configuration.
#[derive(Clone, Debug, PartialEq, Eq)]
pub struct Config {
    /// Server host address.
    pub host: String,
    /// REST API port.
    pub port: u16,
    /// gRPC port.
    pub grpc_port: u16,
    /// WebSocket port.
    pub ws_port: u16,
    /// Path to the SQLite database file.
    pub database_path: String,
    /// Log level name.
    pub log_level: String,
}

/// The values of a [`Config`].
pub struct ConfigView {
    pub host: Seq<char>,
    pub port: u16,
    pub grpc_port: u16,
    pub ws_port: u16,
    pub database_path: Seq<char>,
    pub log_level: Seq<char>,
}

impl View for Config {
    type V = ConfigView;

    open spec fn view(&self) -> ConfigView {
        ConfigView {
            host: self.host@,
            port: self.port,
            grpc_port: self.grpc_port,
            ws_port: self.ws_port,
            database_path: self.database_path@,
            log_level: self.log_level@,
        }
    }
}

/// The default configuration.
pub open spec fn default_config() -> ConfigView {
    ConfigView {
        host: "0.0.0.0"@,
        port: 8080,
        grpc_port: 8081,
        ws_port: 8082,
        database_path: "data/maintenance.db"@,
        log_level: "info"@,
    }
}

fn default_host() -> (r: String)
    ensures
        r@ == "0.0.0.0"@,
{
    owned("0.0.0.0")
}

fn default_port() -> (r: u16)
    ensures
        r == 8080,
{
    8080
}

fn default_grpc_port() -> (r: u16)
    ensures
        r == 8081,
{
    8081
}

fn default_ws_port() -> (r: u16)
    ensures
        r == 8082,
{
    8082
}

fn default_database_path() -> (r: String)
    ensures
        r@ == "data/maintenance.db"@,
{
    owned("data/maintenance.db")
}

fn default_log_level() -> (r: String)
    ensures
        r@ == "info"@,
{
    owned("info")
}

impl Default for Config {
    fn default() -> (r: Self)
        ensures
            r@ == default_config(),
    {
        Config {
            host: default_host(),
            port: default_port(),
            grpc_port: default_grpc_port(),
            ws_port: default_ws_port(),
            database_path: default_database_path(),
            log_level: default_log_level(),
        }
    }
}

// ============================================================================
// Validation
// ============================================================================

/// Concatenation of `parts` with `sep` between neighbours.
pub open spec fn seq_join(parts: Seq<Seq<char>>, sep: Seq<char>) -> Seq<char>
    decreases parts.len(),
{
    if parts.len() == 0 {
        Seq::empty()
    } else if parts.len() == 1 {
        parts[0]
    } else {
        seq_join(parts.drop_last(), sep) + sep + parts.last()
    }
}

/// The one-message sequence `[m]` when `b` holds, else nothing.
pub open spec fn msg_if(b: bool, m: Seq<char>) -> Seq<Seq<char>> {
    if b {
        seq![m]
    } else {
        Seq::empty()
    }
}

/// Log levels are `trace`, `debug`, `info`, `warn` and `error`, in any
/// letter case.  (Full Unicode lower-casing and ASCII lower-casing agree on
/// these words: no character other than the ASCII letters lower-cases to
/// one of their letters.)
pub open spec fn valid_log_level(l: Seq<char>) -> bool {
    eq_ignore_ascii_case_spec(l, "trace"@) || eq_ignore_ascii_case_spec(l, "debug"@)
        || eq_ignore_ascii_case_spec(l, "info"@) || eq_ignore_ascii_case_spec(l, "warn"@)
        || eq_ignore_ascii_case_spec(l, "error"@)
}

/// Message for two ports that are equal and non-zero.
pub open spec fn conflict_msg(a: Seq<char>, b: Seq<char>, p: u16) -> Seq<char> {
    a + " and "@ + b + " cannot use the same port "@ + decimal(p as nat)
}

/// Every constraint violation of a configuration, in the order checked.
pub open spec fn validation_messages(c: ConfigView) -> Seq<Seq<char>> {
    msg_if(c.host.len() == 0, "host cannot be empty"@) + msg_if(c.port == 0, "port cannot be zero"@)
        + msg_if(c.grpc_port == 0, "grpc_port cannot be zero"@) + msg_if(
        c.ws_port == 0,
        "ws_port cannot be zero"@,
    ) + msg_if(c.port != 0 && c.port == c.grpc_port, conflict_msg("port"@, "grpc_port"@, c.port))
        + msg_if(c.port != 0 && c.port == c.ws_port, conflict_msg("port"@, "ws_port"@, c.port))
        + msg_if(
        c.grpc_port != 0 && c.grpc_port == c.ws_port,
        conflict_msg("grpc_port"@, "ws_port"@, c.grpc_port),
    ) + msg_if(
        !valid_log_level(c.log_level),
        "invalid log_level '"@ + c.log_level
            + "', must be one of: trace, debug, info, warn, error"@,
    ) + msg_if(c.database_path.len() == 0, "database_path cannot be empty"@)
}

/// What validating a configuration yields: success when nothing is
/// violated, else a validation error listing every violation joined by `; `.
pub open spec fn validation_outcome(c: ConfigView, r: Result<()>) -> bool {
    let msgs = validation_messages(c);
    match r {
        Ok(_) => msgs.len() == 0,
        Err(e) => msgs.len() > 0 && (e matches Error::Validation(m) && m@ == seq_join(
            msgs,
            "; "@,
        )),
    }
}

fn push_msg(v: &mut Vec<String>, b: bool, m: String)
    ensures
        final(v)@.map_values(|s: String| s@) == old(v)@.map_values(|s: String| s@) + msg_if(b, m@),
{
    let ghost before = v@.map_values(|s: String| s@);
    if b {
        v.push(m);
        assert(v@.map_values(|s: String| s@) =~= before + msg_if(b, m@));
    } else {
        assert(v@.map_values(|s: String| s@) =~= before + msg_if(b, m@));
    }
}

fn conflict_text(a: &str, b: &str, p: u16) -> (r: String)
    ensures
        r@ == conflict_msg(a@, b@, p),
{
    let mut s = owned(a);
    push_str(&mut s, " and ");
    push_str(&mut s, b);
    push_str(&mut s, " cannot use the same port ");
    push_decimal(&mut s, p as u64);
    assert(s@ =~= conflict_msg(a@, b@, p));
    s
}

/// Joins the texts with `sep` between neighbours.
pub fn join_texts(parts: &Vec<String>, sep: &str) -> (r: String)
    ensures
        r@ == seq_join(parts@.map_values(|s: String| s@), sep@),
{
    let ghost q = parts@.map_values(|s: String| s@);
    let mut out = String::new();
    let mut i: usize = 0;
    while i < parts.len()
        invariant
            i <= parts@.len(),
            q == parts@.map_values(|s: String| s@),
            out@ == seq_join(q.take(i as int), sep@),
        decreases parts@.len() - i,
    {
        if i > 0 {
            push_str(&mut out, sep);
        }
        push_str(&mut out, parts[i].as_str());
        proof {
            assert(q.take(i + 1).drop_last() =~= q.take(i as int));
            if i == 0 {
                assert(q.take(1) =~= seq![q[0]]);
            }
        }
        i = i + 1;
    }
    assert(q.take(parts@.len() as int) =~= q);
    out
}

/// Whether `l` names a log level (ASCII case ignored).
pub fn is_valid_log_level(l: &str) -> (r: bool)
    ensures
        r == valid_log_level(l@),
{
    eq_ignore_ascii_case(l, "trace") || eq_ignore_ascii_case(l, "debug") || eq_ignore_ascii_case(
        l,
        "info",
    ) || eq_ignore_ascii_case(l, "warn") || eq_ignore_ascii_case(l, "error")
}

impl Config {
    /// The configuration with all default values.
    pub fn defaults() -> (r: Self)
        ensures
            r@ == default_config(),
    {
        Self::default()
    }

    /// The constraint violations of this configuration, in the order
    /// checked: empty host, zero ports, pairwise equal non-zero ports, an
    /// unknown log level, an empty database path.
    pub fn validation_errors(&self) -> (r: Vec<String>)
        ensures
            r@.map_values(|s: String| s@) == validation_messages(self@),
    {
        let mut errors: Vec<String> = Vec::new();
        assert(errors@.map_values(|s: String| s@) =~= Seq::<Seq<char>>::empty());
        push_msg(&mut errors, self.host.as_str().unicode_len() == 0, owned("host cannot be empty"));
        push_msg(&mut errors, self.port == 0, owned("port cannot be zero"));
        push_msg(&mut errors, self.grpc_port == 0, owned("grpc_port cannot be zero"));
        push_msg(&mut errors, self.ws_port == 0, owned("ws_port cannot be zero"));
        push_msg(
            &mut errors,
            self.port != 0 && self.port == self.grpc_port,
            conflict_text("port", "grpc_port", self.port),
        );
        push_msg(
            &mut errors,
            self.port != 0 && self.port == self.ws_port,
            conflict_text("port", "ws_port", self.port),
        );
        push_msg(
            &mut errors,
            self.grpc_port != 0 && self.grpc_port == self.ws_port,
            conflict_text("grpc_port", "ws_port", self.grpc_port),
        );
        let mut level_msg = owned("invalid log_level '");
        push_str(&mut level_msg, self.log_level.as_str());
        push_str(&mut level_msg, "', must be one of: trace, debug, info, warn, error");
        push_msg(&mut errors, !is_valid_log_level(self.log_level.as_str()), level_msg);
        push_msg(
            &mut errors,
            self.database_path.as_str().unicode_len() == 0,
            owned("database_path cannot be empty"),
        );
        assert(errors@.map_values(|s: String| s@) =~= validation_messages(self@));
        errors
    }

    /// Validates the configuration, reporting every violation at once.
    pub fn validate(&self) -> (r: Result<()>)
        ensures
            validation_outcome(self@, r),
    {
        let errors = self.validation_errors();
        if errors.len() == 0 {
            Ok(())
        } else {
            Err(Error::Validation(join_texts(&errors, "; ")))
        }
    }
}

// ============================================================================
// File settings and environment overrides
// ============================================================================

/// What a TOML document holds at one key.
#[derive(Clone, Debug, PartialEq, Eq)]
pub enum TomlField {
    /// The key is not present (or its table is not a table).
    Absent,
    /// An integer.
    Int(i64),
    /// A string.
    Text(String),
    /// A value of another type.
    Other,
}

/// The content of a [`TomlField`].
pub enum TomlFieldView {
    Absent,
    Int(i64),
    Text(Seq<char>),
    Other,
}

impl View for TomlField {
    type V = TomlFieldView;

    open spec fn view(&self) -> TomlFieldView {
        match self {
            TomlField::Absent => TomlFieldView::Absent,
            TomlField::Int(i) => TomlFieldView::Int(*i),
            TomlField::Text(t) => TomlFieldView::Text(t@),
            TomlField::Other => TomlFieldView::Other,
        }
    }
}

/// The keys of a configuration file that configuration loading reads.
#[derive(Clone, Debug)]
pub struct TomlSettings {
    /// `server.host`
    pub server_host: TomlField,
    /// `server.port`
    pub server_port: TomlField,
    /// `server.grpc_port`
    pub server_grpc_port: TomlField,
    /// `server.websocket_port`
    pub server_websocket_port: TomlField,
    /// `server.ws_port`
    pub server_ws_port: TomlField,
    /// `database.base_path`
    pub database_base_path: TomlField,
    /// `logging.level`
    pub logging_level: TomlField,
}

/// The content of a [`TomlSettings`].
pub struct TomlSettingsView {
    pub server_host: TomlFieldView,
    pub server_port: TomlFieldView,
    pub server_grpc_port: TomlFieldView,
    pub server_websocket_port: TomlFieldView,
    pub server_ws_port: TomlFieldView,
    pub database_base_path: TomlFieldView,
    pub logging_level: TomlFieldView,
}

impl View for TomlSettings {
    type V = TomlSettingsView;

    open spec fn view(&self) -> TomlSettingsView {
        TomlSettingsView {
            server_host: self.server_host@,
            server_port: self.server_port@,
            server_grpc_port: self.server_grpc_port@,
            server_websocket_port: self.server_websocket_port@,
            server_ws_port: self.server_ws_port@,
            database_base_path: self.database_base_path@,
            logging_level: self.logging_level@,
        }
    }
}

/// The `ME_*` environment variables that were set, each with its value.
#[derive(Clone, Debug)]
pub struct EnvOverrides {
    /// `ME_HOST`
    pub host: Option<String>,
    /// `ME_PORT`
    pub port: Option<String>,
    /// `ME_GRPC_PORT`
    pub grpc_port: Option<String>,
    /// `ME_WS_PORT`
    pub ws_port: Option<String>,
    /// `ME_DATABASE_PATH`
    pub database_path: Option<String>,
    /// `ME_LOG_LEVEL`
    pub log_level: Option<String>,
}

impl EnvOverrides {
    /// No environment variable set.
    pub fn none() -> (r: Self)
        ensures
            r.host is None && r.port is None && r.grpc_port is None && r.ws_port is None
                && r.database_path is None && r.log_level is None,
    {
        EnvOverrides {
            host: None,
            port: None,
            grpc_port: None,
            ws_port: None,
            database_path: None,
            log_level: None,
        }
    }
}

/// A port read from a file: `Ok(None)` leaves the port unchanged, an
/// integer outside `0..=65535` is an error naming the key.
pub open spec fn toml_port(f: TomlFieldView, key: Seq<char>) -> core::result::Result<
    Option<u16>,
    Seq<char>,
> {
    match f {
        TomlFieldView::Int(p) => if 0 <= p && p <= 65535 {
            Ok(Some(p as u16))
        } else {
            Err("invalid "@ + key + " value: "@ + signed_decimal(p as int))
        },
        _ => Ok(None),
    }
}

/// The WebSocket port key: `websocket_port` when present, else `ws_port`.
pub open spec fn ws_field(t: TomlSettingsView) -> TomlFieldView {
    if t.server_websocket_port is Absent {
        t.server_ws_port
    } else {
        t.server_websocket_port
    }
}

pub open spec fn text_or(f: TomlFieldView, keep: Seq<char>) -> Seq<char> {
    match f {
        TomlFieldView::Text(s) => s,
        _ => keep,
    }
}

pub open spec fn port_or(u: Option<u16>, keep: u16) -> u16 {
    match u {
        Some(p) => p,
        None => keep,
    }
}

/// Layering one configuration file over `c`: strings replace the host, the
/// database directory (as `<dir>/maintenance.db`) and the log level;
/// integers replace the ports, checked in the order port, gRPC port,
/// WebSocket port, the first out of range failing the load.
pub open spec fn apply_toml(c: ConfigView, t: TomlSettingsView) -> core::result::Result<
    ConfigView,
    Seq<char>,
> {
    let p = toml_port(t.server_port, "port"@);
    let g = toml_port(t.server_grpc_port, "grpc_port"@);
    let w = toml_port(ws_field(t), "ws_port"@);
    if p is Err {
        Err(p->Err_0)
    } else if g is Err {
        Err(g->Err_0)
    } else if w is Err {
        Err(w->Err_0)
    } else {
        Ok(
            ConfigView {
                host: text_or(t.server_host, c.host),
                port: port_or(p->Ok_0, c.port),
                grpc_port: port_or(g->Ok_0, c.grpc_port),
                ws_port: port_or(w->Ok_0, c.ws_port),
                database_path: match t.database_base_path {
                    TomlFieldView::Text(d) => d + "/maintenance.db"@,
                    _ => c.database_path,
                },
                log_level: text_or(t.logging_level, c.log_level),
            },
        )
    }
}

pub open spec fn env_port(v: Option<String>, keep: u16) -> u16 {
    match v {
        Some(s) => match parse_unsigned(s@, 65535) {
            Some(p) => p as u16,
            None => keep,
        },
        None => keep,
    }
}

pub open spec fn env_text(v: Option<String>, keep: Seq<char>) -> Seq<char> {
    match v {
        Some(s) => s@,
        None => keep,
    }
}

/// Environment overrides: set strings replace their field; set ports
/// replace theirs when they parse as a `u16`, and are ignored otherwise.
pub open spec fn apply_env(c: ConfigView, e: EnvOverrides) -> ConfigView {
    ConfigView {
        host: env_text(e.host, c.host),
        port: env_port(e.port, c.port),
        grpc_port: env_port(e.grpc_port, c.grpc_port),
        ws_port: env_port(e.ws_port, c.ws_port),
        database_path: env_text(e.database_path, c.database_path),
        log_level: env_text(e.log_level, c.log_level),
    }
}

fn copy_config(c: &Config) -> (r: Config)
    ensures
        r@ == c@,
{
    Config {
        host: c.host.clone(),
        port: c.port,
        grpc_port: c.grpc_port,
        ws_port: c.ws_port,
        database_path: c.database_path.clone(),
        log_level: c.log_level.clone(),
    }
}

fn clone_text(s: &String) -> (r: String)
    ensures
        r@ == s@,
{
    s.clone()
}

fn port_from_toml(f: &TomlField, key: &str, keep: u16) -> (r: Result<u16>)
    ensures
        match toml_port(f@, key@) {
            Ok(u) => r == Ok::<u16, Error>(port_or(u, keep)),
            Err(m) => r matches Err(Error::Config(x)) && x@ == m,
        },
{
    match f {
        TomlField::Int(p) => {
            if 0 <= *p && *p <= 65535 {
                Ok(*p as u16)
            } else {
                let mut msg = owned("invalid ");
                push_str(&mut msg, key);
                push_str(&mut msg, " value: ");
                push_signed_decimal(&mut msg, *p);
                assert(msg@ =~= "invalid "@ + key@ + " value: "@ + signed_decimal(*p as int));
                Err(Error::Config(msg))
            }
        },
        _ => Ok(keep),
    }
}

/// Layers one configuration file over `config`.
pub fn apply_toml_settings(config: Config, t: &TomlSettings) -> (r: Result<Config>)
    ensures
        match apply_toml(config@, t@) {
            Ok(v) => r is Ok && r->Ok_0@ == v,
            Err(m) => r matches Err(Error::Config(x)) && x@ == m,
        },
{
    let port = port_from_toml(&t.server_port, "port", config.port)?;
    let grpc_port = port_from_toml(&t.server_grpc_port, "grpc_port", config.grpc_port)?;
    let ws = if matches!(t.server_websocket_port, TomlField::Absent) {
        &t.server_ws_port
    } else {
        &t.server_websocket_port
    };
    let ws_port = port_from_toml(ws, "ws_port", config.ws_port)?;
    let host = match &t.server_host {
        TomlField::Text(h) => clone_text(h),
        _ => config.host,
    };
    let database_path = match &t.database_base_path {
        TomlField::Text(d) => {
            let mut p = clone_text(d);
            push_str(&mut p, "/maintenance.db");
            p
        },
        _ => config.database_path,
    };
    let log_level = match &t.logging_level {
        TomlField::Text(l) => clone_text(l),
        _ => config.log_level,
    };
    Ok(Config { host, port, grpc_port, ws_port, database_path, log_level })
}

fn port_from_env(v: &Option<String>, keep: u16) -> (r: u16)
    ensures
        r == env_port(*v, keep),
{
    match v {
        Some(s) => match parse_unsigned_bounded(s.as_str(), 65535) {
            Some(p) => p as u16,
            None => keep,
        },
        None => keep,
    }
}

fn text_from_env(v: &Option<String>, keep: String) -> (r: String)
    ensures
        r@ == env_text(*v, keep@),
{
    match v {
        Some(s) => clone_text(s),
        None => keep,
    }
}

/// Applies the environment overrides to `config`.
pub fn apply_env_overrides(config: Config, e: &EnvOverrides) -> (r: Config)
    ensures
        r@ == apply_env(config@, *e),
{
    Config {
        host: text_from_env(&e.host, config.host),
        port: port_from_env(&e.port, config.port),
        grpc_port: port_from_env(&e.grpc_port, config.grpc_port),
        ws_port: port_from_env(&e.ws_port, config.ws_port),
        database_path: text_from_env(&e.database_path, config.database_path),
        log_level: text_from_env(&e.log_level, config.log_level),
    }
}

// ============================================================================
// TOML documents
// ============================================================================

/// What `toml::from_str::<toml::Value>` makes of `content`, looked up at
/// `table.key`: the field found there, or the text of the parse error.
pub uninterp spec fn toml_lookup_of(content: Seq<char>, table: Seq<char>, key: Seq<char>) -> core::result::Result<
    TomlFieldView,
    Seq<char>,
>;

/// `toml::from_str::<toml::Value>(content)` and then `get(table)` and
/// `get(key)` on the document: an integer, a string, another value or
/// nothing at that key; on a parse error, the error's display text.  The
/// contract names this result and says nothing more of the TOML grammar.
#[verifier::external_body]
fn toml_lookup(content: &str, table: &str, key: &str) -> (r: core::result::Result<TomlField, String>)
    ensures
        match r {
            Ok(f) => toml_lookup_of(content@, table@, key@) == Ok::<TomlFieldView, Seq<char>>(f@),
            Err(e) => toml_lookup_of(content@, table@, key@) == Err::<TomlFieldView, Seq<char>>(e@),
        },
{
    match toml::from_str::<Value>(content) {
        Err(e) => Err(e.to_string()),
        Ok(doc) => {
            let found = match doc.get(table) { Some(t) => t.get(key), None => None };
            Ok(match found {
                None => TomlField::Absent,
                Some(Value::Integer(i)) => TomlField::Int(*i),
                Some(Value::String(t)) => TomlField::Text(t.clone()),
                Some(Value::Float(_)) => TomlField::Other, Some(Value::Boolean(_)) => TomlField::Other,
                Some(Value::Datetime(_)) => TomlField::Other, Some(Value::Array(_)) => TomlField::Other,
                Some(Value::Table(_)) => TomlField::Other,
            })
        },
    }
}

/// The table and key of each setting that configuration loading reads,
/// in the order of [`TomlSettings`]' fields.
pub open spec fn toml_setting_keys() -> Seq<(Seq<char>, Seq<char>)> {
    seq![
        ("server"@, "host"@),
        ("server"@, "port"@),
        ("server"@, "grpc_port"@),
        ("server"@, "websocket_port"@),
        ("server"@, "ws_port"@),
        ("database"@, "base_path"@),
        ("logging"@, "level"@),
    ]
}

/// The first error among `rs`, if any.
pub open spec fn first_lookup_error(rs: Seq<core::result::Result<TomlFieldView, Seq<char>>>) -> Option<
    Seq<char>,
>
    decreases rs.len(),
{
    if rs.len() == 0 {
        None
    } else {
        match rs[0] {
            Err(m) => Some(m),
            Ok(_) => first_lookup_error(rs.drop_first()),
        }
    }
}

/// The settings a configuration file's text holds: the lookups of every
/// key in [`toml_setting_keys`], or the first parse error.
pub open spec fn toml_settings_from(content: Seq<char>) -> core::result::Result<
    TomlSettingsView,
    Seq<char>,
> {
    let rs = toml_setting_keys().map_values(
        |p: (Seq<char>, Seq<char>)| toml_lookup_of(content, p.0, p.1),
    );
    match first_lookup_error(rs) {
        Some(m) => Err(m),
        None => Ok(
            TomlSettingsView {
                server_host: rs[0]->Ok_0,
                server_port: rs[1]->Ok_0,
                server_grpc_port: rs[2]->Ok_0,
                server_websocket_port: rs[3]->Ok_0,
                server_ws_port: rs[4]->Ok_0,
                database_base_path: rs[5]->Ok_0,
                logging_level: rs[6]->Ok_0,
            },
        ),
    }
}

/// Reads the settings out of the text of a TOML configuration file; the
/// error is the TOML parser's message.
pub fn parse_toml_settings(content: &str) -> (r: core::result::Result<TomlSettings, String>)
    ensures
        match toml_settings_from(content@) {
            Ok(t) => r is Ok && r->Ok_0@ == t,
            Err(m) => r is Err && r->Err_0@ == m,
        },
{
    let tables = ["server", "server", "server", "server", "server", "database", "logging"];
    let keys = ["host", "port", "grpc_port", "websocket_port", "ws_port", "base_path", "level"];
    let ghost rs = toml_setting_keys().map_values(
        |p: (Seq<char>, Seq<char>)| toml_lookup_of(content@, p.0, p.1),
    );
    proof {
        reveal_strlit("server");
        reveal_strlit("database");
        reveal_strlit("logging");
        assert(forall|k: int|
            0 <= k < 7 ==> (#[trigger] tables@[k])@ == toml_setting_keys()[k].0 && keys@[k]@
                == toml_setting_keys()[k].1);
    }
    let mut found: Vec<TomlField> = Vec::new();
    let mut k: usize = 0;
    assert(rs.skip(0) =~= rs);
    while k < 7
        invariant
            k <= 7,
            found@.len() == k,
            rs == toml_setting_keys().map_values(
                |p: (Seq<char>, Seq<char>)| toml_lookup_of(content@, p.0, p.1),
            ),
            forall|j: int|
                0 <= j < 7 ==> (#[trigger] tables@[j])@ == toml_setting_keys()[j].0 && keys@[j]@
                    == toml_setting_keys()[j].1,
            forall|j: int| 0 <= j < k ==> rs[j] == Ok::<TomlFieldView, Seq<char>>(found@[j]@),
            first_lookup_error(rs) == first_lookup_error(rs.skip(k as int)),
        decreases 7 - k,
    {
        assert(rs.skip(k as int).drop_first() =~= rs.skip(k + 1));
        assert(rs.skip(k as int)[0] == rs[k as int]);
        match toml_lookup(content, tables[k], keys[k]) {
            Ok(f) => {
                found.push(f);
            },
            Err(e) => {
                return Err(e);
            },
        }
        k = k + 1;
    }
    assert(rs.skip(7).len() == 0);
    let logging_level = found.pop().unwrap();
    let database_base_path = found.pop().unwrap();
    let server_ws_port = found.pop().unwrap();
    let server_websocket_port = found.pop().unwrap();
    let server_grpc_port = found.pop().unwrap();
    let server_port = found.pop().unwrap();
    let server_host = found.pop().unwrap();
    Ok(
        TomlSettings {
            server_host,
            server_port,
            server_grpc_port,
            server_websocket_port,
            server_ws_port,
            database_base_path,
            logging_level,
        },
    )
}

// ============================================================================
// Builder
// ============================================================================

#[verifier::external_type_specification]
#[verifier::external_body]
pub struct ExPathBuf(std::path::PathBuf);

/// The default configuration file, relative to the base path.
pub const DEFAULT_CONFIG_PATH: &'static str = "config/default.toml";

/// The local configuration file, relative to the base path; it is layered
/// over the default one.
pub const LOCAL_CONFIG_PATH: &'static str = "config/local.toml";

/// Builder for [`Config`] values.
///
/// Setters replace single values.  Loading a configuration file layers its
/// settings over the values so far ([`ConfigBuilder::load_toml_file`]);
/// [`ConfigBuilder::build`] then applies the recorded environment
/// overrides (unless skipped) and validates.  Which files exist and what
/// they hold is found out by the caller, which skips them when
/// [`ConfigBuilder::skips_files`] says so.
#[derive(Debug, Clone)]
pub struct ConfigBuilder {
    config: Config,
    base_path: Option<std::path::PathBuf>,
    skip_files: bool,
    skip_env: bool,
    env: EnvOverrides,
}

/// The state of a [`ConfigBuilder`].
pub struct ConfigBuilderView {
    pub config: ConfigView,
    pub base_path: Option<std::path::PathBuf>,
    pub skip_files: bool,
    pub skip_env: bool,
    pub env: EnvOverrides,
}

impl View for ConfigBuilder {
    type V = ConfigBuilderView;

    closed spec fn view(&self) -> ConfigBuilderView {
        ConfigBuilderView {
            config: self.config@,
            base_path: self.base_path,
            skip_files: self.skip_files,
            skip_env: self.skip_env,
            env: self.env,
        }
    }
}

/// What building yields: the values with the environment layered over
/// them (unless skipped) when they validate, the validation error
/// otherwise.
pub open spec fn build_outcome(b: ConfigBuilderView, r: Result<Config>) -> bool {
    let c = if b.skip_env {
        b.config
    } else {
        apply_env(b.config, b.env)
    };
    &&& validation_outcome(
        c,
        match r {
            Ok(_) => Ok(()),
            Err(e) => Err(e),
        },
    )
    &&& r matches Ok(x) ==> x@ == c
}

/// The builder state that `ConfigBuilder::new` starts from.
pub open spec fn fresh_builder(b: ConfigBuilderView) -> bool {
    &&& b.config == default_config()
    &&& b.base_path is None
    &&& !b.skip_files
    &&& !b.skip_env
    &&& b.env.host is None && b.env.port is None && b.env.grpc_port is None && b.env.ws_port is None
        && b.env.database_path is None && b.env.log_level is None
}

/// The message for a configuration file that is not valid TOML.
pub open spec fn parse_failure_text(path: Seq<char>, m: Seq<char>) -> Seq<char> {
    "failed to parse TOML '"@ + path + "': "@ + m
}

impl ConfigBuilder {
    /// A builder holding the default values.
    pub fn new() -> (r: Self)
        ensures
            fresh_builder(r@),
    {
        ConfigBuilder {
            config: Config::default(),
            base_path: None,
            skip_files: false,
            skip_env: false,
            env: EnvOverrides::none(),
        }
    }

    /// Sets the directory that holds `config/default.toml` and
    /// `config/local.toml`.
    pub fn with_base_path(self, path: std::path::PathBuf) -> (r: Self)
        ensures
            r@ == (ConfigBuilderView { base_path: Some(path), ..self@ }),
    {
        ConfigBuilder { base_path: Some(path), ..self }
    }

    /// Skips configuration files.
    pub fn skip_files(self) -> (r: Self)
        ensures
            r@ == (ConfigBuilderView { skip_files: true, ..self@ }),
    {
        ConfigBuilder { skip_files: true, ..self }
    }

    /// Skips environment overrides.
    pub fn skip_env(self) -> (r: Self)
        ensures
            r@ == (ConfigBuilderView { skip_env: true, ..self@ }),
    {
        ConfigBuilder { skip_env: true, ..self }
    }

    /// Sets the server host.
    pub fn host(self, host: impl IntoText) -> (r: Self)
        ensures
            r@ == (ConfigBuilderView {
                config: ConfigView { host: host.text(), ..self@.config },
                ..self@
            }),
    {
        let mut b = self;
        b.config.host = host.into_text();
        b
    }

    /// Sets the REST API port.
    pub fn port(self, port: u16) -> (r: Self)
        ensures
            r@ == (ConfigBuilderView { config: ConfigView { port, ..self@.config }, ..self@ }),
    {
        let mut b = self;
        b.config.port = port;
        b
    }

    /// Sets the gRPC port.
    pub fn grpc_port(self, port: u16) -> (r: Self)
        ensures
            r@ == (ConfigBuilderView {
                config: ConfigView { grpc_port: port, ..self@.config },
                ..self@
            }),
    {
        let mut b = self;
        b.config.grpc_port = port;
        b
    }

    /// Sets the WebSocket port.
    pub fn ws_port(self, port: u16) -> (r: Self)
        ensures
            r@ == (ConfigBuilderView {
                config: ConfigView { ws_port: port, ..self@.config },
                ..self@
            }),
    {
        let mut b = self;
        b.config.ws_port = port;
        b
    }

    /// Sets the database path.
    pub fn database_path(self, path: impl IntoText) -> (r: Self)
        ensures
            r@ == (ConfigBuilderView {
                config: ConfigView { database_path: path.text(), ..self@.config },
                ..self@
            }),
    {
        let mut b = self;
        b.config.database_path = path.into_text();
        b
    }

    /// Sets the log level.
    pub fn log_level(self, level: impl IntoText) -> (r: Self)
        ensures
            r@ == (ConfigBuilderView {
                config: ConfigView { log_level: level.text(), ..self@.config },
                ..self@
            }),
    {
        let mut b = self;
        b.config.log_level = level.into_text();
        b
    }

    /// Layers the configuration file named `path`, whose text is
    /// `content`, over the values so far.  On failure the values are left
    /// as they were.
    pub fn load_toml_file(&mut self, path: &str, content: &str) -> (r: Result<()>)
        ensures
            match toml_settings_from(content@) {
                Err(m) => (r matches Err(Error::Config(x)) && x@ == parse_failure_text(path@, m))
                    && final(self)@ == old(self)@,
                Ok(t) => match apply_toml(old(self)@.config, t) {
                    Ok(c) => r is Ok && final(self)@ == (ConfigBuilderView {
                        config: c,
                        ..old(self)@
                    }),
                    Err(m) => (r matches Err(Error::Config(x)) && x@ == m) && final(self)@ == old(
                        self,
                    )@,
                },
            },
    {
        match parse_toml_settings(content) {
            Err(e) => {
                let mut m = owned("failed to parse TOML '");
                push_str(&mut m, path);
                push_str(&mut m, "': ");
                push_str(&mut m, e.as_str());
                Err(Error::Config(m))
            },
            Ok(t) => {
                let current = copy_config(&self.config);
                match apply_toml_settings(current, &t) {
                    Ok(c) => {
                        self.config = c;
                        Ok(())
                    },
                    Err(e) => Err(e),
                }
            },
        }
    }

    /// Records the environment overrides.
    pub fn with_env(self, e: EnvOverrides) -> (r: Self)
        ensures
            r@ == (ConfigBuilderView { env: e, ..self@ }),
    {
        ConfigBuilder { env: e, ..self }
    }

    /// The directory holding the configuration files, if one was set.
    pub fn base_path(&self) -> (r: Option<&std::path::PathBuf>)
        ensures
            r is None <==> self@.base_path is None,
            r matches Some(p) ==> self@.base_path == Some(*p),
    {
        self.base_path.as_ref()
    }

    /// The configuration files to read, relative to the base path, in the
    /// order in which they are layered: none when files are skipped,
    /// otherwise the default file and then the local one.
    pub fn config_files(&self) -> (r: Vec<&'static str>)
        ensures
            self@.skip_files ==> r@.len() == 0,
            !self@.skip_files ==> r@.len() == 2 && r@[0]@ == DEFAULT_CONFIG_PATH@ && r@[1]@
                == LOCAL_CONFIG_PATH@,
    {
        let mut files: Vec<&'static str> = Vec::new();
        if !self.skip_files {
            files.push(DEFAULT_CONFIG_PATH);
            files.push(LOCAL_CONFIG_PATH);
        }
        files
    }

    /// Whether configuration files are skipped.
    pub fn skips_files(&self) -> (r: bool)
        ensures
            r == self@.skip_files,
    {
        self.skip_files
    }

    /// Whether environment overrides are skipped.
    pub fn skips_env(&self) -> (r: bool)
        ensures
            r == self@.skip_env,
    {
        self.skip_env
    }

    /// Applies the environment overrides (unless skipped) and validates.
    pub fn build(self) -> (r: Result<Config>)
        ensures
            build_outcome(self@, r),
    {
        let mut c = self.config;
        if !self.skip_env {
            c = apply_env_overrides(c, &self.env);
        }
        match c.validate() {
            Ok(()) => Ok(c),
            Err(e) => Err(e),
        }
    }
}

impl Default for ConfigBuilder {
    fn default() -> (r: Self)
        ensures
            fresh_builder(r@),
    {
        Self::new()
    }
}

// ============================================================================
// Validation report
// ============================================================================

/// A validation error for a specific configuration key.
#[derive(Debug, Clone)]
pub struct ValidationError {
    /// The configuration key that failed validation.
    pub key: String,
    /// Error code for programmatic handling.
    pub code: String,
    /// Human-readable error message.
    pub message: String,
}

/// A validation warning for a specific configuration key.
#[derive(Debug, Clone)]
pub struct ValidationWarning {
    /// The configuration key that triggered the warning.
    pub key: String,
    /// Warning code for programmatic handling.
    pub code: String,
    /// Human-readable warning message.
    pub message: String,
}

/// The text of a [`ValidationError`] or [`ValidationWarning`].
pub struct ValidationEntry {
    pub key: Seq<char>,
    pub code: Seq<char>,
    pub message: Seq<char>,
}

impl View for ValidationError {
    type V = ValidationEntry;

    open spec fn view(&self) -> ValidationEntry {
        ValidationEntry { key: self.key@, code: self.code@, message: self.message@ }
    }
}

impl View for ValidationWarning {
    type V = ValidationEntry;

    open spec fn view(&self) -> ValidationEntry {
        ValidationEntry { key: self.key@, code: self.code@, message: self.message@ }
    }
}

/// Detailed outcome of validating a configuration.
#[derive(Debug, Clone)]
pub struct ValidationResult {
    /// Whether the configuration is valid.
    pub valid: bool,
    /// List of validation errors.
    pub errors: Vec<ValidationError>,
    /// List of validation warnings.
    pub warnings: Vec<ValidationWarning>,
}

/// The content of a [`ValidationResult`].
pub struct ValidationResultView {
    pub valid: bool,
    pub errors: Seq<ValidationEntry>,
    pub warnings: Seq<ValidationEntry>,
}

impl View for ValidationResult {
    type V = ValidationResultView;

    open spec fn view(&self) -> ValidationResultView {
        ValidationResultView {
            valid: self.valid,
            errors: self.errors@.map_values(|e: ValidationError| e@),
            warnings: self.warnings@.map_values(|w: ValidationWarning| w@),
        }
    }
}

impl ValidationResult {
    /// A successful result: valid, with no errors and no warnings.
    pub fn success() -> (r: Self)
        ensures
            r.valid,
            r.errors@.len() == 0,
            r.warnings@.len() == 0,
    {
        ValidationResult { valid: true, errors: Vec::new(), warnings: Vec::new() }
    }

    /// A failed result carrying `errors`, with no warnings.
    pub fn failure(errors: Vec<ValidationError>) -> (r: Self)
        ensures
            !r.valid,
            r.errors@ == errors@,
            r.warnings@.len() == 0,
    {
        ValidationResult { valid: false, errors, warnings: Vec::new() }
    }
}

/// The pieces of `s` between the occurrences of `"; "`, scanning from
/// position `i` with the current piece starting at `start`.
pub open spec fn split_pieces_from(s: Seq<char>, start: int, i: int) -> Seq<Seq<char>>
    decreases s.len() - i,
{
    if i + 2 > s.len() {
        seq![s.subrange(start, s.len() as int)]
    } else if s[i] == ';' && s[i + 1] == ' ' {
        seq![s.subrange(start, i)] + split_pieces_from(s, i + 2, i + 2)
    } else {
        split_pieces_from(s, start, i + 1)
    }
}

/// `s` split at every `"; "`, as `str::split("; ")` splits it.
pub open spec fn split_pieces(s: Seq<char>) -> Seq<Seq<char>> {
    split_pieces_from(s, 0, 0)
}

/// Splits `s` at every `"; "`.
pub fn split_messages(s: &str) -> (r: Vec<String>)
    ensures
        r@.map_values(|p: String| p@) == split_pieces(s@),
{
    let n = s.unicode_len();
    let mut done: Vec<String> = Vec::new();
    let mut piece = String::new();
    let ghost mut start: int = 0;
    let mut i: usize = 0;
    while i < n && n - i >= 2
        invariant
            n == s@.len(),
            0 <= start <= i <= n,
            piece@ == s@.subrange(start, i as int),
            done@.map_values(|p: String| p@) + split_pieces_from(s@, start, i as int)
                == split_pieces(s@),
        decreases n - i,
    {
        let c = s.get_char(i);
        if c == ';' && s.get_char(i + 1) == ' ' {
            proof {
                let before = done@.map_values(|p: String| p@);
                assert(before.push(piece@) + split_pieces_from(s@, i + 2, i + 2) =~= before + (
                seq![piece@] + split_pieces_from(s@, i + 2, i + 2)));
            }
            done.push(piece);
            piece = String::new();
            i = i + 2;
            proof {
                start = i as int;
            }
            assert(piece@ =~= s@.subrange(start, i as int));
        } else {
            push_char(&mut piece, c);
            i = i + 1;
            assert(piece@ =~= s@.subrange(start, i as int));
        }
    }
    if i < n {
        push_char(&mut piece, s.get_char(i));
        i = i + 1;
    }
    assert(piece@ =~= s@.subrange(start, n as int));
    proof {
        let before = done@.map_values(|p: String| p@);
        assert(before.push(piece@) =~= before + seq![piece@]);
    }
    done.push(piece);
    done
}

/// The configuration key that a validation message is about: the first of
/// `host`, `port`, `grpc_port`, `ws_port`, `database_path`, `log_level`
/// that occurs in it, else `unknown`.
pub open spec fn error_key(m: Seq<char>) -> Seq<char> {
    if seq_contains(m, "host"@) {
        "host"@
    } else if seq_contains(m, "port"@) {
        "port"@
    } else if seq_contains(m, "grpc_port"@) {
        "grpc_port"@
    } else if seq_contains(m, "ws_port"@) {
        "ws_port"@
    } else if seq_contains(m, "database_path"@) {
        "database_path"@
    } else if seq_contains(m, "log_level"@) {
        "log_level"@
    } else {
        "unknown"@
    }
}

fn extract_key_from_error(error: &str) -> (r: String)
    ensures
        r@ == error_key(error@),
{
    if contains(error, "host") {
        owned("host")
    } else if contains(error, "port") {
        owned("port")
    } else if contains(error, "grpc_port") {
        owned("grpc_port")
    } else if contains(error, "ws_port") {
        owned("ws_port")
    } else if contains(error, "database_path") {
        owned("database_path")
    } else if contains(error, "log_level") {
        owned("log_level")
    } else {
        owned("unknown")
    }
}

/// The report entry for one validation message.
pub open spec fn report_entry(m: Seq<char>) -> ValidationEntry {
    ValidationEntry { key: error_key(m), code: "E2003"@, message: m }
}

/// The detailed report on a configuration: valid with no entries when it
/// validates; otherwise one entry per `"; "`-separated piece of the
/// validation message, keyed by [`error_key`] and coded `E2003`.
pub open spec fn validation_report_spec(c: ConfigView) -> ValidationResultView {
    let msgs = validation_messages(c);
    if msgs.len() == 0 {
        ValidationResultView { valid: true, errors: Seq::empty(), warnings: Seq::empty() }
    } else {
        ValidationResultView {
            valid: false,
            errors: split_pieces(seq_join(msgs, "; "@)).map_values(|m: Seq<char>| report_entry(m)),
            warnings: Seq::empty(),
        }
    }
}

/// Validates `config` and reports each violation with its key and code.
pub fn validation_report(config: &Config) -> (r: ValidationResult)
    ensures
        r@ == validation_report_spec(config@),
{
    match config.validate() {
        Ok(()) => {
            let r = ValidationResult::success();
            assert(r@.errors =~= Seq::empty());
            assert(r@.warnings =~= Seq::empty());
            r
        },
        Err(Error::Validation(msg)) => {
            let pieces = split_messages(msg.as_str());
            let ghost pv = pieces@.map_values(|p: String| p@);
            let mut errors: Vec<ValidationError> = Vec::new();
            let mut k: usize = 0;
            while k < pieces.len()
                invariant
                    k <= pieces@.len(),
                    pv == pieces@.map_values(|p: String| p@),
                    errors@.map_values(|e: ValidationError| e@) =~= pv.take(k as int).map_values(
                        |m: Seq<char>| report_entry(m),
                    ),
                decreases pieces@.len() - k,
            {
                let m = &pieces[k];
                let e = ValidationError {
                    key: extract_key_from_error(m.as_str()),
                    code: owned("E2003"),
                    message: owned(m.as_str()),
                };
                assert(e@ == report_entry(pv[k as int]));
                let ghost before = errors@;
                errors.push(e);
                assert(errors@.map_values(|e: ValidationError| e@) =~= before.map_values(
                    |e: ValidationError| e@,
                ).push(e@));
                k = k + 1;
                assert(pv.take(k as int) =~= pv.take(k - 1).push(pv[k - 1]));
            }
            assert(pv.take(k as int) =~= pv);
            let r = ValidationResult::failure(errors);
            assert(r@.warnings =~= Seq::empty());
            r
        },
        Err(e) => {
            let mut errors: Vec<ValidationError> = Vec::new();
            errors.push(
                ValidationError {
                    key: owned("unknown"),
                    code: owned("E2000"),
                    message: e.to_display_string(),
                },
            );
            ValidationResult::failure(errors)
        },
    }
}

// ============================================================================
// Change report
// ============================================================================

/// The keys, previous values and new values of the fields that differ
/// between two configurations, in field order.
#[derive(Debug, Clone)]
pub struct ConfigDiff {
    /// Keys that were changed.
    pub changed_keys: Vec<String>,
    /// `(key, previous value)` for each changed key.
    pub previous: Vec<(String, String)>,
    /// `(key, new value)` for each changed key.
    pub new: Vec<(String, String)>,
}

/// The content of a [`ConfigDiff`].
pub struct ConfigDiffView {
    pub keys: Seq<Seq<char>>,
    pub previous: Seq<(Seq<char>, Seq<char>)>,
    pub new: Seq<(Seq<char>, Seq<char>)>,
}

impl View for ConfigDiff {
    type V = ConfigDiffView;

    open spec fn view(&self) -> ConfigDiffView {
        ConfigDiffView {
            keys: self.changed_keys@.map_values(|k: String| k@),
            previous: self.previous@.map_values(|p: (String, String)| (p.0@, p.1@)),
            new: self.new@.map_values(|p: (String, String)| (p.0@, p.1@)),
        }
    }
}

/// The key of field `i`, in the order host, port, grpc_port, ws_port,
/// database_path, log_level.
pub open spec fn config_key(i: int) -> Seq<char> {
    if i == 0 {
        "host"@
    } else if i == 1 {
        "port"@
    } else if i == 2 {
        "grpc_port"@
    } else if i == 3 {
        "ws_port"@
    } else if i == 4 {
        "database_path"@
    } else {
        "log_level"@
    }
}

/// The text of field `i` of `c`; ports in decimal.
pub open spec fn config_field(c: ConfigView, i: int) -> Seq<char> {
    if i == 0 {
        c.host
    } else if i == 1 {
        decimal(c.port as nat)
    } else if i == 2 {
        decimal(c.grpc_port as nat)
    } else if i == 3 {
        decimal(c.ws_port as nat)
    } else if i == 4 {
        c.database_path
    } else {
        c.log_level
    }
}

/// Whether field `i` differs between `a` and `b`.
pub open spec fn field_differs(a: ConfigView, b: ConfigView, i: int) -> bool {
    if i == 0 {
        a.host != b.host
    } else if i == 1 {
        a.port != b.port
    } else if i == 2 {
        a.grpc_port != b.grpc_port
    } else if i == 3 {
        a.ws_port != b.ws_port
    } else if i == 4 {
        a.database_path != b.database_path
    } else {
        a.log_level != b.log_level
    }
}

/// The indices below `n` of the fields that differ, in increasing order.
pub open spec fn changed_fields(a: ConfigView, b: ConfigView, n: nat) -> Seq<int>
    decreases n,
{
    if n == 0 {
        Seq::empty()
    } else {
        let rest = changed_fields(a, b, (n - 1) as nat);
        if field_differs(a, b, n - 1) {
            rest.push(n - 1)
        } else {
            rest
        }
    }
}

/// What changed from `a` to `b`.
pub open spec fn config_diff(a: ConfigView, b: ConfigView) -> ConfigDiffView {
    let ch = changed_fields(a, b, 6);
    ConfigDiffView {
        keys: ch.map_values(|i: int| config_key(i)),
        previous: ch.map_values(|i: int| (config_key(i), config_field(a, i))),
        new: ch.map_values(|i: int| (config_key(i), config_field(b, i))),
    }
}

fn key_text(i: usize) -> (r: String)
    requires
        i < 6,
    ensures
        r@ == config_key(i as int),
{
    if i == 0 {
        owned("host")
    } else if i == 1 {
        owned("port")
    } else if i == 2 {
        owned("grpc_port")
    } else if i == 3 {
        owned("ws_port")
    } else if i == 4 {
        owned("database_path")
    } else {
        owned("log_level")
    }
}

fn field_text(c: &Config, i: usize) -> (r: String)
    requires
        i < 6,
    ensures
        r@ == config_field(c@, i as int),
{
    if i == 0 {
        owned(c.host.as_str())
    } else if i == 1 {
        u64_to_decimal(c.port as u64)
    } else if i == 2 {
        u64_to_decimal(c.grpc_port as u64)
    } else if i == 3 {
        u64_to_decimal(c.ws_port as u64)
    } else if i == 4 {
        owned(c.database_path.as_str())
    } else {
        owned(c.log_level.as_str())
    }
}

fn differs(a: &Config, b: &Config, i: usize) -> (r: bool)
    requires
        i < 6,
    ensures
        r == field_differs(a@, b@, i as int),
{
    if i == 0 {
        !str_eq(a.host.as_str(), b.host.as_str())
    } else if i == 1 {
        a.port != b.port
    } else if i == 2 {
        a.grpc_port != b.grpc_port
    } else if i == 3 {
        a.ws_port != b.ws_port
    } else if i == 4 {
        !str_eq(a.database_path.as_str(), b.database_path.as_str())
    } else {
        !str_eq(a.log_level.as_str(), b.log_level.as_str())
    }
}

/// Lists the fields whose values differ from `previous` to `new`, with
/// their old and new values.
pub fn config_changes(previous: &Config, new: &Config) -> (r: ConfigDiff)
    ensures
        r@ == config_diff(previous@, new@),
{
    let mut d = ConfigDiff { changed_keys: Vec::new(), previous: Vec::new(), new: Vec::new() };
    let mut i: usize = 0;
    while i < 6
        invariant
            i <= 6,
            d@.keys =~= changed_fields(previous@, new@, i as nat).map_values(|j: int| config_key(j)),
            d@.previous =~= changed_fields(previous@, new@, i as nat).map_values(
                |j: int| (config_key(j), config_field(previous@, j)),
            ),
            d@.new =~= changed_fields(previous@, new@, i as nat).map_values(
                |j: int| (config_key(j), config_field(new@, j)),
            ),
        decreases 6 - i,
    {
        let ghost ch = changed_fields(previous@, new@, i as nat);
        let ghost old_d = d@;
        if differs(previous, new, i) {
            let k1 = key_text(i);
            let k2 = key_text(i);
            let k3 = key_text(i);
            let p = field_text(previous, i);
            let q = field_text(new, i);
            d.changed_keys.push(k1);
            d.previous.push((k2, p));
            d.new.push((k3, q));
            assert(d@.keys =~= old_d.keys.push(config_key(i as int)));
            assert(d@.previous =~= old_d.previous.push(
                (config_key(i as int), config_field(previous@, i as int)),
            ));
            assert(d@.new =~= old_d.new.push((config_key(i as int), config_field(new@, i as int))));
            assert(changed_fields(previous@, new@, (i + 1) as nat) == ch.push(i as int));
        } else {
            assert(changed_fields(previous@, new@, (i + 1) as nat) == ch);
        }
        i = i + 1;
    }
    d
}

/// One reload of the configuration: `loaded` is the outcome of reading it
/// again. A failed read leaves the configuration as it was and hands the
/// error on; a successful one replaces it and reports what changed.
pub fn reload_step(current: &Config, loaded: Result<Config>) -> (r: (Config, Result<ConfigDiff>))
    ensures
        match loaded {
            Err(e) => r.0@ == current@ && r.1 == Err::<ConfigDiff, Error>(e),
            Ok(c) => r.0@ == c@ && (r.1 matches Ok(d) && d@ == config_diff(current@, c@)),
        },
{
    match loaded {
        Err(e) => (copy_config(current), Err(e)),
        Ok(c) => {
            let d = config_changes(current, &c);
            (c, Ok(d))
        },
    }
}

/// A configuration compared with itself has no changes.
pub proof fn lemma_no_changes_against_itself(c: ConfigView)
    ensures
        config_diff(c, c).keys.len() == 0,
{
    lemma_no_changes_iff_equal(c, c);
}

/// The change report between two configurations is empty exactly when the
/// configurations hold the same values.
pub proof fn lemma_no_changes_iff_equal(a: ConfigView, b: ConfigView)
    ensures
        (config_diff(a, b).keys.len() == 0) <==> (a == b),
{
    reveal_with_fuel(changed_fields, 7);
    if a != b {
        assert(field_differs(a, b, 0) || field_differs(a, b, 1) || field_differs(a, b, 2)
            || field_differs(a, b, 3) || field_differs(a, b, 4) || field_differs(a, b, 5));
    }
}

// ============================================================================
// Laws of layering
// ============================================================================

/// The default configuration passes validation.
pub proof fn lemma_default_config_is_valid()
    ensures
        validation_messages(default_config()).len() == 0,
{
    reveal_strlit("0.0.0.0");
    reveal_strlit("data/maintenance.db");
    reveal_strlit("info");
    assert(eq_ignore_ascii_case_spec("info"@, "info"@));
}

/// Environment variables take priority over configuration files: a set
/// `ME_HOST`, `ME_DATABASE_PATH` or `ME_LOG_LEVEL`, and a set port variable
/// that parses, decide the value whatever the file held.
pub proof fn lemma_env_overrides_file(c: ConfigView, t: TomlSettingsView, e: EnvOverrides)
    requires
        apply_toml(c, t) is Ok,
    ensures
        ({
            let layered = apply_env(apply_toml(c, t)->Ok_0, e);
            &&& e.host matches Some(h) ==> layered.host == h@
            &&& e.database_path matches Some(d) ==> layered.database_path == d@
            &&& e.log_level matches Some(l) ==> layered.log_level == l@
            &&& (e.port matches Some(p) && parse_unsigned(p@, 65535) is Some) ==> layered.port
                == parse_unsigned(e.port->0@, 65535)->0
        }),
{
}

/// A later configuration file takes priority over an earlier one: every
/// setting the later file holds as a string decides the host, the
/// database directory and the log level.
pub proof fn lemma_later_file_overrides_earlier(
    c: ConfigView,
    earlier: TomlSettingsView,
    later: TomlSettingsView,
)
    requires
        apply_toml(c, earlier) is Ok,
        apply_toml(apply_toml(c, earlier)->Ok_0, later) is Ok,
    ensures
        ({
            let layered = apply_toml(apply_toml(c, earlier)->Ok_0, later)->Ok_0;
            &&& later.server_host matches TomlFieldView::Text(h) ==> layered.host == h
            &&& later.logging_level matches TomlFieldView::Text(l) ==> layered.log_level == l
            &&& later.database_base_path matches TomlFieldView::Text(d) ==> layered.database_path
                == d + "/maintenance.db"@
        }),
{
}

/// A file holding none of the settings leaves the values unchanged.
pub proof fn lemma_empty_file_changes_nothing(c: ConfigView, t: TomlSettingsView)
    requires
        t.server_host is Absent,
        t.server_port is Absent,
        t.server_grpc_port is Absent,
        t.server_websocket_port is Absent,
        t.server_ws_port is Absent,
        t.database_base_path is Absent,
        t.logging_level is Absent,
    ensures
        apply_toml(c, t) == Ok::<ConfigView, Seq<char>>(c),
{
}

// ============================================================================
// Laws of the detailed report
// ============================================================================

/// Joining a list of at least two parts puts the first part, then the
/// separator, then the rest joined.
pub proof fn lemma_join_front(parts: Seq<Seq<char>>, sep: Seq<char>)
    requires
        parts.len() >= 2,
    ensures
        seq_join(parts, sep) == parts[0] + sep + seq_join(parts.drop_first(), sep),
    decreases parts.len(),
{
    let rest = parts.drop_first();
    if parts.len() == 2 {
        assert(parts.drop_last() =~= seq![parts[0]]);
        assert(rest =~= seq![parts[1]]);
        assert(seq_join(parts.drop_last(), sep) == parts[0]);
        assert(seq_join(rest, sep) == parts[1]);
        assert(parts.last() == parts[1]);
    } else {
        lemma_join_front(parts.drop_last(), sep);
        assert(parts.drop_last().drop_first() =~= rest.drop_last());
        assert(parts.drop_last()[0] == parts[0]);
        assert(rest.last() == parts.last());
        assert(seq_join(parts, sep) =~= parts[0] + sep + seq_join(rest, sep));
    }
}

proof fn lemma_split_nonempty(s: Seq<char>, start: int, i: int)
    ensures
        split_pieces_from(s, start, i).len() >= 1,
    decreases s.len() - i,
{
    if i + 2 <= s.len() {
        lemma_split_nonempty(s, i + 2, i + 2);
        lemma_split_nonempty(s, start, i + 1);
    }
}

proof fn lemma_split_then_join_from(s: Seq<char>, start: int, i: int)
    requires
        0 <= start <= i <= s.len(),
    ensures
        seq_join(split_pieces_from(s, start, i), "; "@) == s.subrange(start, s.len() as int),
    decreases s.len() - i,
{
    reveal_strlit("; ");
    if i + 2 > s.len() {
    } else if s[i] == ';' && s[i + 1] == ' ' {
        let rest = split_pieces_from(s, i + 2, i + 2);
        lemma_split_then_join_from(s, i + 2, i + 2);
        lemma_split_nonempty(s, i + 2, i + 2);
        let pieces = seq![s.subrange(start, i)] + rest;
        if rest.len() >= 1 {
            lemma_join_front(pieces, "; "@);
            assert(pieces.drop_first() =~= rest);
        }
        assert(s.subrange(start, s.len() as int) =~= s.subrange(start, i) + "; "@ + s.subrange(
            i + 2,
            s.len() as int,
        ));
    } else {
        lemma_split_then_join_from(s, start, i + 1);
    }
}

/// Splitting a text at every `"; "` and joining the pieces with `"; "`
/// gives the text back.
pub proof fn lemma_split_then_join(s: Seq<char>)
    ensures
        seq_join(split_pieces(s), "; "@) == s,
{
    lemma_split_then_join_from(s, 0, 0);
    assert(s.subrange(0, s.len() as int) =~= s);
}

/// The detailed report loses nothing: the messages of its entries, joined
/// with `"; "`, are the text of the validation error.
pub proof fn lemma_report_messages_rejoin(c: ConfigView)
    requires
        validation_messages(c).len() > 0,
    ensures
        seq_join(
            validation_report_spec(c).errors.map_values(|e: ValidationEntry| e.message),
            "; "@,
        ) == seq_join(validation_messages(c), "; "@),
{
    let text = seq_join(validation_messages(c), "; "@);
    let pieces = split_pieces(text);
    lemma_split_then_join(text);
    assert(validation_report_spec(c).errors.map_values(|e: ValidationEntry| e.message) =~= pieces);
}


// ============================================================================
// Laws of validation, overrides and change reports
// ============================================================================

/// Every part of a joined text occurs in it.
proof fn lemma_join_contains_part(parts: Seq<Seq<char>>, sep: Seq<char>, i: int)
    requires
        0 <= i < parts.len(),
    ensures
        seq_contains(seq_join(parts, sep), parts[i]),
    decreases parts.len(),
{
    let j = seq_join(parts, sep);
    if parts.len() == 1 {
        assert(j.subrange(0, parts[i].len() as int) =~= parts[i]);
        assert(occurs_at(j, parts[i], 0));
    } else {
        let front = seq_join(parts.drop_last(), sep);
        assert(j == front + sep + parts.last());
        if i == parts.len() - 1 {
            let k: int = (front.len() + sep.len()) as int;
            assert(j.subrange(k, k + parts[i].len()) =~= parts[i]);
            assert(occurs_at(j, parts[i], k));
        } else {
            assert(parts.drop_last()[i] == parts[i]);
            lemma_join_contains_part(parts.drop_last(), sep, i);
            let k = choose|k: int| occurs_at(front, parts[i], k);
            assert(j.subrange(k, k + parts[i].len()) =~= front.subrange(k, k + parts[i].len()));
            assert(occurs_at(j, parts[i], k));
        }
    }
}

/// A message listed among the violations is part of the validation error.
proof fn lemma_violation_reported(c: ConfigView, r: Result<()>, k: int)
    requires
        validation_outcome(c, r),
        0 <= k < validation_messages(c).len(),
    ensures
        r matches Err(Error::Validation(m)) && seq_contains(m@, validation_messages(c)[k]),
{
    lemma_join_contains_part(validation_messages(c), "; "@, k);
}

/// Two of the three ports that are equal and non-zero make validation
/// fail, and the error names the two ports and the port number:
/// `"<a> and <b> cannot use the same port <p>"`.
pub proof fn lemma_equal_ports_rejected(c: ConfigView, r: Result<()>)
    requires
        validation_outcome(c, r),
    ensures
        c.port != 0 && c.port == c.grpc_port ==> (r matches Err(Error::Validation(m))
            && seq_contains(m@, "port and grpc_port cannot use the same port "@ + decimal(c.port as nat))),
        c.port != 0 && c.port == c.ws_port ==> (r matches Err(Error::Validation(m))
            && seq_contains(m@, "port and ws_port cannot use the same port "@ + decimal(c.port as nat))),
        c.grpc_port != 0 && c.grpc_port == c.ws_port ==> (r matches Err(Error::Validation(m))
            && seq_contains(
            m@,
            "grpc_port and ws_port cannot use the same port "@ + decimal(c.grpc_port as nat),
        )),
{
    lemma_conflict_texts(c.port);
    lemma_conflict_texts(c.grpc_port);
    if c.port != 0 && c.port == c.grpc_port {
        lemma_check_named(c, r, 5);
    }
    if c.port != 0 && c.port == c.ws_port {
        lemma_check_named(c, r, 6);
    }
    if c.grpc_port != 0 && c.grpc_port == c.ws_port {
        lemma_check_named(c, r, 7);
    }
}

/// The clash messages spelled out.
proof fn lemma_conflict_texts(p: u16)
    ensures
        conflict_msg("port"@, "grpc_port"@, p) == "port and grpc_port cannot use the same port "@
            + decimal(p as nat),
        conflict_msg("port"@, "ws_port"@, p) == "port and ws_port cannot use the same port "@
            + decimal(p as nat),
        conflict_msg("grpc_port"@, "ws_port"@, p) == "grpc_port and ws_port cannot use the same port "@
            + decimal(p as nat),
{
    reveal_strlit("port");
    reveal_strlit("grpc_port");
    reveal_strlit("ws_port");
    reveal_strlit(" and ");
    reveal_strlit(" cannot use the same port ");
    reveal_strlit("port and grpc_port cannot use the same port ");
    reveal_strlit("port and ws_port cannot use the same port ");
    reveal_strlit("grpc_port and ws_port cannot use the same port ");
    assert(conflict_msg("port"@, "grpc_port"@, p) =~= "port and grpc_port cannot use the same port "@
        + decimal(p as nat));
    assert(conflict_msg("port"@, "ws_port"@, p) =~= "port and ws_port cannot use the same port "@
        + decimal(p as nat));
    assert(conflict_msg("grpc_port"@, "ws_port"@, p)
        =~= "grpc_port and ws_port cannot use the same port "@ + decimal(p as nat));
}

/// Validation succeeds exactly when the host and the database path are
/// non-empty, every port is non-zero, no two ports are equal, and the log
/// level is one of the five names.
pub proof fn lemma_validation_succeeds_iff_sound(c: ConfigView, r: Result<()>)
    requires
        validation_outcome(c, r),
    ensures
        r is Ok <==> (c.host.len() > 0 && c.port != 0 && c.grpc_port != 0 && c.ws_port != 0
            && c.port != c.grpc_port && c.port != c.ws_port && c.grpc_port != c.ws_port
            && valid_log_level(c.log_level) && c.database_path.len() > 0),
{
    let msgs = validation_messages(c);
    assert(msgs.len() == (if c.host.len() == 0 { 1int } else { 0 }) + (if c.port == 0 { 1int } else { 0 })
        + (if c.grpc_port == 0 { 1int } else { 0 }) + (if c.ws_port == 0 { 1int } else { 0 })
        + (if c.port != 0 && c.port == c.grpc_port { 1int } else { 0 })
        + (if c.port != 0 && c.port == c.ws_port { 1int } else { 0 })
        + (if c.grpc_port != 0 && c.grpc_port == c.ws_port { 1int } else { 0 })
        + (if !valid_log_level(c.log_level) { 1int } else { 0 })
        + (if c.database_path.len() == 0 { 1int } else { 0 }));
}

/// The `k`-th check (1 to 9, in the order checked) that fails is listed
/// among the violations.
proof fn lemma_check_listed(c: ConfigView, k: int)
    requires
        1 <= k <= 9,
        k == 1 ==> c.host.len() == 0,
        k == 2 ==> c.port == 0,
        k == 3 ==> c.grpc_port == 0,
        k == 4 ==> c.ws_port == 0,
        k == 5 ==> c.port != 0 && c.port == c.grpc_port,
        k == 6 ==> c.port != 0 && c.port == c.ws_port,
        k == 7 ==> c.grpc_port != 0 && c.grpc_port == c.ws_port,
        k == 8 ==> !valid_log_level(c.log_level),
        k == 9 ==> c.database_path.len() == 0,
    ensures
        k == 1 ==> validation_messages(c).contains("host cannot be empty"@),
        k == 2 ==> validation_messages(c).contains("port cannot be zero"@),
        k == 3 ==> validation_messages(c).contains("grpc_port cannot be zero"@),
        k == 4 ==> validation_messages(c).contains("ws_port cannot be zero"@),
        k == 5 ==> validation_messages(c).contains(conflict_msg("port"@, "grpc_port"@, c.port)),
        k == 6 ==> validation_messages(c).contains(conflict_msg("port"@, "ws_port"@, c.port)),
        k == 7 ==> validation_messages(c).contains(conflict_msg("grpc_port"@, "ws_port"@, c.grpc_port)),
        k == 8 ==> validation_messages(c).contains("invalid log_level '"@ + c.log_level + "', must be one of: trace, debug, info, warn, error"@),
        k == 9 ==> validation_messages(c).contains("database_path cannot be empty"@),
{
    let msgs = validation_messages(c);
    if k == 1 {
        assert(msgs[(Seq::<Seq<char>>::empty()).len() as int] == "host cannot be empty"@);
    }
    if k == 2 {
        assert(msgs[(msg_if(c.host.len() == 0, "host cannot be empty"@)).len() as int] == "port cannot be zero"@);
    }
    if k == 3 {
        assert(msgs[(msg_if(c.host.len() == 0, "host cannot be empty"@) + msg_if(c.port == 0, "port cannot be zero"@)).len() as int] == "grpc_port cannot be zero"@);
    }
    if k == 4 {
        assert(msgs[(msg_if(c.host.len() == 0, "host cannot be empty"@) + msg_if(c.port == 0, "port cannot be zero"@) + msg_if(c.grpc_port == 0, "grpc_port cannot be zero"@)).len() as int] == "ws_port cannot be zero"@);
    }
    if k == 5 {
        assert(msgs[(msg_if(c.host.len() == 0, "host cannot be empty"@) + msg_if(c.port == 0, "port cannot be zero"@) + msg_if(c.grpc_port == 0, "grpc_port cannot be zero"@) + msg_if(c.ws_port == 0, "ws_port cannot be zero"@)).len() as int] == conflict_msg("port"@, "grpc_port"@, c.port));
    }
    if k == 6 {
        assert(msgs[(msg_if(c.host.len() == 0, "host cannot be empty"@) + msg_if(c.port == 0, "port cannot be zero"@) + msg_if(c.grpc_port == 0, "grpc_port cannot be zero"@) + msg_if(c.ws_port == 0, "ws_port cannot be zero"@) + msg_if(c.port != 0 && c.port == c.grpc_port, conflict_msg("port"@, "grpc_port"@, c.port))).len() as int] == conflict_msg("port"@, "ws_port"@, c.port));
    }
    if k == 7 {
        assert(msgs[(msg_if(c.host.len() == 0, "host cannot be empty"@) + msg_if(c.port == 0, "port cannot be zero"@) + msg_if(c.grpc_port == 0, "grpc_port cannot be zero"@) + msg_if(c.ws_port == 0, "ws_port cannot be zero"@) + msg_if(c.port != 0 && c.port == c.grpc_port, conflict_msg("port"@, "grpc_port"@, c.port)) + msg_if(c.port != 0 && c.port == c.ws_port, conflict_msg("port"@, "ws_port"@, c.port))).len() as int] == conflict_msg("grpc_port"@, "ws_port"@, c.grpc_port));
    }
    if k == 8 {
        assert(msgs[(msg_if(c.host.len() == 0, "host cannot be empty"@) + msg_if(c.port == 0, "port cannot be zero"@) + msg_if(c.grpc_port == 0, "grpc_port cannot be zero"@) + msg_if(c.ws_port == 0, "ws_port cannot be zero"@) + msg_if(c.port != 0 && c.port == c.grpc_port, conflict_msg("port"@, "grpc_port"@, c.port)) + msg_if(c.port != 0 && c.port == c.ws_port, conflict_msg("port"@, "ws_port"@, c.port)) + msg_if(c.grpc_port != 0 && c.grpc_port == c.ws_port, conflict_msg("grpc_port"@, "ws_port"@, c.grpc_port))).len() as int] == "invalid log_level '"@ + c.log_level + "', must be one of: trace, debug, info, warn, error"@);
    }
    if k == 9 {
        assert(msgs[(msg_if(c.host.len() == 0, "host cannot be empty"@) + msg_if(c.port == 0, "port cannot be zero"@) + msg_if(c.grpc_port == 0, "grpc_port cannot be zero"@) + msg_if(c.ws_port == 0, "ws_port cannot be zero"@) + msg_if(c.port != 0 && c.port == c.grpc_port, conflict_msg("port"@, "grpc_port"@, c.port)) + msg_if(c.port != 0 && c.port == c.ws_port, conflict_msg("port"@, "ws_port"@, c.port)) + msg_if(c.grpc_port != 0 && c.grpc_port == c.ws_port, conflict_msg("grpc_port"@, "ws_port"@, c.grpc_port)) + msg_if(!valid_log_level(c.log_level), "invalid log_level '"@ + c.log_level + "', must be one of: trace, debug, info, warn, error"@)).len() as int] == "database_path cannot be empty"@);
    }
}

/// The `k`-th check (1 to 9, in the order checked) that fails is named in
/// the validation error.
proof fn lemma_check_named(c: ConfigView, r: Result<()>, k: int)
    requires
        validation_outcome(c, r),
        1 <= k <= 9,
        k == 1 ==> c.host.len() == 0,
        k == 2 ==> c.port == 0,
        k == 3 ==> c.grpc_port == 0,
        k == 4 ==> c.ws_port == 0,
        k == 5 ==> c.port != 0 && c.port == c.grpc_port,
        k == 6 ==> c.port != 0 && c.port == c.ws_port,
        k == 7 ==> c.grpc_port != 0 && c.grpc_port == c.ws_port,
        k == 8 ==> !valid_log_level(c.log_level),
        k == 9 ==> c.database_path.len() == 0,
    ensures
        k == 1 ==> (r matches Err(Error::Validation(m)) && seq_contains(m@, "host cannot be empty"@)),
        k == 2 ==> (r matches Err(Error::Validation(m)) && seq_contains(m@, "port cannot be zero"@)),
        k == 3 ==> (r matches Err(Error::Validation(m)) && seq_contains(m@, "grpc_port cannot be zero"@)),
        k == 4 ==> (r matches Err(Error::Validation(m)) && seq_contains(m@, "ws_port cannot be zero"@)),
        k == 5 ==> (r matches Err(Error::Validation(m)) && seq_contains(m@, conflict_msg("port"@, "grpc_port"@, c.port))),
        k == 6 ==> (r matches Err(Error::Validation(m)) && seq_contains(m@, conflict_msg("port"@, "ws_port"@, c.port))),
        k == 7 ==> (r matches Err(Error::Validation(m)) && seq_contains(m@, conflict_msg("grpc_port"@, "ws_port"@, c.grpc_port))),
        k == 8 ==> (r matches Err(Error::Validation(m)) && seq_contains(m@, "invalid log_level '"@ + c.log_level + "', must be one of: trace, debug, info, warn, error"@)),
        k == 9 ==> (r matches Err(Error::Validation(m)) && seq_contains(m@, "database_path cannot be empty"@)),
{
    lemma_check_listed(c, k);
    let msgs = validation_messages(c);
    if k == 1 {
        let i = choose|i: int| 0 <= i < msgs.len() && msgs[i] == "host cannot be empty"@;
        lemma_violation_reported(c, r, i);
    }
    if k == 2 {
        let i = choose|i: int| 0 <= i < msgs.len() && msgs[i] == "port cannot be zero"@;
        lemma_violation_reported(c, r, i);
    }
    if k == 3 {
        let i = choose|i: int| 0 <= i < msgs.len() && msgs[i] == "grpc_port cannot be zero"@;
        lemma_violation_reported(c, r, i);
    }
    if k == 4 {
        let i = choose|i: int| 0 <= i < msgs.len() && msgs[i] == "ws_port cannot be zero"@;
        lemma_violation_reported(c, r, i);
    }
    if k == 5 {
        let i = choose|i: int| 0 <= i < msgs.len() && msgs[i] == conflict_msg("port"@, "grpc_port"@, c.port);
        lemma_violation_reported(c, r, i);
    }
    if k == 6 {
        let i = choose|i: int| 0 <= i < msgs.len() && msgs[i] == conflict_msg("port"@, "ws_port"@, c.port);
        lemma_violation_reported(c, r, i);
    }
    if k == 7 {
        let i = choose|i: int| 0 <= i < msgs.len() && msgs[i] == conflict_msg("grpc_port"@, "ws_port"@, c.grpc_port);
        lemma_violation_reported(c, r, i);
    }
    if k == 8 {
        let i = choose|i: int| 0 <= i < msgs.len() && msgs[i] == "invalid log_level '"@ + c.log_level + "', must be one of: trace, debug, info, warn, error"@;
        lemma_violation_reported(c, r, i);
    }
    if k == 9 {
        let i = choose|i: int| 0 <= i < msgs.len() && msgs[i] == "database_path cannot be empty"@;
        lemma_violation_reported(c, r, i);
    }
}

/// Each violation other than a port clash is named in the validation
/// error: an empty host, a zero port, an unknown log level (quoted) or an
/// empty database path.
pub proof fn lemma_violations_named(c: ConfigView, r: Result<()>)
    requires
        validation_outcome(c, r),
    ensures
        c.host.len() == 0 ==> (r matches Err(Error::Validation(m)) && seq_contains(
            m@,
            "host cannot be empty"@,
        )),
        c.port == 0 ==> (r matches Err(Error::Validation(m)) && seq_contains(
            m@,
            "port cannot be zero"@,
        )),
        c.grpc_port == 0 ==> (r matches Err(Error::Validation(m)) && seq_contains(
            m@,
            "grpc_port cannot be zero"@,
        )),
        c.ws_port == 0 ==> (r matches Err(Error::Validation(m)) && seq_contains(
            m@,
            "ws_port cannot be zero"@,
        )),
        !valid_log_level(c.log_level) ==> (r matches Err(Error::Validation(m)) && seq_contains(
            m@,
            "invalid log_level '"@ + c.log_level + "'"@,
        )),
        c.database_path.len() == 0 ==> (r matches Err(Error::Validation(m)) && seq_contains(
            m@,
            "database_path cannot be empty"@,
        )),
{
    if c.host.len() == 0 {
        lemma_check_named(c, r, 1);
    }
    if c.port == 0 {
        lemma_check_named(c, r, 2);
    }
    if c.grpc_port == 0 {
        lemma_check_named(c, r, 3);
    }
    if c.ws_port == 0 {
        lemma_check_named(c, r, 4);
    }
    if !valid_log_level(c.log_level) {
        lemma_check_named(c, r, 8);
        lemma_quoted_level_in_message(r->Err_0->Validation_0@, c.log_level);
    }
    if c.database_path.len() == 0 {
        lemma_check_named(c, r, 9);
    }
}

/// Where the message about an unknown level occurs, the quoted level does.
proof fn lemma_quoted_level_in_message(m: Seq<char>, level: Seq<char>)
    requires
        seq_contains(
            m,
            "invalid log_level '"@ + level + "', must be one of: trace, debug, info, warn, error"@,
        ),
    ensures
        seq_contains(m, "invalid log_level '"@ + level + "'"@),
{
    let full = "invalid log_level '"@ + level + "', must be one of: trace, debug, info, warn, error"@;
    let q = "invalid log_level '"@ + level + "'"@;
    reveal_strlit("', must be one of: trace, debug, info, warn, error");
    reveal_strlit("'");
    assert(full.subrange(0, q.len() as int) =~= q);
    let i = choose|i: int| occurs_at(m, full, i);
    assert(m.subrange(i, i + q.len()) =~= full.subrange(0, q.len() as int));
    assert(occurs_at(m, q, i));
}

/// Environment overrides: a set port that reads as a `u16` in decimal
/// replaces its field, one that does not leaves the field as it was, and a
/// set text replaces its field; what is not set stays.
pub proof fn lemma_env_values_replace_fields(c: ConfigView, e: EnvOverrides)
    ensures
        e.port matches Some(p) ==> (parse_unsigned(p@, 65535) matches Some(v) ==> apply_env(
            c,
            e,
        ).port == v),
        e.grpc_port matches Some(p) ==> (parse_unsigned(p@, 65535) matches Some(v) ==> apply_env(
            c,
            e,
        ).grpc_port == v),
        e.ws_port matches Some(p) ==> (parse_unsigned(p@, 65535) matches Some(v) ==> apply_env(
            c,
            e,
        ).ws_port == v),
        e.port matches Some(p) ==> (parse_unsigned(p@, 65535) is None ==> apply_env(c, e).port
            == c.port),
        e.grpc_port matches Some(p) ==> (parse_unsigned(p@, 65535) is None ==> apply_env(
            c,
            e,
        ).grpc_port == c.grpc_port),
        e.ws_port matches Some(p) ==> (parse_unsigned(p@, 65535) is None ==> apply_env(
            c,
            e,
        ).ws_port == c.ws_port),
        e.port is None ==> apply_env(c, e).port == c.port,
        e.grpc_port is None ==> apply_env(c, e).grpc_port == c.grpc_port,
        e.ws_port is None ==> apply_env(c, e).ws_port == c.ws_port,
        e.host matches Some(h) ==> apply_env(c, e).host == h@,
        e.database_path matches Some(d) ==> apply_env(c, e).database_path == d@,
        e.log_level matches Some(l) ==> apply_env(c, e).log_level == l@,
        e.host is None ==> apply_env(c, e).host == c.host,
        e.database_path is None ==> apply_env(c, e).database_path == c.database_path,
        e.log_level is None ==> apply_env(c, e).log_level == c.log_level,
{
    lemma_parsed_port_fits(e.port);
    lemma_parsed_port_fits(e.grpc_port);
    lemma_parsed_port_fits(e.ws_port);
}

proof fn lemma_parsed_port_fits(v: Option<String>)
    ensures
        v matches Some(p) ==> (parse_unsigned(p@, 65535) matches Some(n) ==> n <= 65535 && (n as u16)
            == n),
{
    if let Some(p) = v {
        if let Some(n) = parse_unsigned(p@, 65535) {
            assert(n <= 65535);
            assert((n as u16) == n);
        }
    }
}

/// The field indices listed as changed are those below `n` whose values
/// differ.
proof fn lemma_changed_fields_members(a: ConfigView, b: ConfigView, n: nat)
    ensures
        forall|j: int| #[trigger]
            changed_fields(a, b, n).contains(j) <==> 0 <= j < n && field_differs(a, b, j),
        forall|k: int|
            0 <= k < changed_fields(a, b, n).len() ==> 0 <= #[trigger] changed_fields(a, b, n)[k]
                < n,
    decreases n,
{
    if n > 0 {
        lemma_changed_fields_members(a, b, (n - 1) as nat);
        let rest = changed_fields(a, b, (n - 1) as nat);
        if field_differs(a, b, n - 1) {
            assert forall|j: int| #[trigger]
                changed_fields(a, b, n).contains(j) <==> 0 <= j < n && field_differs(a, b, j) by {
                if j == n - 1 {
                    assert(changed_fields(a, b, n)[rest.len() as int] == j);
                }
                if changed_fields(a, b, n).contains(j) && j != n - 1 {
                    let k = choose|k: int|
                        0 <= k < changed_fields(a, b, n).len() && changed_fields(a, b, n)[k] == j;
                    assert(rest[k] == j);
                }
                if rest.contains(j) {
                    let k = choose|k: int| 0 <= k < rest.len() && rest[k] == j;
                    assert(changed_fields(a, b, n)[k] == j);
                }
            }
        }
    }
}

/// The change report between `a` and `b` lists a field exactly when its
/// value differs, and each reported pair holds the value of the field its
/// key names: the text of `host`, `database_path` and `log_level`, the
/// decimal of the ports; previous values from `a`, new ones from `b`.
pub proof fn lemma_changes_report_field_values(a: ConfigView, b: ConfigView)
    ensures
        config_diff(a, b).keys.contains("host"@) <==> a.host != b.host,
        config_diff(a, b).keys.contains("port"@) <==> a.port != b.port,
        config_diff(a, b).keys.contains("grpc_port"@) <==> a.grpc_port != b.grpc_port,
        config_diff(a, b).keys.contains("ws_port"@) <==> a.ws_port != b.ws_port,
        config_diff(a, b).keys.contains("database_path"@) <==> a.database_path != b.database_path,
        config_diff(a, b).keys.contains("log_level"@) <==> a.log_level != b.log_level,
        forall|k: int| 0 <= k < config_diff(a, b).previous.len() ==> {
            let (key, old_value) = #[trigger] config_diff(a, b).previous[k];
            let new_value = config_diff(a, b).new[k].1;
            &&& config_diff(a, b).new[k].0 == key
            &&& key == "host"@ ==> old_value == a.host && new_value == b.host
            &&& key == "port"@ ==> old_value == decimal(a.port as nat) && new_value == decimal(
                b.port as nat,
            )
            &&& key == "grpc_port"@ ==> old_value == decimal(a.grpc_port as nat) && new_value
                == decimal(b.grpc_port as nat)
            &&& key == "ws_port"@ ==> old_value == decimal(a.ws_port as nat) && new_value
                == decimal(b.ws_port as nat)
            &&& key == "database_path"@ ==> old_value == a.database_path && new_value
                == b.database_path
            &&& key == "log_level"@ ==> old_value == a.log_level && new_value == b.log_level
        },
{
    reveal_strlit("host");
    reveal_strlit("port");
    reveal_strlit("grpc_port");
    reveal_strlit("ws_port");
    reveal_strlit("database_path");
    reveal_strlit("log_level");
    lemma_changed_fields_members(a, b, 6);
    let ch = changed_fields(a, b, 6);
    let d = config_diff(a, b);
    assert forall|i: int, j: int| 0 <= i < 6 && 0 <= j < 6 && config_key(i) == config_key(j) implies i
        == j by {
        if i != j {
            assert(config_key(i).len() != config_key(j).len() || config_key(i)[0] != config_key(j)[0]);
        }
    }
    assert forall|i: int| 0 <= i < 6 implies (#[trigger] d.keys.contains(config_key(i))
        <==> field_differs(a, b, i)) by {
        if field_differs(a, b, i) {
            assert(ch.contains(i));
            let k = choose|k: int| 0 <= k < ch.len() && ch[k] == i;
            assert(d.keys[k] == config_key(i));
        }
        if d.keys.contains(config_key(i)) {
            let k = choose|k: int| 0 <= k < d.keys.len() && d.keys[k] == config_key(i);
            assert(config_key(ch[k]) == config_key(i));
            assert(ch.contains(ch[k]));
        }
    }
    assert(d.keys.contains(config_key(0)) <==> field_differs(a, b, 0));
    assert(d.keys.contains(config_key(1)) <==> field_differs(a, b, 1));
    assert(d.keys.contains(config_key(2)) <==> field_differs(a, b, 2));
    assert(d.keys.contains(config_key(3)) <==> field_differs(a, b, 3));
    assert(d.keys.contains(config_key(4)) <==> field_differs(a, b, 4));
    assert(d.keys.contains(config_key(5)) <==> field_differs(a, b, 5));
    assert forall|k: int| 0 <= k < d.previous.len() implies {
        let (key, old_value) = #[trigger] d.previous[k];
        let new_value = d.new[k].1;
        &&& d.new[k].0 == key
        &&& key == "host"@ ==> old_value == a.host && new_value == b.host
        &&& key == "port"@ ==> old_value == decimal(a.port as nat) && new_value == decimal(
            b.port as nat,
        )
        &&& key == "grpc_port"@ ==> old_value == decimal(a.grpc_port as nat) && new_value
            == decimal(b.grpc_port as nat)
        &&& key == "ws_port"@ ==> old_value == decimal(a.ws_port as nat) && new_value == decimal(
            b.ws_port as nat,
        )
        &&& key == "database_path"@ ==> old_value == a.database_path && new_value
            == b.database_path
        &&& key == "log_level"@ ==> old_value == a.log_level && new_value == b.log_level
    } by {
        let i = ch[k];
        assert(0 <= i < 6);
        assert(d.previous[k] == (config_key(i), config_field(a, i)));
        assert(d.new[k] == (config_key(i), config_field(b, i)));
        assert(config_key(1) == config_key(i) ==> i == 1);
        assert(config_key(0) == config_key(i) ==> i == 0);
        assert(config_key(2) == config_key(i) ==> i == 2);
        assert(config_key(3) == config_key(i) ==> i == 3);
        assert(config_key(4) == config_key(i) ==> i == 4);
        assert(config_key(5) == config_key(i) ==> i == 5);
    }
}

} // verus!
