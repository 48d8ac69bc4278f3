//! The server's settings, as the environment gives them.

use crate::ident::{display_id, id_text, is_random_id, random_id};
use crate::text::{decimal, parse_size, parsed_size, parsing_undoes_decimal};
use vstd::prelude::*;

verus! {

/// Where the server listens unless told otherwise.
pub const DEFAULT_BIND_ADDR: &'static str = "0.0.0.0:8080";

/// Where Redis is unless told otherwise.
pub const DEFAULT_REDIS_URL: &'static str = "redis://127.0.0.1:6379/";

/// How many messages are kept for slow sessions unless told otherwise.
pub const DEFAULT_FANOUT_CAPACITY: usize = 65_536;

/// The environment variables that the server reads, where they are set.
pub struct Environment {
    /// `BIND_ADDR`
    pub bind_addr: Option<String>,
    /// `REDIS_URL`
    pub redis_url: Option<String>,
    /// `INSTANCE_ID`
    pub instance_id: Option<String>,
    /// `FANOUT_CAPACITY`
    pub fanout_capacity: Option<String>,
}

/// The server's settings.
pub struct Config {
    pub bind_addr: String,
    pub redis_url: String,
    pub instance_id: String,
    pub fanout_capacity: usize,
}

/// The contents of a `Config`.
pub struct ConfigView {
    pub bind_addr: Seq<char>,
    pub redis_url: Seq<char>,
    pub instance_id: Seq<char>,
    pub fanout_capacity: usize,
}

impl View for Config {
    type V = ConfigView;

    open spec fn view(&self) -> ConfigView {
        ConfigView {
            bind_addr: self.bind_addr@,
            redis_url: self.redis_url@,
            instance_id: self.instance_id@,
            fanout_capacity: self.fanout_capacity,
        }
    }
}

/// The text that a variable gives, or another where it is not set.
pub open spec fn text_or(variable: Option<String>, default: Seq<char>) -> Seq<char> {
    match variable {
        Some(text) => text@,
        None => default,
    }
}

/// The capacity that a variable gives, or the default where it is not set or denotes no size.
pub open spec fn capacity_or_default(variable: Option<String>) -> usize {
    match variable {
        Some(text) => match parsed_size(text@) {
            Some(size) => size,
            None => DEFAULT_FANOUT_CAPACITY,
        },
        None => DEFAULT_FANOUT_CAPACITY,
    }
}

impl Environment {
    /// The settings that the environment gives to an instance that is called so where the
    /// environment does not name it.
    pub open spec fn settings(self, fallback_name: Seq<char>) -> ConfigView {
        ConfigView {
            bind_addr: text_or(self.bind_addr, DEFAULT_BIND_ADDR@),
            redis_url: text_or(self.redis_url, DEFAULT_REDIS_URL@),
            instance_id: text_or(self.instance_id, fallback_name),
            fanout_capacity: capacity_or_default(self.fanout_capacity),
        }
    }
}

/// The text that a variable gives, or a default.
fn resolve_text(variable: Option<String>, default: &str) -> (text: String)
    ensures
        text@ == text_or(variable, default@),
{
    match variable {
        Some(text) => text,
        None => default.to_owned(),
    }
}

/// The capacity that a variable gives, or the default.
fn resolve_capacity(variable: Option<String>) -> (capacity: usize)
    ensures
        capacity == capacity_or_default(variable),
{
    match variable {
        Some(text) => match parse_size(text.as_str()) {
            Some(size) => size,
            None => DEFAULT_FANOUT_CAPACITY,
        },
        None => DEFAULT_FANOUT_CAPACITY,
    }
}

/// The settings of an instance that is called so.
fn settings_with_name(
    bind_addr: Option<String>,
    redis_url: Option<String>,
    instance_id: String,
    fanout_capacity: Option<String>,
) -> (config: Config)
    ensures
        config@ == (Environment {
            bind_addr,
            redis_url,
            instance_id: Some(instance_id),
            fanout_capacity,
        }).settings(Seq::empty()),
{
    Config {
        bind_addr: resolve_text(bind_addr, DEFAULT_BIND_ADDR),
        redis_url: resolve_text(redis_url, DEFAULT_REDIS_URL),
        instance_id,
        fanout_capacity: resolve_capacity(fanout_capacity),
    }
}

/// The settings of an instance that is named after an identifier where the environment does not
/// name it.
pub fn settings_with_id(environment: Environment, id: u128) -> (config: Config)
    ensures
        config@ == environment.settings(id_text(id)),
        environment.bind_addr matches Some(text) ==> config.bind_addr@ == text@,
        environment.bind_addr is None ==> config.bind_addr@ == DEFAULT_BIND_ADDR@,
        environment.redis_url matches Some(text) ==> config.redis_url@ == text@,
        environment.redis_url is None ==> config.redis_url@ == DEFAULT_REDIS_URL@,
        environment.instance_id matches Some(text) ==> config.instance_id@ == text@,
        environment.instance_id is None ==> config.instance_id@ == id_text(id),
{
    let Environment { bind_addr, redis_url, instance_id, fanout_capacity } = environment;
    let name = match instance_id {
        Some(name) => name,
        None => display_id(id),
    };
    settings_with_name(bind_addr, redis_url, name, fanout_capacity)
}

/// The settings that the environment gives. An instance that it does not name, and only that, is
/// named after a random identifier.
pub fn settings(environment: Environment) -> (config: Config)
    ensures
        match environment.instance_id {
            Some(_) => forall|fallback: Seq<char>| config@ == #[trigger] environment.settings(
                fallback,
            ),
            None => exists|id: u128| #[trigger]
                is_random_id(id) && config@ == environment.settings(id_text(id)),
        },
        environment.bind_addr matches Some(text) ==> config.bind_addr@ == text@,
        environment.bind_addr is None ==> config.bind_addr@ == DEFAULT_BIND_ADDR@,
        environment.redis_url matches Some(text) ==> config.redis_url@ == text@,
        environment.redis_url is None ==> config.redis_url@ == DEFAULT_REDIS_URL@,
        environment.instance_id matches Some(text) ==> config.instance_id@ == text@,
{
    let Environment { bind_addr, redis_url, instance_id, fanout_capacity } = environment;
    let name = match instance_id {
        Some(name) => name,
        None => display_id(random_id()),
    };
    settings_with_name(bind_addr, redis_url, name, fanout_capacity)
}

/// Each setting is what its own variable says, whatever that is, and its default where the variable
/// is not set. Only a capacity that is no size counts as not set.
pub proof fn settings_are_what_is_set(
    environment: Environment,
    fallback_name: Seq<char>,
    capacity: usize,
)
    ensures
        ({
            let settings = environment.settings(fallback_name);
            &&& environment.bind_addr matches Some(text) ==> settings.bind_addr == text@
            &&& environment.bind_addr is None ==> settings.bind_addr == "0.0.0.0:8080"@
            &&& environment.redis_url matches Some(text) ==> settings.redis_url == text@
            &&& environment.redis_url is None ==> settings.redis_url
                == "redis://127.0.0.1:6379/"@
            &&& environment.instance_id matches Some(text) ==> settings.instance_id == text@
            &&& environment.instance_id is None ==> settings.instance_id == fallback_name
            &&& environment.fanout_capacity matches Some(text) ==> {
                &&& text@ == decimal(capacity as nat) ==> settings.fanout_capacity == capacity
                &&& parsed_size(text@) == Some(capacity) ==> settings.fanout_capacity == capacity
                &&& parsed_size(text@) is None ==> settings.fanout_capacity == 65_536
            }
            &&& environment.fanout_capacity is None ==> settings.fanout_capacity == 65_536
        }),
{
    parsing_undoes_decimal(capacity);
}

/// The contents of settings are all that they say.
pub proof fn config_view_is_whole(config: Config)
    ensures
        config@.bind_addr == config.bind_addr@,
        config@.redis_url == config.redis_url@,
        config@.instance_id == config.instance_id@,
        config@.fanout_capacity == config.fanout_capacity,
{
}

} // verus!
