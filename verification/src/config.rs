//! The settings that the relay runs with.

use vstd::prelude::*;
use vstd::string::StringExecFns;

use crate::error::AppError;

verus! {

/// What the surroundings say about where to connect, before any default
/// is filled in. Each entry may be absent.
#[derive(Debug, Default, PartialEq, Eq)]
pub struct Settings {
    /// The address of the registry's REST interface.
    pub rest_uri: Option<String>,
    /// The bus's bootstrap servers.
    pub bootstrap_servers: Option<String>,
    /// The topic that requests arrive on.
    pub topic: Option<String>,
    /// The topic that responses are published on.
    pub response_topic: Option<String>,
    /// The consumer group of the relay.
    pub group_id: Option<String>,
}

/// The settings of a running relay.
#[derive(Debug, PartialEq, Eq)]
pub struct Config {
    pub rest_uri: String,
    pub bootstrap_servers: String,
    pub topic: String,
    pub response_topic: String,
    pub group_id: String,
}

/// Settings, as a mathematical value.
pub struct ConfigView {
    pub rest_uri: Seq<char>,
    pub bootstrap_servers: Seq<char>,
    pub topic: Seq<char>,
    pub response_topic: Seq<char>,
    pub group_id: Seq<char>,
}

impl View for Config {
    type V = ConfigView;

    open spec fn view(&self) -> ConfigView {
        ConfigView {
            rest_uri: self.rest_uri@,
            bootstrap_servers: self.bootstrap_servers@,
            topic: self.topic@,
            response_topic: self.response_topic@,
            group_id: self.group_id@,
        }
    }
}

/// The entry, or the default where it is absent.
pub open spec fn or_default(entry: Option<String>, default: Seq<char>) -> Seq<char> {
    match entry {
        Some(text) => text@,
        None => default,
    }
}

/// The settings with every default filled in. The response topic and the
/// consumer group are named after the request topic unless they are given.
pub open spec fn resolved(settings: Settings) -> ConfigView
    recommends
        settings.rest_uri is Some,
{
    let topic = or_default(settings.topic, "etl-processor"@);
    ConfigView {
        rest_uri: or_default(settings.rest_uri, Seq::empty()),
        bootstrap_servers: or_default(settings.bootstrap_servers, "kafka:9092"@),
        topic,
        response_topic: or_default(settings.response_topic, topic + "_response"@),
        group_id: or_default(settings.group_id, topic + "_group"@),
    }
}

impl Config {
    /// Fills in the defaults. The registry's address has none: without it
    /// there is no configuration, and the error names the missing entry.
    pub fn resolve(settings: Settings) -> (r: Result<Config, AppError>)
        ensures
            match r {
                Ok(config) => settings.rest_uri is Some && config@ == resolved(settings),
                Err(e) => settings.rest_uri is None && (e matches AppError::MissingConfig(entry)
                    && entry@ == "APP_REST_URI"@),
            },
    {
        let rest_uri = match settings.rest_uri {
            Some(rest_uri) => rest_uri,
            None => {
                return Err(AppError::MissingConfig(String::from_str("APP_REST_URI")));
            },
        };
        let bootstrap_servers = match settings.bootstrap_servers {
            Some(servers) => servers,
            None => String::from_str("kafka:9092"),
        };
        let topic = match settings.topic {
            Some(topic) => topic,
            None => String::from_str("etl-processor"),
        };
        let response_topic = match settings.response_topic {
            Some(response_topic) => response_topic,
            None => topic.clone().concat("_response"),
        };
        let group_id = match settings.group_id {
            Some(group_id) => group_id,
            None => topic.clone().concat("_group"),
        };
        Ok(Config { rest_uri, bootstrap_servers, topic, response_topic, group_id })
    }
}

} // verus!
