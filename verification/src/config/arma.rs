//! The Arma Reforger server configuration (`config.json`), kept open-ended so
//! that new fields in the file do not break loading.
use crate::config::json::{json_parse, member, parse_json, Json, JsonValue};
use crate::config::launcher::FileRead;
use crate::error::Error;
use crate::text::{trim, trimmed};
use vstd::prelude::*;
use vstd::string::*;

verus! {

/// The parsed server configuration.
#[derive(Debug)]
pub struct ArmaConfig(pub JsonValue);

impl ArmaConfig {
    pub fn as_value(&self) -> (v: &JsonValue)
        ensures
            *v == self.0,
    {
        &self.0
    }

    pub fn as_value_mut(&mut self) -> (v: &mut JsonValue)
        ensures
            *v == old(self).0,
            final(self).0 == *final(v),
    {
        &mut self.0
    }
}

/// The `game` section, where the configuration has one that is an object.
pub open spec fn game_of(cfg: Json) -> Option<Map<Seq<char>, Json>> {
    match member(cfg, "game"@) {
        Some(Json::Object(g)) => Some(g),
        _ => None,
    }
}

/// The text of `game.scenarioId`, where it is a string.
pub open spec fn scenario_of(cfg: Json) -> Option<Seq<char>> {
    match game_of(cfg) {
        Some(g) => match member(Json::Object(g), "scenarioId"@) {
            Some(Json::Str(s)) => Some(s),
            _ => None,
        },
        None => None,
    }
}

/// The minimum contract of a server configuration: an object with a `game`
/// object whose `scenarioId` is a string that is not blank.
pub open spec fn valid_user_config(cfg: Json) -> bool {
    scenario_of(cfg) matches Some(s) && trimmed(s).len() > 0
}

/// Check a parsed `config.json` (read from `path`) against the minimum contract.
pub fn check_user_config(path: &str, value: JsonValue) -> (res: Result<ArmaConfig, Error>)
    ensures
        if game_of(value@) is None {
            res matches Err(Error::Config(msg)) && msg@ == path@
                + ": missing or non-object 'game' section"@
        } else if !valid_user_config(value@) {
            res matches Err(Error::Config(msg)) && msg@ == path@
                + ": missing or empty 'game.scenarioId'"@
        } else {
            res == Ok::<ArmaConfig, Error>(ArmaConfig(value))
        },
{
    let game = match value.get("game") {
        Some(g) => match g {
            JsonValue::Object(_) => Some(g),
            _ => None,
        },
        None => None,
    };
    let game = match game {
        Some(g) => g,
        None => {
            let mut msg = path.to_owned();
            msg.append(": missing or non-object 'game' section");
            return Err(Error::Config(msg));
        },
    };
    let scenario_ok = match game.get("scenarioId") {
        Some(JsonValue::Str(s)) => trim(s.as_str()).unicode_len() > 0,
        _ => false,
    };
    if !scenario_ok {
        let mut msg = path.to_owned();
        msg.append(": missing or empty 'game.scenarioId'");
        return Err(Error::Config(msg));
    }
    Ok(ArmaConfig(value))
}

/// Load `config.json` from what reading `path` produced: parse its text as
/// JSON and check it against the minimum contract.
pub fn load_user_config(path: &str, file: FileRead) -> (res: Result<ArmaConfig, Error>)
    ensures
        match file {
            FileRead::Missing => res matches Err(Error::ConfigNotFound(p)) && p@ == path@,
            FileRead::Unreadable(e) => res == Err::<ArmaConfig, Error>(Error::Io(e)),
            FileRead::Text(t) => match json_parse(t@) {
                None => res matches Err(Error::Json(_)),
                Some(v) => if game_of(v) is None {
                    res matches Err(Error::Config(msg)) && msg@ == path@
                        + ": missing or non-object 'game' section"@
                } else if !valid_user_config(v) {
                    res matches Err(Error::Config(msg)) && msg@ == path@
                        + ": missing or empty 'game.scenarioId'"@
                } else {
                    res matches Ok(cfg) && cfg.0@ == v
                },
            },
        },
{
    match file {
        FileRead::Missing => Err(Error::ConfigNotFound(path.to_owned())),
        FileRead::Unreadable(e) => Err(Error::Io(e)),
        FileRead::Text(t) => match parse_json(t.as_str()) {
            Ok(value) => check_user_config(path, value),
            Err(m) => Err(Error::Json(m)),
        },
    }
}

} // verus!
