//! MapSeeding rotation: after each mission the ArmaField mod names the next
//! scenario in `MapSeeding.json`, which overrides `game.scenarioId`.
use crate::config::arma::{game_of, scenario_of, ArmaConfig};
use crate::config::json::{
    json_parse, member, object_members, parse_json, set_nested_member, with_nested_member, Json,
    JsonValue,
};
use crate::config::launcher::FileRead;
use crate::text::{
    ends_with_text, has_char, lemma_trimmed_cut, occurs_at, trim, trim_cut, trimmed,
};
use vstd::prelude::*;

verus! {

/// What applying `MapSeeding.json` did.
#[derive(Debug)]
pub enum SeedingOutcome {
    /// No `MapSeeding.json`; the configured scenario stays.
    FileMissing,
    /// The file could not be read; the configured scenario stays.
    FileUnreadable(std::io::Error),
    /// The file is not valid JSON (the parser's message); the configured scenario stays.
    FileMalformed(String),
    /// `MissionResourceName` is missing, not a string, or blank.
    NameMissing,
    /// `MissionResourceName` (trimmed) does not look like a scenario resource.
    NotAScenario(String),
    /// The configuration has no `game` object to take the mission.
    NoGameSection,
    /// `game.scenarioId` now names this mission.
    Applied(String),
}

/// The trimmed text of `MissionResourceName`, where it is a string.
pub open spec fn seeded_mission(data: Json) -> Option<Seq<char>> {
    match member(data, "MissionResourceName"@) {
        Some(Json::Str(s)) => Some(trimmed(s)),
        _ => None,
    }
}

/// A scenario resource name holds `{` and ends with `.conf`.
pub open spec fn looks_like_scenario(m: Seq<char>) -> bool {
    &&& m.contains('{')
    &&& ".conf"@.len() <= m.len()
    &&& occurs_at(m, ".conf"@, m.len() - ".conf"@.len())
}

/// The configuration with `game.scenarioId` set to `mission`, where there is a
/// `game` object; the configuration itself otherwise.
pub open spec fn with_scenario(cfg: Json, mission: Seq<char>) -> Json {
    match cfg {
        Json::Object(m) => Json::Object(
            with_nested_member(m, "game"@, "scenarioId"@, Json::Str(mission)),
        ),
        _ => cfg,
    }
}

/// What applying the seeding document `data` to the configuration `before`
/// does: the configuration it leaves (`after`) and the outcome it reports.
pub open spec fn seeding_applied(
    before: ArmaConfig,
    data: Json,
    after: ArmaConfig,
    outcome: SeedingOutcome,
) -> bool {
    match seeded_mission(data) {
        Some(mission) if mission.len() > 0 && looks_like_scenario(mission) => {
            &&& after.0@ == with_scenario(before.0@, mission)
            &&& game_of(before.0@) is Some ==> (outcome matches SeedingOutcome::Applied(t) && t@
                == mission)
            &&& game_of(before.0@) is None ==> outcome is NoGameSection
        },
        Some(mission) if mission.len() > 0 => {
            &&& after == before
            &&& outcome matches SeedingOutcome::NotAScenario(t) && t@ == mission
        },
        _ => after == before && outcome is NameMissing,
    }
}

/// Override `game.scenarioId` from a parsed `MapSeeding.json` document.
pub fn apply_seeding_data(cfg: &mut ArmaConfig, data: &JsonValue) -> (outcome: SeedingOutcome)
    ensures
        seeding_applied(*old(cfg), data@, *final(cfg), outcome),
{
    let mission = match data.get("MissionResourceName") {
        Some(JsonValue::Str(s)) => trim(s.as_str()),
        _ => return SeedingOutcome::NameMissing,
    };
    if mission.unicode_len() == 0 {
        return SeedingOutcome::NameMissing;
    }
    if !has_char(mission, '{') || !ends_with_text(mission, ".conf") {
        return SeedingOutcome::NotAScenario(mission.to_owned());
    }
    let applied = match &mut cfg.0 {
        JsonValue::Object(members) => set_nested_member(
            members,
            "game",
            "scenarioId".to_owned(),
            JsonValue::Str(mission.to_owned()),
        ),
        _ => false,
    };
    if applied {
        SeedingOutcome::Applied(mission.to_owned())
    } else {
        SeedingOutcome::NoGameSection
    }
}

/// Override `game.scenarioId` from what reading `MapSeeding.json` produced.
/// Never fails: a missing, unreadable or malformed file, or an unusable
/// mission name, leaves the configuration as it was.
pub fn apply_map_seeding(cfg: &mut ArmaConfig, seeding: FileRead) -> (outcome: SeedingOutcome)
    ensures
        match seeding {
            FileRead::Missing => *final(cfg) == *old(cfg) && outcome is FileMissing,
            FileRead::Unreadable(e) => *final(cfg) == *old(cfg) && outcome
                == SeedingOutcome::FileUnreadable(e),
            FileRead::Text(t) => match json_parse(t@) {
                None => *final(cfg) == *old(cfg) && outcome is FileMalformed,
                Some(data) => seeding_applied(*old(cfg), data, *final(cfg), outcome),
            },
        },
{
    match seeding {
        FileRead::Missing => SeedingOutcome::FileMissing,
        FileRead::Unreadable(e) => SeedingOutcome::FileUnreadable(e),
        FileRead::Text(t) => match parse_json(t.as_str()) {
            Ok(data) => apply_seeding_data(cfg, &data),
            Err(m) => SeedingOutcome::FileMalformed(m),
        },
    }
}

/// A mission name counts as a scenario resource exactly when it holds `{`
/// and ends with `.conf`; nothing else about it (its length, say) matters.
pub proof fn lemma_scenario_names(m: Seq<char>)
    ensures
        looks_like_scenario(m) <==> (m.contains('{') && exists|p: Seq<char>| m == p + ".conf"@),
{
    reveal_strlit(".conf");
    let c = ".conf"@;
    if looks_like_scenario(m) {
        let p = m.subrange(0, m.len() - c.len());
        assert(m =~= p + c);
    }
    if m.contains('{') && exists|p: Seq<char>| m == p + c {
        let p = choose|p: Seq<char>| m == p + c;
        assert(m.subrange(m.len() - c.len(), m.len() as int) =~= c);
    }
}

/// Every mission that, trimmed, holds `{` and ends with `.conf` is applied to a
/// configuration with a `game` section: the outcome names it and
/// `game.scenarioId` becomes it.
pub proof fn lemma_scenario_mission_is_applied(
    before: ArmaConfig,
    data: Json,
    after: ArmaConfig,
    outcome: SeedingOutcome,
    p: Seq<char>,
)
    requires
        seeding_applied(before, data, after, outcome),
        seeded_mission(data) == Some(p + ".conf"@),
        (p + ".conf"@).contains('{'),
        game_of(before.0@) is Some,
    ensures
        outcome matches SeedingOutcome::Applied(t) && t@ == p + ".conf"@,
        scenario_of(after.0@) == Some(p + ".conf"@),
{
    let m = p + ".conf"@;
    lemma_scenario_names(m);
    assert(looks_like_scenario(m));
    assert(m.len() > 0) by {
        reveal_strlit(".conf");
    }
    let cfg = before.0@;
    assert(cfg is Object);
    let mm = object_members(cfg);
    let g = object_members(mm["game"@]);
    assert(after.0@ == Json::Object(
        mm.insert("game"@, Json::Object(g.insert("scenarioId"@, Json::Str(m)))),
    ));
}

/// The mission is the text of `MissionResourceName` with the white space at
/// both ends cut off, and nothing else taken away.
pub proof fn lemma_mission_is_trimmed_name(data: Json, s: Seq<char>)
    requires
        member(data, "MissionResourceName"@) == Some(Json::Str(s)),
    ensures
        seeded_mission(data) matches Some(m) && exists|i: int, j: int|
            trim_cut(s, i, j) && m == s.subrange(i, j),
{
    lemma_trimmed_cut(s);
}

} // verus!
