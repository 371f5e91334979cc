//! The runtime configuration: the user's `config.json` with the network
//! fields that `launcher.toml` governs forced onto it.
use crate::config::arma::ArmaConfig;
use crate::config::json::{
    json_parse, json_pretty, json_tree, member, object_members, parse_depth_limit, pretty_json,
    prints_back, set_member, set_nested_member, with_nested_member, Json, JsonNum, JsonNumber,
    JsonValue,
};
use crate::error::Error;
use crate::config::launcher::Network;
use crate::text::{trim, trimmed};
use vstd::prelude::*;
use vstd::string::*;

verus! {

/// The address every listener binds to.
pub open spec fn any_address() -> Seq<char> {
    "0.0.0.0"@
}

/// A port as a JSON number.
pub open spec fn port_value(port: u16) -> Json {
    Json::Number(JsonNum::PosInt(port as u64))
}

/// `m` with the `address` and `port` of its `key` section forced, where that
/// section is an object; `m` otherwise.
pub open spec fn endpoint_forced(m: Map<Seq<char>, Json>, key: Seq<char>, port: u16) -> Map<
    Seq<char>,
    Json,
> {
    with_nested_member(
        with_nested_member(m, key, "address"@, Json::Str(any_address())),
        key,
        "port"@,
        port_value(port),
    )
}

/// `m` with `publicAddress` set to the trimmed public address, unless that is blank.
pub open spec fn public_forced(m: Map<Seq<char>, Json>, public_address: Seq<char>) -> Map<
    Seq<char>,
    Json,
> {
    if trimmed(public_address).len() > 0 {
        m.insert("publicAddress"@, Json::Str(trimmed(public_address)))
    } else {
        m
    }
}

/// The configuration with the launcher's network settings forced onto it:
/// bind address `0.0.0.0`, bind and public port the game port, the public
/// address where one is configured, and the A2S and RCON sections (where
/// present) bound to `0.0.0.0` on their ports. A configuration that is not an
/// object is left as it is.
pub open spec fn with_overrides(cfg: Json, net: Network) -> Json {
    match cfg {
        Json::Object(m) => {
            let m1 = m.insert("bindAddress"@, Json::Str(any_address())).insert(
                "bindPort"@,
                port_value(net.game_port),
            ).insert("publicPort"@, port_value(net.game_port));
            let m2 = public_forced(m1, net.public_address@);
            Json::Object(
                endpoint_forced(endpoint_forced(m2, "a2s"@, net.a2s_port), "rcon"@, net.rcon_port),
            )
        },
        _ => cfg,
    }
}

/// Force bind addresses to `0.0.0.0` and set ports from `launcher.toml`;
/// `publicAddress` is set iff the configured public address is not blank.
pub fn apply_launcher_overrides(cfg: &mut ArmaConfig, network: &Network)
    ensures
        final(cfg).0@ == with_overrides(old(cfg).0@, *network),
{
    match &mut cfg.0 {
        JsonValue::Object(members) => {
            set_member(members, "bindAddress".to_owned(), JsonValue::Str("0.0.0.0".to_owned()));
            set_member(members, "bindPort".to_owned(), JsonValue::Number(JsonNumber::PosInt(network.game_port as u64)));
            set_member(
                members,
                "publicPort".to_owned(),
                JsonValue::Number(JsonNumber::PosInt(network.game_port as u64)),
            );
            let public = trim(network.public_address.as_str());
            if public.unicode_len() > 0 {
                set_member(members, "publicAddress".to_owned(), JsonValue::Str(public.to_owned()));
            }
            set_nested_member(
                members,
                "a2s",
                "address".to_owned(),
                JsonValue::Str("0.0.0.0".to_owned()),
            );
            set_nested_member(members, "a2s", "port".to_owned(), JsonValue::Number(JsonNumber::PosInt(network.a2s_port as u64)));
            set_nested_member(
                members,
                "rcon",
                "address".to_owned(),
                JsonValue::Str("0.0.0.0".to_owned()),
            );
            set_nested_member(
                members,
                "rcon",
                "port".to_owned(),
                JsonValue::Number(JsonNumber::PosInt(network.rcon_port as u64)),
            );
        },
        _ => {},
    }
}

/// The text of `runtime_config.json`: the configuration pretty-printed.
/// A failure to print is a JSON error carrying the printer's message. A
/// configuration without floats, nested within the parser's limit, is printed
/// in a form that reads back as the same document.
pub fn runtime_config_text(cfg: &ArmaConfig) -> (res: Result<String, Error>)
    ensures
        match json_pretty(json_tree(cfg.0)) {
            Some(t) => res matches Ok(s) && s@ == t,
            None => res matches Err(Error::Json(_)),
        },
        prints_back(cfg.0, parse_depth_limit()) ==> (res matches Ok(s) && json_parse(s@) == Some(
            cfg.0@,
        )),
{
    match pretty_json(&cfg.0) {
        Ok(t) => Ok(t),
        Err(m) => Err(Error::Json(m)),
    }
}

/// The member names that forcing touches are pairwise distinct (they differ in length).
proof fn reveal_network_keys()
    ensures
        "bindAddress"@.len() == 11,
        "bindPort"@.len() == 8,
        "publicPort"@.len() == 10,
        "publicAddress"@.len() == 13,
        "a2s"@.len() == 3,
        "rcon"@.len() == 4,
        "address"@.len() == 7,
        "port"@.len() == 4,
{
    reveal_strlit("bindAddress");
    reveal_strlit("bindPort");
    reveal_strlit("publicPort");
    reveal_strlit("publicAddress");
    reveal_strlit("a2s");
    reveal_strlit("rcon");
    reveal_strlit("address");
    reveal_strlit("port");
}

/// The network members of an endpoint section after forcing: the section is
/// an object exactly when it was one before; then its `address` is `0.0.0.0`,
/// its `port` is `port`, and its other members are as they were.
pub open spec fn endpoint_result(before: Option<Json>, after: Option<Json>, port: u16) -> bool {
    match before {
        Some(Json::Object(sec)) => after == Some(
            Json::Object(
                sec.insert("address"@, Json::Str(any_address())).insert(
                    "port"@,
                    port_value(port),
                ),
            ),
        ),
        _ => after == before,
    }
}

proof fn lemma_endpoint_forced(m: Map<Seq<char>, Json>, key: Seq<char>, port: u16)
    ensures
        ({
            let after = endpoint_forced(m, key, port);
            &&& forall|k: Seq<char>|
                k != key ==> #[trigger] member(Json::Object(after), k) == member(
                    Json::Object(m),
                    k,
                )
            &&& endpoint_result(member(Json::Object(m), key), member(Json::Object(after), key), port)
        }),
{
    reveal_network_keys();
    let after = endpoint_forced(m, key, port);
    let mid = with_nested_member(m, key, "address"@, Json::Str(any_address()));
    if m.contains_key(key) && m[key] is Object {
        let sec = object_members(m[key]);
        assert(mid[key] == Json::Object(sec.insert("address"@, Json::Str(any_address()))));
        assert(after[key] == Json::Object(
            sec.insert("address"@, Json::Str(any_address())).insert("port"@, port_value(port)),
        ));
    }
    assert forall|k: Seq<char>| k != key implies #[trigger] member(Json::Object(after), k) == member(
        Json::Object(m),
        k,
    ) by {
        assert(after.contains_key(k) == m.contains_key(k));
        if m.contains_key(k) {
            assert(after[k] == m[k]);
        }
    }
}

/// What the runtime configuration holds:
/// `bindAddress` is `0.0.0.0`; `bindPort` and `publicPort` are the game port;
/// `publicAddress` is the trimmed public address when that is not blank and is
/// otherwise left as it was; the `a2s` and `rcon` sections, where they are
/// objects, listen on `0.0.0.0` at their ports, and are never created; every
/// other member is left as it was.
pub proof fn lemma_overrides_force_network_fields(cfg: Json, net: Network)
    requires
        cfg is Object,
    ensures
        ({
            let r = with_overrides(cfg, net);
            &&& r is Object
            &&& member(r, "bindAddress"@) == Some(Json::Str(any_address()))
            &&& member(r, "bindPort"@) == Some(port_value(net.game_port))
            &&& member(r, "publicPort"@) == Some(port_value(net.game_port))
            &&& member(r, "publicAddress"@) == (if trimmed(net.public_address@).len() > 0 {
                Some(Json::Str(trimmed(net.public_address@)))
            } else {
                member(cfg, "publicAddress"@)
            })
            &&& endpoint_result(member(cfg, "a2s"@), member(r, "a2s"@), net.a2s_port)
            &&& endpoint_result(member(cfg, "rcon"@), member(r, "rcon"@), net.rcon_port)
            &&& forall|k: Seq<char>|
                k != "bindAddress"@ && k != "bindPort"@ && k != "publicPort"@ && k
                    != "publicAddress"@ && k != "a2s"@ && k != "rcon"@ ==> #[trigger] member(r, k)
                    == member(cfg, k)
        }),
{
    reveal_network_keys();
    let m = object_members(cfg);
    let m1 = m.insert("bindAddress"@, Json::Str(any_address())).insert("bindPort"@, port_value(net.game_port)).insert(
        "publicPort"@,
        port_value(net.game_port),
    );
    let m2 = public_forced(m1, net.public_address@);
    let m3 = endpoint_forced(m2, "a2s"@, net.a2s_port);
    let m4 = endpoint_forced(m3, "rcon"@, net.rcon_port);
    let r = with_overrides(cfg, net);
    assert(r == Json::Object(m4));
    assert(cfg == Json::Object(m));
    lemma_endpoint_forced(m2, "a2s"@, net.a2s_port);
    lemma_endpoint_forced(m3, "rcon"@, net.rcon_port);
    assert(member(Json::Object(m4), "a2s"@) == member(Json::Object(m3), "a2s"@));
    assert(member(Json::Object(m2), "a2s"@) == member(Json::Object(m), "a2s"@));
    assert(member(Json::Object(m3), "rcon"@) == member(Json::Object(m2), "rcon"@));
    assert(member(Json::Object(m2), "rcon"@) == member(Json::Object(m), "rcon"@));
    assert forall|k: Seq<char>|
        k != "bindAddress"@ && k != "bindPort"@ && k != "publicPort"@ && k != "publicAddress"@ && k
            != "a2s"@ && k != "rcon"@ implies #[trigger] member(r, k) == member(cfg, k) by {
        assert(member(Json::Object(m4), k) == member(Json::Object(m3), k));
        assert(member(Json::Object(m3), k) == member(Json::Object(m2), k));
        assert(m2.contains_key(k) == m.contains_key(k));
        if m.contains_key(k) {
            assert(m2[k] == m[k]);
        }
    }
    assert(member(Json::Object(m4), "bindAddress"@) == member(Json::Object(m2), "bindAddress"@));
    assert(member(Json::Object(m4), "bindPort"@) == member(Json::Object(m2), "bindPort"@));
    assert(member(Json::Object(m4), "publicPort"@) == member(Json::Object(m2), "publicPort"@));
    assert(member(Json::Object(m4), "publicAddress"@) == member(
        Json::Object(m2),
        "publicAddress"@,
    ));
}

proof fn lemma_insert_present<K, V>(m: Map<K, V>, k: K, v: V)
    requires
        m.contains_key(k),
        m[k] == v,
    ensures
        m.insert(k, v) == m,
{
    assert(m.insert(k, v) =~= m);
}

/// Forcing an endpoint section that already holds the forced values changes nothing.
proof fn lemma_endpoint_settled(m: Map<Seq<char>, Json>, key: Seq<char>, port: u16)
    requires
        m.contains_key(key) && m[key] is Object ==> {
            &&& member(m[key], "address"@) == Some(Json::Str(any_address()))
            &&& member(m[key], "port"@) == Some(port_value(port))
        },
    ensures
        endpoint_forced(m, key, port) == m,
{
    if m.contains_key(key) && m[key] is Object {
        let sec = object_members(m[key]);
        lemma_insert_present(sec, "address"@, Json::Str(any_address()));
        lemma_insert_present(sec, "port"@, port_value(port));
        assert(Json::Object(sec) == m[key]);
        lemma_insert_present(m, key, Json::Object(sec));
    }
}

/// Forcing the network settings a second time changes nothing: every launch
/// writes the same runtime configuration for the same inputs.
pub proof fn lemma_overrides_idempotent(cfg: Json, net: Network)
    ensures
        with_overrides(with_overrides(cfg, net), net) == with_overrides(cfg, net),
{
    if cfg is Object {
        reveal_network_keys();
        lemma_overrides_force_network_fields(cfg, net);
        let r = with_overrides(cfg, net);
        let rm = object_members(r);
        lemma_insert_present(rm, "bindAddress"@, Json::Str(any_address()));
        lemma_insert_present(rm, "bindPort"@, port_value(net.game_port));
        lemma_insert_present(rm, "publicPort"@, port_value(net.game_port));
        let m1 = rm.insert("bindAddress"@, Json::Str(any_address())).insert(
            "bindPort"@,
            port_value(net.game_port),
        ).insert("publicPort"@, port_value(net.game_port));
        assert(m1 == rm);
        if trimmed(net.public_address@).len() > 0 {
            lemma_insert_present(rm, "publicAddress"@, Json::Str(trimmed(net.public_address@)));
        }
        assert(public_forced(m1, net.public_address@) == rm);
        lemma_endpoint_settled(rm, "a2s"@, net.a2s_port);
        lemma_endpoint_settled(rm, "rcon"@, net.rcon_port);
    }
}

} // verus!
