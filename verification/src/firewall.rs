//! Windows Firewall rules for the three UDP ports, managed through `netsh`:
//! the rule names, the `netsh` command lines, what `netsh` output means, and
//! what a sequence of `netsh` commands does to the set of rules.
use crate::config::launcher::{Firewall, Network};
use crate::error::Error;
use crate::text::{
    decimal, decimal_text, lemma_parse_trimmed_lower, lower_char_exec, parse_u16,
    ascii_lower, contains_text, occurs_at, parsed_u16, trim, trimmed,
};
use vstd::prelude::*;
use vstd::string::*;

verus! {

#[derive(Debug, Clone, Copy, PartialEq, Eq, Structural)]
pub enum Role {
    Game,
    A2s,
    Rcon,
}

pub open spec fn role_suffix(role: Role) -> Seq<char> {
    match role {
        Role::Game => "GAME"@,
        Role::A2s => "A2S"@,
        Role::Rcon => "RCON"@,
    }
}

pub open spec fn role_port(role: Role, net: Network) -> u16 {
    match role {
        Role::Game => net.game_port,
        Role::A2s => net.a2s_port,
        Role::Rcon => net.rcon_port,
    }
}

impl Role {
    pub fn suffix(self) -> (s: &'static str)
        ensures
            s@ == role_suffix(self),
    {
        match self {
            Role::Game => "GAME",
            Role::A2s => "A2S",
            Role::Rcon => "RCON",
        }
    }

    pub fn port(self, net: &Network) -> (p: u16)
        ensures
            p == role_port(self, *net),
    {
        match self {
            Role::Game => net.game_port,
            Role::A2s => net.a2s_port,
            Role::Rcon => net.rcon_port,
        }
    }

    pub const ALL: [Role; 3] = [Role::Game, Role::A2s, Role::Rcon];
}

/// `"{prefix} {suffix}"`.
pub open spec fn rule_name_of(prefix: Seq<char>, role: Role) -> Seq<char> {
    prefix + " "@ + role_suffix(role)
}

pub fn rule_name(prefix: &str, role: Role) -> (name: String)
    ensures
        name@ == rule_name_of(prefix@, role),
{
    let mut name = prefix.to_owned();
    name.append(" ");
    name.append(role.suffix());
    name
}

/// The three roles never share a rule name, whatever the prefix.
pub proof fn lemma_rule_names_distinct(prefix: Seq<char>, a: Role, b: Role)
    requires
        a != b,
    ensures
        rule_name_of(prefix, a) != rule_name_of(prefix, b),
{
    reveal_strlit("GAME");
    reveal_strlit("A2S");
    reveal_strlit("RCON");
    reveal_strlit(" ");
    let head = prefix + " "@;
    if rule_name_of(prefix, a) == rule_name_of(prefix, b) {
        assert(rule_name_of(prefix, a).subrange(head.len() as int, rule_name_of(prefix, a).len() as int)
            =~= role_suffix(a));
        assert(rule_name_of(prefix, b).subrange(head.len() as int, rule_name_of(prefix, b).len() as int)
            =~= role_suffix(b));
        assert(role_suffix(a)[0] != role_suffix(b)[0] || role_suffix(a).len() != role_suffix(b).len());
    }
}

/// A `netsh advfirewall firewall` operation on a named rule.
#[derive(Debug)]
pub enum NetshCommand {
    Add { name: String, port: u16 },
    Delete { name: String },
    Show { name: String },
}

/// The mathematical view of a `netsh` operation.
pub enum RuleOp {
    Add(Seq<char>, u16),
    Delete(Seq<char>),
    Show(Seq<char>),
}

pub open spec fn op_of(cmd: NetshCommand) -> RuleOp {
    match cmd {
        NetshCommand::Add { name, port } => RuleOp::Add(name@, port),
        NetshCommand::Delete { name } => RuleOp::Delete(name@),
        NetshCommand::Show { name } => RuleOp::Show(name@),
    }
}

pub open spec fn ops_of(cmds: Seq<NetshCommand>) -> Seq<RuleOp> {
    cmds.map_values(|c: NetshCommand| op_of(c))
}

/// The arguments passed to `netsh` for an operation.
pub open spec fn netsh_args_of(op: RuleOp) -> Seq<Seq<char>> {
    match op {
        RuleOp::Add(name, port) => seq![
            "advfirewall"@,
            "firewall"@,
            "add"@,
            "rule"@,
            "name="@ + name,
            "dir=in"@,
            "action=allow"@,
            "protocol=UDP"@,
            "localport="@ + decimal(port as nat),
        ],
        RuleOp::Delete(name) => seq![
            "advfirewall"@,
            "firewall"@,
            "delete"@,
            "rule"@,
            "name="@ + name,
        ],
        RuleOp::Show(name) => seq!["advfirewall"@, "firewall"@, "show"@, "rule"@, "name="@ + name],
    }
}

fn prefixed(head: &str, tail: &str) -> (s: String)
    ensures
        s@ == head@ + tail@,
{
    let mut s = head.to_owned();
    s.append(tail);
    s
}

/// The `netsh` command line for an operation.
pub fn netsh_args(cmd: &NetshCommand) -> (args: Vec<String>)
    ensures
        args@.map_values(|s: String| s@) == netsh_args_of(op_of(*cmd)),
{
    let mut args: Vec<String> = Vec::new();
    args.push("advfirewall".to_owned());
    args.push("firewall".to_owned());
    match cmd {
        NetshCommand::Add { name, port } => {
            args.push("add".to_owned());
            args.push("rule".to_owned());
            args.push(prefixed("name=", name.as_str()));
            args.push("dir=in".to_owned());
            args.push("action=allow".to_owned());
            args.push("protocol=UDP".to_owned());
            let digits = decimal_text(*port as u64);
            args.push(prefixed("localport=", digits.as_str()));
        },
        NetshCommand::Delete { name } => {
            args.push("delete".to_owned());
            args.push("rule".to_owned());
            args.push(prefixed("name=", name.as_str()));
        },
        NetshCommand::Show { name } => {
            args.push("show".to_owned());
            args.push("rule".to_owned());
            args.push(prefixed("name=", name.as_str()));
        },
    }
    assert(args@.map_values(|s: String| s@) =~= netsh_args_of(op_of(*cmd)));
    args
}

/// The operations of `firewall add`: delete all three rules, then add them
/// with the current ports.
pub open spec fn add_plan(prefix: Seq<char>, net: Network) -> Seq<RuleOp> {
    seq![
        RuleOp::Delete(rule_name_of(prefix, Role::Game)),
        RuleOp::Delete(rule_name_of(prefix, Role::A2s)),
        RuleOp::Delete(rule_name_of(prefix, Role::Rcon)),
        RuleOp::Add(rule_name_of(prefix, Role::Game), net.game_port),
        RuleOp::Add(rule_name_of(prefix, Role::A2s), net.a2s_port),
        RuleOp::Add(rule_name_of(prefix, Role::Rcon), net.rcon_port),
    ]
}

/// The operations of `firewall remove`: delete the three rules.
pub open spec fn remove_plan(prefix: Seq<char>) -> Seq<RuleOp> {
    seq![
        RuleOp::Delete(rule_name_of(prefix, Role::Game)),
        RuleOp::Delete(rule_name_of(prefix, Role::A2s)),
        RuleOp::Delete(rule_name_of(prefix, Role::Rcon)),
    ]
}

/// Plan `firewall add`: administrators only; deleting first makes the
/// command idempotent.
pub fn add(fw: &Firewall, net: &Network, admin: bool) -> (res: Result<Vec<NetshCommand>, Error>)
    ensures
        !admin ==> res matches Err(Error::NeedsAdmin),
        admin ==> (res matches Ok(plan) && ops_of(plan@) == add_plan(fw.rule_prefix@, *net)),
{
    if !admin {
        return Err(Error::NeedsAdmin);
    }
    let prefix = fw.rule_prefix.as_str();
    let mut plan: Vec<NetshCommand> = Vec::new();
    plan.push(NetshCommand::Delete { name: rule_name(prefix, Role::Game) });
    plan.push(NetshCommand::Delete { name: rule_name(prefix, Role::A2s) });
    plan.push(NetshCommand::Delete { name: rule_name(prefix, Role::Rcon) });
    plan.push(NetshCommand::Add { name: rule_name(prefix, Role::Game), port: net.game_port });
    plan.push(NetshCommand::Add { name: rule_name(prefix, Role::A2s), port: net.a2s_port });
    plan.push(NetshCommand::Add { name: rule_name(prefix, Role::Rcon), port: net.rcon_port });
    assert(ops_of(plan@) =~= add_plan(fw.rule_prefix@, *net));
    Ok(plan)
}

/// Plan `firewall remove`: administrators only; a rule that is already
/// absent counts as removed.
pub fn remove(fw: &Firewall, admin: bool) -> (res: Result<Vec<NetshCommand>, Error>)
    ensures
        !admin ==> res matches Err(Error::NeedsAdmin),
        admin ==> (res matches Ok(plan) && ops_of(plan@) == remove_plan(fw.rule_prefix@)),
{
    if !admin {
        return Err(Error::NeedsAdmin);
    }
    let prefix = fw.rule_prefix.as_str();
    let mut plan: Vec<NetshCommand> = Vec::new();
    plan.push(NetshCommand::Delete { name: rule_name(prefix, Role::Game) });
    plan.push(NetshCommand::Delete { name: rule_name(prefix, Role::A2s) });
    plan.push(NetshCommand::Delete { name: rule_name(prefix, Role::Rcon) });
    assert(ops_of(plan@) =~= remove_plan(fw.rule_prefix@));
    Ok(plan)
}

/// How a `netsh` invocation ended.
#[derive(Debug)]
pub enum NetshRun {
    /// `netsh` could not be started.
    SpawnFailed(std::io::Error),
    /// `netsh` ran; whether it reported success, and what it wrote to stderr.
    Finished { success: bool, stderr: String },
}

/// Whether a `netsh` invocation fails the command it carried out: only an
/// add can fail, when `netsh` could not be started or reported failure.
pub open spec fn run_fails(cmd: NetshCommand, run: NetshRun) -> bool {
    &&& cmd is Add
    &&& !(run matches NetshRun::Finished { success: true, .. })
}

/// The error that a failed add is reported with: the start-up error where
/// `netsh` could not be started, otherwise the rule's name and what `netsh`
/// wrote to stderr, trimmed.
pub open spec fn failure_error(cmd: NetshCommand, run: NetshRun, e: Error) -> bool {
    match run {
        NetshRun::SpawnFailed(io) => e == Error::Io(io),
        NetshRun::Finished { stderr, .. } => e matches Error::Firewall(m) && m@ == "add rule '"@
            + cmd->Add_name@ + "' failed: "@ + trimmed(stderr@),
    }
}

/// What a `netsh` invocation means for the command being carried out: a
/// failed delete is ignored (the rule may simply be absent); a failed add is
/// an error.
pub fn netsh_outcome(cmd: &NetshCommand, run: NetshRun) -> (res: Result<(), Error>)
    ensures
        run_fails(*cmd, run) ==> (res matches Err(e) && failure_error(*cmd, run, e)),
        !run_fails(*cmd, run) ==> res is Ok,
{
    match cmd {
        NetshCommand::Add { name, .. } => match run {
            NetshRun::SpawnFailed(e) => Err(Error::Io(e)),
            NetshRun::Finished { success, stderr } => {
                if success {
                    Ok(())
                } else {
                    let mut m = "add rule '".to_owned();
                    m.append(name.as_str());
                    m.append("' failed: ");
                    m.append(trim(stderr.as_str()));
                    Err(Error::Firewall(m))
                }
            },
        },
        _ => Ok(()),
    }
}

/// The position of the first line feed at or after `i`, or the length of `s`.
pub open spec fn line_end(s: Seq<char>, i: int) -> int
    decreases s.len() - i,
{
    if i >= s.len() {
        s.len() as int
    } else if s[i] == '\n' {
        i
    } else {
        line_end(s, i + 1)
    }
}

pub proof fn lemma_line_end_bounds(s: Seq<char>, i: int)
    requires
        0 <= i <= s.len(),
    ensures
        i <= line_end(s, i) <= s.len(),
        forall|j: int| i <= j < line_end(s, i) ==> s[j] != '\n',
        line_end(s, i) < s.len() ==> s[line_end(s, i)] == '\n',
    decreases s.len() - i,
{
    if i < s.len() && s[i] != '\n' {
        lemma_line_end_bounds(s, i + 1);
    }
}

/// The port a `netsh show rule` line announces: the line, in lower case,
/// starts with `localport:` and the rest, trimmed, is a 16-bit number.
pub open spec fn line_port(line: Seq<char>) -> Option<u16> {
    let lower = ascii_lower(line);
    if occurs_at(lower, "localport:"@, 0) {
        parsed_u16(trimmed(lower.subrange("localport:"@.len() as int, lower.len() as int)))
    } else {
        None
    }
}

/// The first port announced by the lines of `s` from position `start` on.
/// Lines end at a line feed, which, with a carriage return just before it,
/// is not part of the line; a last line need not end in a line feed (the
/// lines that `str::lines` yields).
pub open spec fn port_in_lines(s: Seq<char>, start: int) -> Option<u16>
    decreases s.len() - start,
{
    if start < 0 || start >= s.len() {
        None
    } else {
        let e = line_end(s, start);
        let piece = s.subrange(start, e);
        let line = if e < s.len() && piece.len() > 0 && piece.last() == '\r' {
            piece.drop_last()
        } else {
            piece
        };
        match line_port(line) {
            Some(p) => Some(p),
            None => if e < s.len() {
                proof {
                    lemma_line_end_bounds(s, start);
                }
                port_in_lines(s, e + 1)
            } else {
                None
            },
        }
    }
}

/// What `netsh show rule` reports of a rule: nothing when `netsh` failed or
/// says that no rule matches; otherwise the first announced port, or 0 when
/// the rule exists but no port could be read.
pub open spec fn shown_rule_port(success: bool, stdout: Seq<char>) -> Option<u16> {
    if !success || exists|at: int| occurs_at(stdout, "No rules match"@, at) {
        None
    } else {
        match port_in_lines(stdout, 0) {
            Some(p) => Some(p),
            None => Some(0),
        }
    }
}

fn line_port_exec(line: &str) -> (r: Option<u16>)
    ensures
        r == line_port(line@),
{
    let key = "localport:";
    proof {
        reveal_strlit("localport:");
    }
    let n = line.unicode_len();
    let m = key.unicode_len();
    let ghost lower = ascii_lower(line@);
    if n < m {
        assert(!occurs_at(lower, key@, 0));
        return None;
    }
    let mut j: usize = 0;
    while j < m
        invariant
            n == line@.len(),
            m == key@.len(),
            m <= n,
            j <= m,
            key@ == "localport:"@,
            lower == ascii_lower(line@),
            forall|k: int| 0 <= k < j ==> lower[k] == key@[k],
        decreases m - j,
    {
        if lower_char_exec(line.get_char(j)) != key.get_char(j) {
            assert(lower.subrange(0, m as int)[j as int] != key@[j as int]);
            return None;
        }
        j = j + 1;
    }
    assert(lower.subrange(0, m as int) =~= key@);
    let rest = line.substring_char(m, n);
    proof {
        assert(lower.subrange(m as int, n as int) =~= ascii_lower(rest@));
        lemma_parse_trimmed_lower(rest@);
    }
    parse_u16(trim(rest))
}

/// Read what `netsh advfirewall firewall show rule` printed about one rule.
pub fn rule_port_from_show(success: bool, stdout: &str) -> (r: Option<u16>)
    ensures
        r == shown_rule_port(success, stdout@),
{
    if !success {
        return None;
    }
    if contains_text(stdout, "No rules match") {
        return None;
    }
    let n = stdout.unicode_len();
    let mut start: usize = 0;
    while start < n
        invariant
            n == stdout@.len(),
            start <= n,
            success,
            !(exists|at: int| occurs_at(stdout@, "No rules match"@, at)),
            port_in_lines(stdout@, 0) == port_in_lines(stdout@, start as int),
        decreases n - start,
    {
        let mut e = start;
        while e < n && stdout.get_char(e) != '\n'
            invariant
                n == stdout@.len(),
                start <= e <= n,
                line_end(stdout@, start as int) == line_end(stdout@, e as int),
            decreases n - e,
        {
            e = e + 1;
        }
        assert(line_end(stdout@, e as int) == e);
        let mut stop = e;
        if e < n && stop > start && stdout.get_char(stop - 1) == '\r' {
            stop = stop - 1;
        }
        let line = stdout.substring_char(start, stop);
        proof {
            let piece = stdout@.subrange(start as int, e as int);
            if stop < e {
                assert(piece.drop_last() =~= line@);
            } else {
                assert(piece =~= line@);
            }
        }
        match line_port_exec(line) {
            Some(p) => {
                return Some(p);
            },
            None => {},
        }
        if e >= n {
            return Some(0);
        }
        start = e + 1;
    }
    Some(0)
}

/// What the supervisor's startup check finds of the launcher's rules.
#[derive(Debug, Clone, Copy, PartialEq, Eq, Structural)]
pub enum RuleCheck {
    /// None of the three rules exists: the firewall is not managed by the launcher.
    NotManaged,
    /// Some rule is missing or allows another port than `launcher.toml` names.
    Mismatched,
    /// All three rules exist with the configured ports.
    InSync,
}

pub open spec fn rule_check(net: Network, game: Option<u16>, a2s: Option<u16>, rcon: Option<u16>) -> RuleCheck {
    if game is None && a2s is None && rcon is None {
        RuleCheck::NotManaged
    } else if game != Some(net.game_port) || a2s != Some(net.a2s_port) || rcon != Some(
        net.rcon_port,
    ) {
        RuleCheck::Mismatched
    } else {
        RuleCheck::InSync
    }
}

/// The port found for a role's rule, among the three found.
pub open spec fn found_for(role: Role, game: Option<u16>, a2s: Option<u16>, rcon: Option<u16>) -> Option<u16> {
    match role {
        Role::Game => game,
        Role::A2s => a2s,
        Role::Rcon => rcon,
    }
}

/// The startup check judges each rule by its own role's port: the rules are in
/// sync exactly when every role's rule allows the port `launcher.toml` names
/// for that role; they are not managed exactly when no rule exists; and a rule
/// that exists with another port than its role's always counts as a mismatch.
pub proof fn lemma_startup_check_judges_every_role(
    net: Network,
    game: Option<u16>,
    a2s: Option<u16>,
    rcon: Option<u16>,
)
    ensures
        rule_check(net, game, a2s, rcon) == RuleCheck::InSync <==> forall|r: Role|
            #[trigger] found_for(r, game, a2s, rcon) == Some(role_port(r, net)),
        rule_check(net, game, a2s, rcon) == RuleCheck::NotManaged <==> forall|r: Role|
            #[trigger] found_for(r, game, a2s, rcon) is None,
        forall|r: Role|
            #[trigger] found_for(r, game, a2s, rcon) is Some && found_for(r, game, a2s, rcon)
                != Some(role_port(r, net)) ==> rule_check(net, game, a2s, rcon)
                == RuleCheck::Mismatched,
{
    assert(found_for(Role::Game, game, a2s, rcon) == game);
    assert(found_for(Role::A2s, game, a2s, rcon) == a2s);
    assert(found_for(Role::Rcon, game, a2s, rcon) == rcon);
    assert(role_port(Role::Game, net) == net.game_port);
    assert(role_port(Role::A2s, net) == net.a2s_port);
    assert(role_port(Role::Rcon, net) == net.rcon_port);
}

/// Judge the ports that the three rules allow (`None` for an absent rule)
/// against `launcher.toml`.
pub fn startup_check(net: &Network, game: Option<u16>, a2s: Option<u16>, rcon: Option<u16>) -> (r:
    RuleCheck)
    ensures
        r == rule_check(*net, game, a2s, rcon),
{
    if game.is_none() && a2s.is_none() && rcon.is_none() {
        return RuleCheck::NotManaged;
    }
    let ok = |found: Option<u16>, want: u16| -> (b: bool)
        ensures
            b == (found == Some(want)),
        {
            match found {
                Some(p) => p == want,
                None => false,
            }
        };
    if !ok(game, net.game_port) || !ok(a2s, net.a2s_port) || !ok(rcon, net.rcon_port) {
        RuleCheck::Mismatched
    } else {
        RuleCheck::InSync
    }
}

/// Where carrying out a plan of `netsh` commands stands.
#[derive(Debug)]
pub enum PlanStep {
    /// Run the command at this position of the plan next.
    Run(usize),
    /// The plan is over: every command was carried out, or one failed and
    /// stopped it.
    Finished(Result<(), Error>),
}

/// The first step of carrying out `plan`: its first command, or the end of an
/// empty plan.
pub fn plan_start(plan: &Vec<NetshCommand>) -> (s: PlanStep)
    ensures
        plan@.len() == 0 ==> s matches PlanStep::Finished(Ok(())),
        plan@.len() > 0 ==> s == PlanStep::Run(0),
{
    if plan.len() == 0 {
        PlanStep::Finished(Ok(()))
    } else {
        PlanStep::Run(0)
    }
}

/// The step after the command at `at` of `plan` ran with `run`: a failed add
/// ends the plan with its error, and no later command runs; otherwise the
/// next command runs, and after the last one the plan ends successfully.
pub fn plan_step(plan: &Vec<NetshCommand>, at: usize, run: NetshRun) -> (s: PlanStep)
    requires
        at < plan@.len(),
    ensures
        run_fails(plan@[at as int], run) ==> (s matches PlanStep::Finished(Err(e)) && failure_error(
            plan@[at as int],
            run,
            e,
        )),
        !run_fails(plan@[at as int], run) && at + 1 < plan@.len() ==> s == PlanStep::Run(
            (at + 1) as usize,
        ),
        !run_fails(plan@[at as int], run) && at + 1 == plan@.len() ==> s matches PlanStep::Finished(
            Ok(()),
        ),
{
    match netsh_outcome(&plan[at], run) {
        Err(e) => PlanStep::Finished(Err(e)),
        Ok(()) => if at < plan.len() - 1 {
            PlanStep::Run(at + 1)
        } else {
            PlanStep::Finished(Ok(()))
        },
    }
}

/// Carrying out the plan of `firewall add`: none of its three deletes can stop
/// it, whatever `netsh` does; only one of its adds can.
pub proof fn lemma_add_plan_stops_only_at_an_add(
    plan: Seq<NetshCommand>,
    prefix: Seq<char>,
    net: Network,
    at: int,
    run: NetshRun,
)
    requires
        ops_of(plan) == add_plan(prefix, net),
        0 <= at < plan.len(),
        run_fails(plan[at], run),
    ensures
        3 <= at,
        op_of(plan[at]) is Add,
{
    assert(ops_of(plan)[at] == op_of(plan[at]));
}

/// Carrying out the plan of `firewall remove` never fails, whatever `netsh` does.
pub proof fn lemma_remove_plan_never_fails(
    plan: Seq<NetshCommand>,
    prefix: Seq<char>,
    at: int,
    run: NetshRun,
)
    requires
        ops_of(plan) == remove_plan(prefix),
        0 <= at < plan.len(),
    ensures
        !run_fails(plan[at], run),
{
    assert(ops_of(plan)[at] == op_of(plan[at]));
    assert(ops_of(plan).len() == plan.len());
    assert(remove_plan(prefix)[0] is Delete && remove_plan(prefix)[1] is Delete && remove_plan(
        prefix,
    )[2] is Delete);
}

/// The queries of the supervisor's startup check: show each of the three
/// rules, in the order game, A2S, RCON. Nothing is added or deleted.
pub open spec fn startup_plan(prefix: Seq<char>) -> Seq<RuleOp> {
    seq![
        RuleOp::Show(rule_name_of(prefix, Role::Game)),
        RuleOp::Show(rule_name_of(prefix, Role::A2s)),
        RuleOp::Show(rule_name_of(prefix, Role::Rcon)),
    ]
}

/// The `netsh` queries that the startup check runs.
pub fn startup_queries(fw: &Firewall) -> (plan: Vec<NetshCommand>)
    ensures
        ops_of(plan@) == startup_plan(fw.rule_prefix@),
{
    let prefix = fw.rule_prefix.as_str();
    let mut plan: Vec<NetshCommand> = Vec::new();
    plan.push(NetshCommand::Show { name: rule_name(prefix, Role::Game) });
    plan.push(NetshCommand::Show { name: rule_name(prefix, Role::A2s) });
    plan.push(NetshCommand::Show { name: rule_name(prefix, Role::Rcon) });
    assert(ops_of(plan@) =~= startup_plan(fw.rule_prefix@));
    plan
}

/// The firewall's rules that concern the launcher, as (name, port) pairs in
/// the order they were created, without those named `name`.
pub open spec fn without_rule(rules: Seq<(Seq<char>, u16)>, name: Seq<char>) -> Seq<
    (Seq<char>, u16),
>
    decreases rules.len(),
{
    if rules.len() == 0 {
        rules
    } else {
        let rest = without_rule(rules.drop_last(), name);
        if rules.last().0 == name {
            rest
        } else {
            rest.push(rules.last())
        }
    }
}

/// What a `netsh` operation does to the rules: `add` creates a rule (netsh
/// allows several rules of one name), `delete` removes every rule of the
/// name, `show` changes nothing.
pub open spec fn apply_op(rules: Seq<(Seq<char>, u16)>, op: RuleOp) -> Seq<(Seq<char>, u16)> {
    match op {
        RuleOp::Add(name, port) => rules.push((name, port)),
        RuleOp::Delete(name) => without_rule(rules, name),
        RuleOp::Show(_) => rules,
    }
}

pub open spec fn apply_ops(rules: Seq<(Seq<char>, u16)>, ops: Seq<RuleOp>) -> Seq<
    (Seq<char>, u16),
>
    decreases ops.len(),
{
    if ops.len() == 0 {
        rules
    } else {
        apply_ops(apply_op(rules, ops[0]), ops.drop_first())
    }
}

pub open spec fn has_no_rule(rules: Seq<(Seq<char>, u16)>, name: Seq<char>) -> bool {
    forall|i: int| 0 <= i < rules.len() ==> #[trigger] rules[i].0 != name
}

proof fn lemma_without_rule_facts(rules: Seq<(Seq<char>, u16)>, name: Seq<char>, other: Seq<char>)
    ensures
        has_no_rule(without_rule(rules, name), name),
        has_no_rule(rules, other) ==> has_no_rule(without_rule(rules, name), other),
        has_no_rule(rules, name) ==> without_rule(rules, name) == rules,
    decreases rules.len(),
{
    if rules.len() > 0 {
        lemma_without_rule_facts(rules.drop_last(), name, other);
        if has_no_rule(rules, name) {
            assert(has_no_rule(rules.drop_last(), name));
            assert(rules.drop_last().push(rules.last()) =~= rules);
        }
        if has_no_rule(rules, other) {
            assert(has_no_rule(rules.drop_last(), other));
        }
    }
}

proof fn lemma_without_rule_push(rules: Seq<(Seq<char>, u16)>, x: (Seq<char>, u16), name: Seq<char>)
    ensures
        without_rule(rules.push(x), name) == if x.0 == name {
            without_rule(rules, name)
        } else {
            without_rule(rules, name).push(x)
        },
{
    assert(rules.push(x).drop_last() =~= rules);
}

/// The launcher's rules other than the three of `prefix`.
pub open spec fn unrelated_rules(rules: Seq<(Seq<char>, u16)>, prefix: Seq<char>) -> Seq<
    (Seq<char>, u16),
> {
    without_rule(
        without_rule(without_rule(rules, rule_name_of(prefix, Role::Game)), rule_name_of(prefix, Role::A2s)),
        rule_name_of(prefix, Role::Rcon),
    )
}

proof fn lemma_unrelated_rules(rules: Seq<(Seq<char>, u16)>, prefix: Seq<char>)
    ensures
        has_no_rule(unrelated_rules(rules, prefix), rule_name_of(prefix, Role::Game)),
        has_no_rule(unrelated_rules(rules, prefix), rule_name_of(prefix, Role::A2s)),
        has_no_rule(unrelated_rules(rules, prefix), rule_name_of(prefix, Role::Rcon)),
{
    let g = rule_name_of(prefix, Role::Game);
    let a = rule_name_of(prefix, Role::A2s);
    let r = rule_name_of(prefix, Role::Rcon);
    let r1 = without_rule(rules, g);
    let r2 = without_rule(r1, a);
    lemma_without_rule_facts(rules, g, g);
    lemma_without_rule_facts(r1, a, g);
    lemma_without_rule_facts(r2, r, g);
    lemma_without_rule_facts(r1, a, a);
    lemma_without_rule_facts(r2, r, a);
    lemma_without_rule_facts(r2, r, r);
}

/// Running `firewall remove` leaves the unrelated rules, and none of the three.
pub proof fn lemma_remove_plan_effect(rules: Seq<(Seq<char>, u16)>, prefix: Seq<char>)
    ensures
        apply_ops(rules, remove_plan(prefix)) == unrelated_rules(rules, prefix),
{
    reveal_with_fuel(apply_ops, 4);
    let p = remove_plan(prefix);
    assert(p.drop_first().drop_first().drop_first() =~= Seq::<RuleOp>::empty());
    assert(apply_ops(rules, p) == apply_ops(apply_op(rules, p[0]), p.drop_first()));
    assert(p.drop_first()[0] == p[1]);
    assert(p.drop_first().drop_first()[0] == p[2]);
}

/// Running `firewall add` leaves the unrelated rules followed by exactly the
/// three rules with the configured ports, whatever rules there were.
pub proof fn lemma_add_plan_effect(rules: Seq<(Seq<char>, u16)>, prefix: Seq<char>, net: Network)
    ensures
        apply_ops(rules, add_plan(prefix, net)) == unrelated_rules(rules, prefix).push(
            (rule_name_of(prefix, Role::Game), net.game_port),
        ).push((rule_name_of(prefix, Role::A2s), net.a2s_port)).push(
            (rule_name_of(prefix, Role::Rcon), net.rcon_port),
        ),
{
    reveal_with_fuel(apply_ops, 7);
    let p = add_plan(prefix, net);
    let p1 = p.drop_first();
    let p2 = p1.drop_first();
    let p3 = p2.drop_first();
    let p4 = p3.drop_first();
    let p5 = p4.drop_first();
    let p6 = p5.drop_first();
    assert(p6 =~= Seq::<RuleOp>::empty());
    assert(p1[0] == p[1] && p2[0] == p[2] && p3[0] == p[3] && p4[0] == p[4] && p5[0] == p[5]);
}

/// `firewall add` is idempotent: running it a
/// second time leaves the same rules as running it once.
pub proof fn lemma_add_idempotent(rules: Seq<(Seq<char>, u16)>, prefix: Seq<char>, net: Network)
    ensures
        apply_ops(apply_ops(rules, add_plan(prefix, net)), add_plan(prefix, net)) == apply_ops(
            rules,
            add_plan(prefix, net),
        ),
{
    let g = rule_name_of(prefix, Role::Game);
    let a = rule_name_of(prefix, Role::A2s);
    let r = rule_name_of(prefix, Role::Rcon);
    lemma_rule_names_distinct(prefix, Role::Game, Role::A2s);
    lemma_rule_names_distinct(prefix, Role::Game, Role::Rcon);
    lemma_rule_names_distinct(prefix, Role::A2s, Role::Rcon);
    let gx = (g, net.game_port);
    let ax = (a, net.a2s_port);
    let rx = (r, net.rcon_port);
    let b = unrelated_rules(rules, prefix);
    lemma_unrelated_rules(rules, prefix);
    lemma_add_plan_effect(rules, prefix, net);
    let once = b.push(gx).push(ax).push(rx);
    lemma_add_plan_effect(once, prefix, net);
    // Deleting the three names from `once` gives back `b`.
    lemma_without_rule_push(b.push(gx).push(ax), rx, g);
    lemma_without_rule_push(b.push(gx), ax, g);
    lemma_without_rule_push(b, gx, g);
    lemma_without_rule_facts(b, g, g);
    let w1 = b.push(ax).push(rx);
    assert(without_rule(once, g) == w1);
    lemma_without_rule_push(b.push(ax), rx, a);
    lemma_without_rule_push(b, ax, a);
    lemma_without_rule_facts(b, a, a);
    let w2 = b.push(rx);
    assert(without_rule(w1, a) == w2);
    lemma_without_rule_push(b, rx, r);
    lemma_without_rule_facts(b, r, r);
    assert(without_rule(w2, r) == b);
    assert(unrelated_rules(once, prefix) == b);
}

} // verus!
