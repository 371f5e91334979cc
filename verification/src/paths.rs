//! The installation layout, derived from the installation root.
//!
//! Paths are Windows paths held as text; `joined` is how one relative
//! segment is appended to a directory.
use crate::error::Error;
use vstd::prelude::*;
use vstd::string::*;

verus! {

pub open spec fn is_separator(c: char) -> bool {
    c == '\\' || c == '/'
}

/// A bare drive such as `C:`, to which a segment is appended without a separator.
pub open spec fn is_bare_drive(p: Seq<char>) -> bool {
    &&& p.len() == 2
    &&& p[1] == ':'
    &&& ('a' <= p[0] <= 'z' || 'A' <= p[0] <= 'Z')
}

/// `base` with the relative segment `seg` appended.
pub open spec fn joined(base: Seq<char>, seg: Seq<char>) -> Seq<char> {
    if base.len() == 0 || is_separator(base.last()) || is_bare_drive(base) {
        base + seg
    } else {
        base + seq!['\\'] + seg
    }
}

/// The text of `base` with the relative segment `seg` appended.
pub fn join(base: &str, seg: &str) -> (r: String)
    ensures
        r@ == joined(base@, seg@),
{
    let n = base.unicode_len();
    let mut r = base.to_owned();
    if n == 0 {
        r.append(seg);
        return r;
    }
    let last = base.get_char(n - 1);
    let bare_drive = n == 2 && base.get_char(1) == ':' && (('a' <= base.get_char(0) && base.get_char(
        0,
    ) <= 'z') || ('A' <= base.get_char(0) && base.get_char(0) <= 'Z'));
    if !(last == '\\' || last == '/') && !bare_drive {
        proof { reveal_strlit("\\"); }
        r.append("\\");
    }
    r.append(seg);
    r
}

pub open spec fn under(home: Seq<char>, a: &str) -> Seq<char> {
    joined(home, a@)
}

pub open spec fn under2(home: Seq<char>, a: &str, b: &str) -> Seq<char> {
    joined(joined(home, a@), b@)
}

/// Every file and directory the launcher uses, relative to `home`.
#[derive(Debug, Clone)]
pub struct Paths {
    pub home: String,
    pub launcher_toml: String,
    pub config_json: String,
    pub runtime_config: String,
    pub marker: String,
    pub state_dir: String,
    pub logs_dir: String,
    pub steamcmd_dir: String,
    pub steamcmd_exe: String,
    pub server_dir: String,
    pub server_exe: String,
    pub profile_dir: String,
    pub workshop_dir: String,
    pub map_seeding_json: String,
}

/// The layout rooted at `home`.
pub open spec fn layout_of(p: Paths, home: Seq<char>) -> bool {
    &&& p.home@ == home
    &&& p.launcher_toml@ == under(home, "launcher.toml")
    &&& p.config_json@ == under(home, "config.json")
    &&& p.state_dir@ == under(home, "state")
    &&& p.runtime_config@ == under2(home, "state", "runtime_config.json")
    &&& p.marker@ == under2(home, "state", "steamcmd.marker")
    &&& p.logs_dir@ == under(home, "logs")
    &&& p.steamcmd_dir@ == under(home, "steamcmd")
    &&& p.steamcmd_exe@ == under2(home, "steamcmd", "steamcmd.exe")
    &&& p.server_dir@ == under(home, "server")
    &&& p.server_exe@ == under2(home, "server", "ArmaReforgerServer.exe")
    &&& p.profile_dir@ == under(home, "profile")
    &&& p.workshop_dir@ == under(home, "workshop")
    &&& p.map_seeding_json@ == joined(
        joined(joined(joined(under(home, "profile"), "profile"@), "ArmaField"@), "Systems"@),
        "MapSeeding.json"@,
    )
}

/// Installation roots at least this long (in bytes) risk exceeding `MAX_PATH`
/// in paths the game builds under them.
pub const MAX_PATH_WARN_THRESHOLD: usize = 200;

impl Paths {
    /// Resolve the installation root: `ARMAFIELD_HOME` when it is set and not
    /// empty, otherwise the directory of the running executable.
    pub fn resolve(env_home: Option<String>, exe_dir: Option<String>) -> (res: Result<
        Paths,
        Error,
    >)
        ensures
            match env_home {
                Some(v) if v@.len() > 0 => res matches Ok(p) && layout_of(p, v@),
                _ => match exe_dir {
                    Some(d) => res matches Ok(p) && layout_of(p, d@),
                    None => res matches Err(Error::Config(m)) && m@
                        == "cannot locate ARMAFIELD_HOME or exe directory"@,
                },
            },
    {
        match env_home {
            Some(v) if v.as_str().unicode_len() > 0 => Ok(Self::from_home(v)),
            _ => match exe_dir {
                Some(d) => Ok(Self::from_home(d)),
                None => Err(
                    Error::Config("cannot locate ARMAFIELD_HOME or exe directory".to_owned()),
                ),
            },
        }
    }

    pub fn from_home(home: String) -> (p: Paths)
        ensures
            layout_of(p, home@),
    {
        let h = home.as_str();
        let state_dir = join(h, "state");
        let steamcmd_dir = join(h, "steamcmd");
        let server_dir = join(h, "server");
        let profile_dir = join(h, "profile");
        let seeding_dir = join(
            join(join(profile_dir.as_str(), "profile").as_str(), "ArmaField").as_str(),
            "Systems",
        );
        Paths {
            launcher_toml: join(h, "launcher.toml"),
            config_json: join(h, "config.json"),
            runtime_config: join(state_dir.as_str(), "runtime_config.json"),
            marker: join(state_dir.as_str(), "steamcmd.marker"),
            logs_dir: join(h, "logs"),
            steamcmd_exe: join(steamcmd_dir.as_str(), "steamcmd.exe"),
            server_exe: join(server_dir.as_str(), "ArmaReforgerServer.exe"),
            workshop_dir: join(h, "workshop"),
            map_seeding_json: join(seeding_dir.as_str(), "MapSeeding.json"),
            steamcmd_dir,
            server_dir,
            profile_dir,
            state_dir,
            home,
        }
    }

    /// Whether the installation root is long enough to warn about `MAX_PATH`.
    pub fn home_is_long(&self) -> (r: bool)
        ensures
            r == (vstd::utf8::encode_utf8(self.home@).len() > MAX_PATH_WARN_THRESHOLD),
    {
        self.home.as_str().as_bytes().len() > MAX_PATH_WARN_THRESHOLD
    }
}

} // verus!
