//! Where the price database lives.
use vstd::prelude::*;
use crate::config::DaemonConfig;
use crate::text::{is_blank, join_path, join_path_spec, trim, trimmed};

verus! {

/// The environment variables consulted for the database location:
/// `DB_PATH`, `STATE_DIRECTORY`, `XDG_DATA_HOME` and `HOME`; `None` where a
/// variable is unset or not Unicode.
#[derive(Clone, Debug)]
pub struct PathEnv {
    pub db_path: Option<String>,
    pub state_directory: Option<String>,
    pub xdg_data_home: Option<String>,
    pub home: Option<String>,
}

/// Database location, in order of preference: the configured path; a
/// non-blank `DB_PATH` (trimmed); `data.db` in a non-empty
/// `STATE_DIRECTORY`; `indicator-alert-daemon/data.db` under
/// `XDG_DATA_HOME`; `.local/share/indicator-alert-daemon/data.db` under
/// `HOME`; else `data.db`.
pub open spec fn db_path_spec(config: DaemonConfig, env: PathEnv) -> Seq<char> {
    if config.db_path is Some {
        config.db_path->0@
    } else if env.db_path is Some && trim(env.db_path->0@).len() > 0 {
        trim(env.db_path->0@)
    } else if env.state_directory is Some && env.state_directory->0@.len() > 0 {
        join_path_spec(env.state_directory->0@, "data.db"@)
    } else if env.xdg_data_home is Some {
        join_path_spec(join_path_spec(env.xdg_data_home->0@, "indicator-alert-daemon"@), "data.db"@)
    } else if env.home is Some {
        join_path_spec(
            join_path_spec(env.home->0@, ".local/share/indicator-alert-daemon"@),
            "data.db"@,
        )
    } else {
        "data.db"@
    }
}

/// Picks the database location.
pub fn resolve_db_path(config: &DaemonConfig, env: &PathEnv) -> (r: String)
    ensures
        r@ == db_path_spec(*config, *env),
{
    if let Some(p) = &config.db_path {
        return p.clone();
    }
    if let Some(v) = &env.db_path {
        if !is_blank(v.as_str()) {
            return trimmed(v.as_str());
        }
    }
    if let Some(d) = &env.state_directory {
        if d.as_str().unicode_len() != 0 {
            return join_path(d.as_str(), "data.db");
        }
    }
    if let Some(x) = &env.xdg_data_home {
        let dir = join_path(x.as_str(), "indicator-alert-daemon");
        return join_path(dir.as_str(), "data.db");
    }
    if let Some(h) = &env.home {
        let dir = join_path(h.as_str(), ".local/share/indicator-alert-daemon");
        return join_path(dir.as_str(), "data.db");
    }
    String::from_str("data.db")
}

} // verus!
