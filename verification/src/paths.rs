use vstd::prelude::*;
use vstd::string::*;

verus! {

/// The operating system family, which decides where the application keeps
/// its files.
#[derive(Debug, Clone, Copy, PartialEq, Eq, Structural)]
pub enum Platform {
    MacOs,
    Windows,
    LinuxOrFreeBsd,
    Other,
}

/// The separator that joins path components on a platform.
pub open spec fn separator(p: Platform) -> char {
    if p == Platform::Windows {
        '\\'
    } else {
        '/'
    }
}

/// Whether a character separates path components on a platform.
pub open spec fn is_separator(c: char, p: Platform) -> bool {
    c == '/' || (p == Platform::Windows && c == '\\')
}

/// A relative component joined to a path, as `PathBuf::join` does: an
/// empty base gives the component, a base that ends with a separator gets
/// the component appended, any other base gets a separator and the
/// component.
pub open spec fn join_spec(base: Seq<char>, seg: Seq<char>, p: Platform) -> Seq<char> {
    if base.len() == 0 {
        seg
    } else if is_separator(base.last(), p) {
        base + seg
    } else {
        base.push(separator(p)) + seg
    }
}

/// Joins a relative component to a path (see [`join_spec`]).
pub fn join_path(base: &str, seg: &str, p: Platform) -> (r: String)
    ensures
        r@ == join_spec(base@, seg@, p),
{
    let n = base.unicode_len();
    let mut r = base.to_string();
    if n == 0 {
        r = seg.to_string();
        return r;
    }
    let last = base.get_char(n - 1);
    let at_separator = last == '/' || (p == Platform::Windows && last == '\\');
    if !at_separator {
        let sep = if p == Platform::Windows {
            "\\"
        } else {
            "/"
        };
        proof {
            reveal_strlit("\\");
            reveal_strlit("/");
            assert(sep@ =~= seq![separator(p)]);
        }
        r.append(sep);
    }
    r.append(seg);
    proof {
        assert(r@ =~= join_spec(base@, seg@, p));
    }
    r
}

/// What the directories of the application are derived from: the platform,
/// the home directory, a custom data directory if one was set, the Flatpak
/// variables and the system's standard directories.
#[derive(Debug, Clone)]
pub struct DirInputs {
    pub platform: Platform,
    pub home: String,
    pub custom_data_dir: Option<String>,
    pub flatpak_config_home: Option<String>,
    pub flatpak_data_home: Option<String>,
    pub flatpak_cache_home: Option<String>,
    pub system_config_dir: Option<String>,
    pub system_data_local_dir: Option<String>,
    pub system_cache_dir: Option<String>,
}

/// Where the configuration lives: `<custom>/config`; on Windows the
/// system's configuration directory with `Yunara`; on Linux and FreeBSD the
/// Flatpak (or else the system) configuration directory with `yunara`;
/// elsewhere `~/.config/yunara`.
pub open spec fn config_dir_spec(i: DirInputs) -> Seq<char> {
    let p = i.platform;
    match i.custom_data_dir {
        Some(c) => join_spec(c@, "config"@, p),
        None => if p == Platform::Windows {
            join_spec(i.system_config_dir->0@, "Yunara"@, p)
        } else if p == Platform::LinuxOrFreeBsd {
            let base = match i.flatpak_config_home {
                Some(f) => f@,
                None => i.system_config_dir->0@,
            };
            join_spec(base, "yunara"@, p)
        } else {
            join_spec(join_spec(i.home@, ".config"@, p), "yunara"@, p)
        },
    }
}

/// Where the configuration lives (see [`config_dir_spec`]). The system's
/// configuration directory must be known where it is needed.
pub fn config_dir(i: &DirInputs) -> (r: String)
    requires
        i.custom_data_dir is None && i.platform == Platform::Windows
            ==> i.system_config_dir is Some,
        i.custom_data_dir is None && i.platform == Platform::LinuxOrFreeBsd
            && i.flatpak_config_home is None ==> i.system_config_dir is Some,
    ensures
        r@ == config_dir_spec(*i),
{
    let p = i.platform;
    match &i.custom_data_dir {
        Some(c) => join_path(c.as_str(), "config", p),
        None => if p == Platform::Windows {
            let base = match &i.system_config_dir {
                Some(d) => d.as_str(),
                None => "",
            };
            join_path(base, "Yunara", p)
        } else if p == Platform::LinuxOrFreeBsd {
            let base = match &i.flatpak_config_home {
                Some(f) => f.as_str(),
                None => match &i.system_config_dir {
                    Some(d) => d.as_str(),
                    None => "",
                },
            };
            join_path(base, "yunara", p)
        } else {
            let dot_config = join_path(i.home.as_str(), ".config", p);
            join_path(dot_config.as_str(), "yunara", p)
        },
    }
}

/// Where the data lives: the custom directory itself; on Linux and FreeBSD
/// the Flatpak (or else the system's local) data directory with `yunara`;
/// elsewhere the system's local data directory with `Yunara`.
pub open spec fn data_dir_spec(i: DirInputs) -> Seq<char> {
    let p = i.platform;
    match i.custom_data_dir {
        Some(c) => c@,
        None => if p == Platform::LinuxOrFreeBsd {
            let base = match i.flatpak_data_home {
                Some(f) => f@,
                None => i.system_data_local_dir->0@,
            };
            join_spec(base, "yunara"@, p)
        } else {
            join_spec(i.system_data_local_dir->0@, "Yunara"@, p)
        },
    }
}

/// Where the data lives (see [`data_dir_spec`]). The system's local data
/// directory must be known where it is needed.
pub fn data_dir(i: &DirInputs) -> (r: String)
    requires
        i.custom_data_dir is None && !(i.platform == Platform::LinuxOrFreeBsd
            && i.flatpak_data_home is Some) ==> i.system_data_local_dir is Some,
    ensures
        r@ == data_dir_spec(*i),
{
    let p = i.platform;
    let local = match &i.system_data_local_dir {
        Some(d) => d.as_str(),
        None => "",
    };
    match &i.custom_data_dir {
        Some(c) => c.clone(),
        None => if p == Platform::LinuxOrFreeBsd {
            let base = match &i.flatpak_data_home {
                Some(f) => f.as_str(),
                None => local,
            };
            join_path(base, "yunara", p)
        } else {
            join_path(local, "Yunara", p)
        },
    }
}

/// Where temporary files live: on macOS and Windows the system's cache
/// directory with `Yunara`; on Linux and FreeBSD the Flatpak (or else the
/// system) cache directory with `yunara`; elsewhere `~/.cache/yunara`.
pub open spec fn temp_dir_spec(i: DirInputs) -> Seq<char> {
    let p = i.platform;
    if p == Platform::MacOs || p == Platform::Windows {
        join_spec(i.system_cache_dir->0@, "Yunara"@, p)
    } else if p == Platform::LinuxOrFreeBsd {
        let base = match i.flatpak_cache_home {
            Some(f) => f@,
            None => i.system_cache_dir->0@,
        };
        join_spec(base, "yunara"@, p)
    } else {
        join_spec(join_spec(i.home@, ".cache"@, p), "yunara"@, p)
    }
}

/// Where temporary files live (see [`temp_dir_spec`]). The system's cache
/// directory must be known where it is needed.
pub fn temp_dir(i: &DirInputs) -> (r: String)
    requires
        i.platform == Platform::MacOs || i.platform == Platform::Windows || (i.platform
            == Platform::LinuxOrFreeBsd && i.flatpak_cache_home is None)
            ==> i.system_cache_dir is Some,
    ensures
        r@ == temp_dir_spec(*i),
{
    let p = i.platform;
    let cache = match &i.system_cache_dir {
        Some(d) => d.as_str(),
        None => "",
    };
    if p == Platform::MacOs || p == Platform::Windows {
        join_path(cache, "Yunara", p)
    } else if p == Platform::LinuxOrFreeBsd {
        let base = match &i.flatpak_cache_home {
            Some(f) => f.as_str(),
            None => cache,
        };
        join_path(base, "yunara", p)
    } else {
        let dot_cache = join_path(i.home.as_str(), ".cache", p);
        join_path(dot_cache.as_str(), "yunara", p)
    }
}

/// The directory of hang traces: `<data>/hang_traces`.
pub fn hang_traces_dir(data_dir: &str, p: Platform) -> (r: String)
    ensures
        r@ == join_spec(data_dir@, "hang_traces"@, p),
{
    join_path(data_dir, "hang_traces", p)
}

/// The directory of logs: `~/Library/Logs/Yunara` on macOS, `<data>/logs`
/// elsewhere.
pub fn logs_dir(home: &str, data_dir: &str, p: Platform) -> (r: String)
    ensures
        r@ == (if p == Platform::MacOs {
            join_spec(home@, "Library/Logs/Yunara"@, p)
        } else {
            join_spec(data_dir@, "logs"@, p)
        }),
{
    if p == Platform::MacOs {
        join_path(home, "Library/Logs/Yunara", p)
    } else {
        join_path(data_dir, "logs", p)
    }
}

/// The log file: `<logs>/Yunara.log`.
pub fn log_file(logs_dir: &str, p: Platform) -> (r: String)
    ensures
        r@ == join_spec(logs_dir@, "Yunara.log"@, p),
{
    join_path(logs_dir, "Yunara.log", p)
}

/// The database directory: `<data>/db`.
pub fn database_dir(data_dir: &str, p: Platform) -> (r: String)
    ensures
        r@ == join_spec(data_dir@, "db"@, p),
{
    join_path(data_dir, "db", p)
}

/// The directory of crash reports: `~/Library/Logs/DiagnosticReports` on
/// macOS, none elsewhere.
pub fn crashes_dir(home: &str, p: Platform) -> (r: Option<String>)
    ensures
        match r {
            Some(d) => p == Platform::MacOs && d@ == join_spec(
                home@,
                "Library/Logs/DiagnosticReports"@,
                p,
            ),
            None => p != Platform::MacOs,
        },
{
    if p == Platform::MacOs {
        Some(join_path(home, "Library/Logs/DiagnosticReports", p))
    } else {
        None
    }
}

/// The directory of handled crash reports: `<crashes>/Retired`, where there
/// is a crash directory.
pub fn crashes_retired_dir(crashes_dir: &Option<String>, p: Platform) -> (r: Option<String>)
    ensures
        match *crashes_dir {
            Some(c) => r matches Some(d) && d@ == join_spec(c@, "Retired"@, p),
            None => r is None,
        },
{
    match crashes_dir {
        Some(c) => Some(join_path(c.as_str(), "Retired", p)),
        None => None,
    }
}

/// The settings file: `<config>/settings.json`.
pub fn settings_file(config_dir: &str, p: Platform) -> (r: String)
    ensures
        r@ == join_spec(config_dir@, "settings.json"@, p),
{
    join_path(config_dir, "settings.json", p)
}

/// The global settings file: `<config>/global_settings.json`.
pub fn global_settings_file(config_dir: &str, p: Platform) -> (r: String)
    ensures
        r@ == join_spec(config_dir@, "global_settings.json"@, p),
{
    join_path(config_dir, "global_settings.json", p)
}

} // verus!

verus! {

/// A custom data directory is the base of all user data: it is the data
/// directory itself, and the configuration lives in its `config`
/// subdirectory.
pub proof fn lemma_custom_data_dir_is_base(i: DirInputs)
    requires
        i.custom_data_dir is Some,
    ensures
        data_dir_spec(i) == i.custom_data_dir->0@,
        config_dir_spec(i) == join_spec(i.custom_data_dir->0@, "config"@, i.platform),
{
}

/// Joining a component to a base that does not end with a separator gives
/// the base, the platform's separator and the component, in that order; a
/// base that ends with a separator is followed by the component directly.
pub proof fn lemma_join_reads_back(base: Seq<char>, seg: Seq<char>, p: Platform)
    ensures
        base.len() > 0 && !is_separator(base.last(), p) ==> {
            let j = join_spec(base, seg, p);
            &&& j.len() == base.len() + 1 + seg.len()
            &&& j.subrange(0, base.len() as int) == base
            &&& j[base.len() as int] == (if p == Platform::Windows { '\\' } else { '/' })
            &&& j.subrange(base.len() as int + 1, j.len() as int) == seg
        },
        base.len() > 0 && is_separator(base.last(), p) ==> join_spec(base, seg, p) == base + seg,
        base.len() == 0 ==> join_spec(base, seg, p) == seg,
{
    if base.len() > 0 && !is_separator(base.last(), p) {
        let j = join_spec(base, seg, p);
        assert(j.subrange(0, base.len() as int) =~= base);
        assert(j.subrange(base.len() as int + 1, j.len() as int) =~= seg);
    }
}

/// Where the directories lie when no custom data directory is set, platform
/// by platform:
/// - Windows: the configuration in the system's configuration directory,
///   the data in the system's local data directory and the temporary files
///   in the system's cache directory, each under `Yunara`;
/// - macOS: the data in the local data directory and the temporary files in
///   the cache directory under `Yunara`, the configuration in
///   `~/.config/yunara`;
/// - Linux and FreeBSD: the Flatpak directories where they are set, else the
///   system's, each under `yunara`;
/// - elsewhere: `~/.config/yunara`, the local data directory under `Yunara`
///   and `~/.cache/yunara`.
pub proof fn lemma_directories_by_platform(i: DirInputs)
    requires
        i.custom_data_dir is None,
    ensures
        i.platform == Platform::Windows ==> {
            &&& config_dir_spec(i) == join_spec(i.system_config_dir->0@, "Yunara"@, i.platform)
            &&& data_dir_spec(i) == join_spec(i.system_data_local_dir->0@, "Yunara"@, i.platform)
            &&& temp_dir_spec(i) == join_spec(i.system_cache_dir->0@, "Yunara"@, i.platform)
        },
        i.platform == Platform::MacOs ==> {
            &&& config_dir_spec(i) == join_spec(join_spec(i.home@, ".config"@, i.platform), "yunara"@, i.platform)
            &&& data_dir_spec(i) == join_spec(i.system_data_local_dir->0@, "Yunara"@, i.platform)
            &&& temp_dir_spec(i) == join_spec(i.system_cache_dir->0@, "Yunara"@, i.platform)
        },
        i.platform == Platform::LinuxOrFreeBsd ==> {
            &&& config_dir_spec(i) == join_spec(
                if i.flatpak_config_home is Some { i.flatpak_config_home->0@ } else { i.system_config_dir->0@ },
                "yunara"@,
                i.platform,
            )
            &&& data_dir_spec(i) == join_spec(
                if i.flatpak_data_home is Some { i.flatpak_data_home->0@ } else { i.system_data_local_dir->0@ },
                "yunara"@,
                i.platform,
            )
            &&& temp_dir_spec(i) == join_spec(
                if i.flatpak_cache_home is Some { i.flatpak_cache_home->0@ } else { i.system_cache_dir->0@ },
                "yunara"@,
                i.platform,
            )
        },
        i.platform == Platform::Other ==> {
            &&& config_dir_spec(i) == join_spec(join_spec(i.home@, ".config"@, i.platform), "yunara"@, i.platform)
            &&& data_dir_spec(i) == join_spec(i.system_data_local_dir->0@, "Yunara"@, i.platform)
            &&& temp_dir_spec(i) == join_spec(join_spec(i.home@, ".cache"@, i.platform), "yunara"@, i.platform)
        },
{
}

} // verus!
