//! Where the credential document lives on disk.
//!
//! A path is given by its components, to be joined in order by the
//! caller: the first is where the path starts, each following one is
//! joined onto what came before.

use vstd::prelude::*;

verus! {

/// The family of operating system, which decides where application data
/// goes.
#[derive(Debug, Clone, Copy, PartialEq, Eq, Structural)]
pub enum Platform {
    Windows,
    MacOs,
    Other,
}

/// The environment variables that locate the application-data directory,
/// each `None` where it is unset or not text.
#[derive(Debug, Clone, PartialEq, Eq)]
pub struct Environment {
    /// `APPDATA`
    pub appdata: Option<String>,
    /// `XDG_CONFIG_HOME`
    pub xdg_config_home: Option<String>,
    /// `HOME`
    pub home: Option<String>,
}

/// The components of the mirror of the credential document.
pub open spec fn mirror_path() -> Seq<Seq<char>> {
    seq!["config.json"@]
}

/// The components of each location that earlier versions wrote to, in
/// the order in which they are tried.
pub open spec fn legacy_paths() -> Seq<Seq<Seq<char>>> {
    seq![
        seq!["config.json"@],
        seq!["resources/config.json"@],
        seq!["src-tauri/resources/config.json"@],
    ]
}

/// The components of the application-data directory: the platform's own
/// where the environment names it, and the relative `config` where it
/// does not.
pub open spec fn config_dir(
    platform: Platform,
    appdata: Option<Seq<char>>,
    xdg_config_home: Option<Seq<char>>,
    home: Option<Seq<char>>,
) -> Seq<Seq<char>> {
    match platform {
        Platform::Windows => match appdata {
            Some(p) => seq![p, "CrossWatch"@],
            None => seq!["config"@],
        },
        Platform::MacOs => match home {
            Some(h) => seq![h, "Library"@, "Application Support"@, "CrossWatch"@],
            None => seq!["config"@],
        },
        Platform::Other => match xdg_config_home {
            Some(x) => seq![x, "CrossWatch"@],
            None => match home {
                Some(h) => seq![h, ".config"@, "CrossWatch"@],
                None => seq!["config"@],
            },
        },
    }
}

impl Environment {
    /// `APPDATA`, as a sequence of characters.
    pub open spec fn appdata_view(self) -> Option<Seq<char>> {
        self.appdata.deep_view()
    }

    /// `XDG_CONFIG_HOME`, as a sequence of characters.
    pub open spec fn xdg_view(self) -> Option<Seq<char>> {
        self.xdg_config_home.deep_view()
    }

    /// `HOME`, as a sequence of characters.
    pub open spec fn home_view(self) -> Option<Seq<char>> {
        self.home.deep_view()
    }
}

/// The application-data directory for this platform and environment.
/// There is always an answer: without a usable variable it is the
/// relative directory `config`.
pub fn user_config_dir(platform: Platform, env: &Environment) -> (r: Vec<String>)
    ensures
        r.deep_view() == config_dir(platform, env.appdata_view(), env.xdg_view(), env.home_view()),
{
    let mut r: Vec<String> = Vec::new();
    match platform {
        Platform::Windows => {
            if let Some(p) = &env.appdata {
                r.push(p.clone());
                r.push("CrossWatch".to_string());
                assert(r.deep_view() =~= seq![p@, "CrossWatch"@]);
                return r;
            }
        },
        Platform::MacOs => {
            if let Some(h) = &env.home {
                r.push(h.clone());
                r.push("Library".to_string());
                r.push("Application Support".to_string());
                r.push("CrossWatch".to_string());
                assert(r.deep_view() =~= seq![
                    h@,
                    "Library"@,
                    "Application Support"@,
                    "CrossWatch"@,
                ]);
                return r;
            }
        },
        Platform::Other => {
            if let Some(x) = &env.xdg_config_home {
                r.push(x.clone());
                r.push("CrossWatch".to_string());
                assert(r.deep_view() =~= seq![x@, "CrossWatch"@]);
                return r;
            }
            if let Some(h) = &env.home {
                r.push(h.clone());
                r.push(".config".to_string());
                r.push("CrossWatch".to_string());
                assert(r.deep_view() =~= seq![h@, ".config"@, "CrossWatch"@]);
                return r;
            }
        },
    }
    r.push("config".to_string());
    assert(r.deep_view() =~= seq!["config"@]);
    r
}

/// The canonical location of the credential document: `config.json` in
/// the application-data directory.
pub fn cfg_path(platform: Platform, env: &Environment) -> (r: Vec<String>)
    ensures
        r.deep_view() == config_dir(
            platform,
            env.appdata_view(),
            env.xdg_view(),
            env.home_view(),
        ).push("config.json"@),
{
    let mut r = user_config_dir(platform, env);
    let ghost dir = r.deep_view();
    r.push("config.json".to_string());
    assert(r.deep_view() =~= dir.push("config.json"@));
    r
}

/// The mirror of the credential document, beside the working directory,
/// where the synchronisation process looks for it.
pub fn project_root_cfg() -> (r: Vec<String>)
    ensures
        r.deep_view() == mirror_path(),
{
    let mut r: Vec<String> = Vec::new();
    r.push("config.json".to_string());
    assert(r.deep_view() =~= mirror_path());
    r
}

/// The locations that earlier versions wrote to, in the order in which
/// they are tried.
pub fn legacy_cfg_candidates() -> (r: Vec<Vec<String>>)
    ensures
        r.deep_view() == legacy_paths(),
{
    let mut first: Vec<String> = Vec::new();
    first.push("config.json".to_string());
    assert(first.deep_view() =~= seq!["config.json"@]);
    let mut second: Vec<String> = Vec::new();
    second.push("resources/config.json".to_string());
    assert(second.deep_view() =~= seq!["resources/config.json"@]);
    let mut third: Vec<String> = Vec::new();
    third.push("src-tauri/resources/config.json".to_string());
    assert(third.deep_view() =~= seq!["src-tauri/resources/config.json"@]);
    let mut r: Vec<Vec<String>> = Vec::new();
    r.push(first);
    r.push(second);
    r.push(third);
    assert(r.deep_view() =~= legacy_paths());
    r
}

} // verus!
