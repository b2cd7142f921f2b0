//! File system paths of the daemon's data, and the detection of the first run.
//!
//! The data directory is shared with the Reachy Mini desktop app, so that both use the same virtual
//! environment. A path is a list of parts, to be joined in order. The setup counts as done once
//! the Python interpreter stands in the virtual environment: an interrupted setup leaves none, so
//! the next launch starts it again.

use vstd::prelude::*;

use crate::daemon;
use crate::state::Platform;
use crate::text;

verus! {

/// The environment variables that locate a user's data, where they are set.
pub struct DataVars {
    pub home: Option<String>,
    pub local_app_data: Option<String>,
    pub xdg_data_home: Option<String>,
}

/// The mathematical content of an optional path.
pub open spec fn path_view(path: Option<Vec<String>>) -> Option<Seq<Seq<char>>> {
    match path {
        Some(parts) => Some(text::texts(parts@)),
        None => None,
    }
}

/// The path of a folder under a base, where the base is known.
pub open spec fn under(base: Option<String>, folder: Seq<Seq<char>>) -> Option<Seq<Seq<char>>> {
    match base {
        Some(b) => Some(seq![b@] + folder),
        None => None,
    }
}

/// The data directory; there is none on an unknown system or without the variables it needs.
pub open spec fn data_path(platform: Platform, vars: DataVars) -> Option<Seq<Seq<char>>> {
    match platform {
        Platform::MacOs => under(
            vars.home,
            seq!["Library"@, "Application Support"@, "com.pollen-robotics.reachy-mini"@],
        ),
        Platform::Windows => under(vars.local_app_data, seq!["Reachy Mini Control"@]),
        Platform::Linux => if vars.xdg_data_home is Some {
            under(vars.xdg_data_home, seq!["reachy-mini-control"@])
        } else {
            under(vars.home, seq![".local/share"@, "reachy-mini-control"@])
        },
        Platform::OtherUnix | Platform::Other => None,
    }
}

/// Locates the data directory.
pub fn data_dir(platform: Platform, vars: &DataVars) -> (r: Option<Vec<String>>)
    ensures
        path_view(r) == data_path(platform, *vars),
{
    let mut parts: Vec<String> = Vec::new();
    match platform {
        Platform::MacOs => match &vars.home {
            Some(home) => {
                parts.push(home.clone());
                parts.push("Library".to_string());
                parts.push("Application Support".to_string());
                parts.push("com.pollen-robotics.reachy-mini".to_string());
            },
            None => return None,
        },
        Platform::Windows => match &vars.local_app_data {
            Some(local) => {
                parts.push(local.clone());
                parts.push("Reachy Mini Control".to_string());
            },
            None => return None,
        },
        Platform::Linux => match (&vars.xdg_data_home, &vars.home) {
            (Some(xdg), _) => {
                parts.push(xdg.clone());
                parts.push("reachy-mini-control".to_string());
            },
            (None, Some(home)) => {
                parts.push(home.clone());
                parts.push(".local/share".to_string());
                parts.push("reachy-mini-control".to_string());
            },
            (None, None) => return None,
        },
        Platform::OtherUnix | Platform::Other => return None,
    }
    assert(text::texts(parts@) =~= data_path(platform, *vars)->0);
    Some(parts)
}

/// The parts of the interpreter's path, inside the data directory.
pub open spec fn interpreter_parts(platform: Platform) -> Seq<Seq<char>> {
    if platform == Platform::Windows {
        seq![".venv"@, "Scripts"@, "python.exe"@]
    } else {
        seq![".venv"@, "bin"@, "python3"@]
    }
}

/// The path of the daemon's Python interpreter.
pub open spec fn python_path(platform: Platform, vars: DataVars) -> Option<Seq<Seq<char>>> {
    match data_path(platform, vars) {
        Some(dir) => Some(dir + interpreter_parts(platform)),
        None => None,
    }
}

/// Locates the daemon's Python interpreter inside the virtual environment.
pub fn venv_python_path(platform: Platform, vars: &DataVars) -> (r: Option<Vec<String>>)
    ensures
        path_view(r) == python_path(platform, *vars),
{
    match data_dir(platform, vars) {
        Some(dir) => {
            let mut parts: Vec<String> = dir;
            parts.push(".venv".to_string());
            match platform {
                Platform::Windows => {
                    parts.push("Scripts".to_string());
                    parts.push("python.exe".to_string());
                },
                _ => {
                    parts.push("bin".to_string());
                    parts.push("python3".to_string());
                },
            }
            assert(text::texts(parts@) =~= text::texts(dir@) + interpreter_parts(platform));
            Some(parts)
        },
        None => None,
    }
}

/// Tells whether the setup is done: the interpreter has a path, and a file stands there.
pub fn is_bootstrap_done(interpreter: &Option<Vec<String>>, exists: bool) -> (r: bool)
    ensures
        r == (*interpreter is Some && exists),
{
    interpreter.is_some() && exists
}

/// The directories that a reset of the setup removes. The package manager, the interpreters and
/// the caches stay: fetching them again is the slowest part of a setup.
pub open spec fn reset_paths(dir: Seq<Seq<char>>) -> Seq<Seq<Seq<char>>> {
    seq![dir.push(".venv"@), dir.push("apps_venv"@)]
}

/// The mathematical content of a list of paths.
pub open spec fn paths_view(list: Seq<Vec<String>>) -> Seq<Seq<Seq<char>>> {
    list.map_values(|parts: Vec<String>| text::texts(parts@))
}

/// A copy of a path with one more part.
fn joined(dir: &Vec<String>, part: &str) -> (r: Vec<String>)
    ensures
        text::texts(r@) == text::texts(dir@).push(part@),
{
    let mut r: Vec<String> = Vec::new();
    let mut i: usize = 0;
    while i < dir.len()
        invariant
            i <= dir.len(),
            r@ == dir@.take(i as int),
        decreases dir.len() - i,
    {
        r.push(dir[i].clone());
        i = i + 1;
        assert(r@ =~= dir@.take(i as int));
    }
    r.push(part.to_string());
    assert(text::texts(r@) =~= text::texts(dir@).push(part@));
    r
}

/// Decides which directories a reset of the setup removes, in order.
pub fn reset_bootstrap(platform: Platform, vars: &DataVars) -> (r: Result<
    Vec<Vec<String>>,
    String,
>)
    ensures
        match data_path(platform, *vars) {
            Some(dir) => r matches Ok(list) && paths_view(list@) == reset_paths(dir),
            None => r matches Err(e) && e@ == "data dir unavailable"@,
        },
{
    match data_dir(platform, vars) {
        Some(dir) => {
            let mut list: Vec<Vec<String>> = Vec::new();
            list.push(joined(&dir, ".venv"));
            list.push(joined(&dir, "apps_venv"));
            assert(paths_view(list@) =~= reset_paths(text::texts(dir@)));
            Ok(list)
        },
        None => Err("data dir unavailable".to_string()),
    }
}

/// A reset removes the directory in which the interpreter stands, so that the setup no longer
/// counts as done.
pub proof fn law_reset_undoes_setup(platform: Platform, vars: DataVars)
    ensures
        match (data_path(platform, vars), python_path(platform, vars)) {
            (Some(dir), Some(python)) => reset_paths(dir)[0].is_prefix_of(python),
            (None, None) => true,
            _ => false,
        },
{
    if let Some(dir) = data_path(platform, vars) {
        let python = python_path(platform, vars)->0;
        assert(python.subrange(0, (dir.len() + 1) as int) =~= reset_paths(dir)[0]);
    }
}

/// The interpreter that marks the setup as done is the one the daemon is run with.
pub proof fn law_interpreter_is_the_one_run(platform: Platform)
    ensures
        ({
            let separator = if platform == Platform::Windows {
                "\\"@
            } else {
                "/"@
            };
            let parts = interpreter_parts(platform);
            daemon::interpreter(platform) == parts[0] + separator + parts[1] + separator + parts[2]
        }),
{
    reveal_strlit(".venv\\Scripts\\python.exe");
    reveal_strlit(".venv/bin/python3");
    reveal_strlit(".venv");
    reveal_strlit("Scripts");
    reveal_strlit("python.exe");
    reveal_strlit("bin");
    reveal_strlit("python3");
    reveal_strlit("\\");
    reveal_strlit("/");
    let separator = if platform == Platform::Windows {
        "\\"@
    } else {
        "/"@
    };
    let parts = interpreter_parts(platform);
    assert(daemon::interpreter(platform) =~= parts[0] + separator + parts[1] + separator
        + parts[2]);
}

/// Where the data lives: on macOS under the home, on Windows under the local data, on Linux under
/// the data home or else under the home; nowhere without the variable, and on no other system.
pub proof fn law_data_path(platform: Platform, vars: DataVars)
    ensures
        ({
            let dir = data_path(platform, vars);
            &&& platform is MacOs ==> {
                &&& dir is Some <==> vars.home is Some
                &&& vars.home matches Some(h) ==> dir == Some(
                    seq![
                        h@,
                        "Library"@,
                        "Application Support"@,
                        "com.pollen-robotics.reachy-mini"@,
                    ],
                )
            }
            &&& platform is Windows ==> {
                &&& dir is Some <==> vars.local_app_data is Some
                &&& vars.local_app_data matches Some(l) ==> dir == Some(
                    seq![l@, "Reachy Mini Control"@],
                )
            }
            &&& platform is Linux ==> {
                &&& dir is Some <==> vars.xdg_data_home is Some || vars.home is Some
                &&& vars.xdg_data_home matches Some(x) ==> dir == Some(
                    seq![x@, "reachy-mini-control"@],
                )
                &&& vars.xdg_data_home is None ==> (vars.home matches Some(h) ==> dir == Some(
                    seq![h@, ".local/share"@, "reachy-mini-control"@],
                ))
            }
            &&& platform is OtherUnix || platform is Other ==> dir is None
        }),
{
    let dir = data_path(platform, vars);
    if let Some(h) = vars.home {
        assert(seq![h@] + seq![
            "Library"@,
            "Application Support"@,
            "com.pollen-robotics.reachy-mini"@,
        ] =~= seq![h@, "Library"@, "Application Support"@, "com.pollen-robotics.reachy-mini"@]);
        assert(seq![h@] + seq![".local/share"@, "reachy-mini-control"@] =~= seq![
            h@,
            ".local/share"@,
            "reachy-mini-control"@,
        ]);
    }
    if let Some(l) = vars.local_app_data {
        assert(seq![l@] + seq!["Reachy Mini Control"@] =~= seq![l@, "Reachy Mini Control"@]);
    }
    if let Some(x) = vars.xdg_data_home {
        assert(seq![x@] + seq!["reachy-mini-control"@] =~= seq![x@, "reachy-mini-control"@]);
    }
}

/// The interpreter stands in the virtual environment of the data directory, wherever there is one,
/// and a reset removes that environment and the one of the apps, in this order.
pub proof fn law_python_path(platform: Platform, vars: DataVars)
    ensures
        ({
            let dir = data_path(platform, vars);
            let python = python_path(platform, vars);
            &&& python is Some <==> dir is Some
            &&& dir matches Some(d) ==> {
                &&& platform is Windows ==> python == Some(
                    d + seq![".venv"@, "Scripts"@, "python.exe"@],
                )
                &&& !(platform is Windows) ==> python == Some(
                    d + seq![".venv"@, "bin"@, "python3"@],
                )
                &&& reset_paths(d).len() == 2
                &&& reset_paths(d)[0] == d + seq![".venv"@]
                &&& reset_paths(d)[1] == d + seq!["apps_venv"@]
            }
        }),
{
    if let Some(d) = data_path(platform, vars) {
        assert(d.push(".venv"@) =~= d + seq![".venv"@]);
        assert(d.push("apps_venv"@) =~= d + seq!["apps_venv"@]);
    }
}

/// The contracts see a path part by part, and a list of paths path by path.
pub proof fn law_paths_are_seen_whole(parts: Vec<String>, list: Seq<Vec<String>>, i: int, k: int)
    requires
        0 <= i < parts@.len(),
        0 <= k < list.len(),
    ensures
        path_view(None) is None,
        path_view(Some(parts)) matches Some(p) && p.len() == parts@.len() && p[i] == parts@[i]@,
        paths_view(list).len() == list.len(),
        paths_view(list)[k] == text::texts(list[k]@),
{
}

} // verus!
