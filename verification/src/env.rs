//! Where the application finds its libraries, data and translations on each
//! platform, and which environment variables it sets up on startup.
//!
//! The caller reads the platform, the build configuration and the
//! (canonical) current directory; the functions here decide the paths. A
//! path is returned as the segments that `std::path::Path::join` joins in
//! order, starting from the first.

use vstd::prelude::*;
use crate::text::str_eq;

verus! {

/// The platform the application runs on.
#[derive(Clone, Copy, Debug, PartialEq, Eq, Structural)]
pub enum Platform {
    Windows,
    MacOs,
    Other,
}

/// The directories that the build configured.
pub struct BuildConfig {
    pub libdir: String,
    pub datadir: String,
    pub localedir: String,
    pub app_name: String,
}

/// A component of a path: a normal name, or anything else (root, prefix,
/// `.` or `..`).
pub enum PathPart {
    Normal(String),
    Other,
}

impl PathPart {
    /// The view of a component: its name, if it is a normal one.
    pub open spec fn name(self) -> Option<Seq<char>> {
        match self {
            PathPart::Normal(s) => Some(s@),
            PathPart::Other => None,
        }
    }
}

/// The canonical current directory: its components and its last name.
pub struct ExecDir {
    pub parts: Vec<PathPart>,
    pub file_name: Option<String>,
}

/// Why a directory could not be found.
#[derive(Clone, Copy, Debug, PartialEq, Eq, Structural)]
pub enum EnvError {
    /// The current directory could not be read or made canonical.
    CurrentDir,
    /// The current directory has no name to build the bundle's paths from.
    NoExecDirName,
}

/// The names of the components of a path.
pub open spec fn part_names(parts: Seq<PathPart>) -> Seq<Option<Seq<char>>> {
    parts.map_values(|p: PathPart| p.name())
}

/// A directory lies inside a macOS application bundle when two consecutive
/// components of its path are `Contents` and `MacOS`.
pub open spec fn spec_in_app_bundle(names: Seq<Option<Seq<char>>>) -> bool {
    exists|i: int|
        0 <= i && i + 1 < names.len() && #[trigger] names[i] == Some("Contents"@) && names[i
            + 1] == Some("MacOS"@)
}

/// Whether the component is the normal name `name`.
fn part_is(part: &PathPart, name: &str) -> (r: bool)
    ensures
        r == (part.name() == Some(name@)),
{
    match part {
        PathPart::Normal(s) => str_eq(s.as_str(), name),
        PathPart::Other => false,
    }
}

/// Returns whether the directory lies inside a macOS application bundle,
/// which means the application was packaged as a relocatable bundle.
pub fn macos_is_in_app_bundle(parts: &Vec<PathPart>) -> (r: bool)
    ensures
        r == spec_in_app_bundle(part_names(parts@)),
{
    let ghost names = part_names(parts@);
    let n = parts.len();
    if n < 2 {
        return false;
    }
    let mut i: usize = 0;
    while i + 1 < n
        invariant
            n == parts@.len(),
            n >= 2,
            i + 1 <= n,
            names == part_names(parts@),
            forall|j: int|
                0 <= j < i ==> !(#[trigger] names[j] == Some("Contents"@) && names[j + 1] == Some(
                    "MacOS"@,
                )),
        decreases n - i,
    {
        if part_is(&parts[i], "Contents") && part_is(&parts[i + 1], "MacOS") {
            assert(names[i as int] == Some("Contents"@) && names[i + 1] == Some("MacOS"@));
            return true;
        }
        i = i + 1;
    }
    assert forall|j: int|
        0 <= j && j + 1 < names.len() implies !(#[trigger] names[j] == Some("Contents"@) && names[j + 1]
        == Some("MacOS"@)) by {
        assert(j < i);
    }
    false
}

/// The relative part of the bundle's library directory, joined to the name
/// of the current directory.
pub open spec fn bundle_lib_suffix() -> Seq<char> {
    "/../Resources/lib"@
}

/// The relative part of the bundle's data directory.
pub open spec fn bundle_data_suffix() -> Seq<char> {
    "/../Resources/share"@
}

/// The directory in which a Windows build looks for its configured
/// directories.
pub open spec fn windows_base() -> Seq<char> {
    "../"@
}

/// Where a configured directory lies: relative to `../` on Windows, next to
/// the name of the current directory inside a macOS bundle, and as
/// configured elsewhere.
pub open spec fn spec_configured_dir(
    platform: Platform,
    configured: Seq<char>,
    bundle_suffix: Seq<char>,
    exec_dir: Result<(bool, Option<Seq<char>>), ()>,
) -> Result<Seq<Seq<char>>, EnvError> {
    match platform {
        Platform::Windows => Ok(seq![windows_base(), configured]),
        Platform::MacOs => match exec_dir {
            Err(_) => Err(EnvError::CurrentDir),
            Ok((in_bundle, name)) => if in_bundle {
                match name {
                    Some(n) => Ok(seq![n, bundle_suffix]),
                    None => Err(EnvError::NoExecDirName),
                }
            } else {
                Ok(seq![configured])
            },
        },
        Platform::Other => Ok(seq![configured]),
    }
}

/// The view of the current directory that the path rules read: whether it
/// lies in a bundle, and its name.
pub open spec fn exec_dir_view(exec_dir: &Result<ExecDir, ()>) -> Result<
    (bool, Option<Seq<char>>),
    (),
> {
    match exec_dir {
        Ok(d) => Ok(
            (
                spec_in_app_bundle(part_names(d.parts@)),
                match d.file_name {
                    Some(n) => Some(n@),
                    None => None,
                },
            ),
        ),
        Err(_) => Err(()),
    }
}

/// The view of a list of path segments.
pub open spec fn segments_view(v: Seq<String>) -> Seq<Seq<char>> {
    v.map_values(|s: String| s@)
}

/// The view of a result of path segments.
pub open spec fn result_view(r: Result<Vec<String>, EnvError>) -> Result<Seq<Seq<char>>, EnvError> {
    match r {
        Ok(v) => Ok(segments_view(v@)),
        Err(e) => Err(e),
    }
}

/// Two segments as a vector.
fn two_segments(a: String, b: String) -> (v: Vec<String>)
    ensures
        segments_view(v@) == seq![a@, b@],
{
    let mut v: Vec<String> = Vec::new();
    v.push(a);
    v.push(b);
    assert(segments_view(v@) =~= seq![a@, b@]);
    v
}

/// One segment as a vector.
fn one_segment(a: String) -> (v: Vec<String>)
    ensures
        segments_view(v@) == seq![a@],
{
    let mut v: Vec<String> = Vec::new();
    v.push(a);
    assert(segments_view(v@) =~= seq![a@]);
    v
}

/// The directory for a configured directory and a bundle suffix.
fn configured_dir(
    platform: Platform,
    configured: &String,
    bundle_suffix: &str,
    exec_dir: &Result<ExecDir, ()>,
) -> (r: Result<Vec<String>, EnvError>)
    ensures
        result_view(r) == spec_configured_dir(
            platform,
            configured@,
            bundle_suffix@,
            exec_dir_view(exec_dir),
        ),
{
    match platform {
        Platform::Windows => Ok(two_segments(String::from_str("../"), configured.clone())),
        Platform::MacOs => match exec_dir {
            Err(_) => Err(EnvError::CurrentDir),
            Ok(d) => {
                if macos_is_in_app_bundle(&d.parts) {
                    match &d.file_name {
                        Some(n) => Ok(two_segments(n.clone(), String::from_str(bundle_suffix))),
                        None => Err(EnvError::NoExecDirName),
                    }
                } else {
                    Ok(one_segment(configured.clone()))
                }
            },
        },
        Platform::Other => Ok(one_segment(configured.clone())),
    }
}

/// The directory of the application's libraries. Only macOS reads the
/// current directory.
pub fn lib_dir(platform: Platform, config: &BuildConfig, exec_dir: &Result<ExecDir, ()>) -> (r:
    Result<Vec<String>, EnvError>)
    ensures
        result_view(r) == spec_configured_dir(
            platform,
            config.libdir@,
            bundle_lib_suffix(),
            exec_dir_view(exec_dir),
        ),
{
    proof {
        reveal_strlit("/../Resources/lib");
    }
    configured_dir(platform, &config.libdir, "/../Resources/lib", exec_dir)
}

/// The directory of the application's data. Only macOS reads the current
/// directory.
pub fn data_dir(platform: Platform, config: &BuildConfig, exec_dir: &Result<ExecDir, ()>) -> (r:
    Result<Vec<String>, EnvError>)
    ensures
        result_view(r) == spec_configured_dir(
            platform,
            config.datadir@,
            bundle_data_suffix(),
            exec_dir_view(exec_dir),
        ),
{
    configured_dir(platform, &config.datadir, "/../Resources/share", exec_dir)
}

/// The directory of the application's own data: the data directory joined
/// with the application's name.
pub fn pkg_data_dir(platform: Platform, config: &BuildConfig, exec_dir: &Result<ExecDir, ()>) -> (r:
    Result<Vec<String>, EnvError>)
    ensures
        result_view(r) == (match spec_configured_dir(
            platform,
            config.datadir@,
            bundle_data_suffix(),
            exec_dir_view(exec_dir),
        ) {
            Ok(segments) => Ok(segments.push(config.app_name@)),
            Err(e) => Err(e),
        }),
{
    match data_dir(platform, config, exec_dir) {
        Ok(v) => {
            let mut v = v;
            let ghost before = v@;
            v.push(config.app_name.clone());
            proof {
                assert(segments_view(v@) =~= segments_view(before).push(config.app_name@));
            }
            Ok(v)
        },
        Err(e) => Err(e),
    }
}

/// The directory of the translations: relative to `../` on Windows, as
/// configured elsewhere.
pub fn locale_dir(platform: Platform, config: &BuildConfig) -> (r: Vec<String>)
    ensures
        segments_view(r@) == (if platform == Platform::Windows {
            seq![windows_base(), config.localedir@]
        } else {
            seq![config.localedir@]
        }),
{
    if matches!(platform, Platform::Windows) {
        two_segments(String::from_str("../"), config.localedir.clone())
    } else {
        one_segment(config.localedir.clone())
    }
}

/// An environment variable to set, and the path segments of its value.
pub struct EnvAssignment {
    pub name: String,
    pub value: Vec<String>,
}

/// The view of an assignment.
pub open spec fn assignment_view(a: EnvAssignment) -> (Seq<char>, Seq<Seq<char>>) {
    (a.name@, segments_view(a.value@))
}

/// The environment that the application sets up on startup: on Windows the
/// data directories and the directory of the pixbuf loaders; in a macOS
/// bundle the data directories and the pixbuf loaders' cache file;
/// elsewhere nothing.
pub open spec fn spec_setup_env(
    platform: Platform,
    config_libdir: Seq<char>,
    config_datadir: Seq<char>,
    exec_dir: Result<(bool, Option<Seq<char>>), ()>,
) -> Result<Seq<(Seq<char>, Seq<Seq<char>>)>, EnvError> {
    let data = spec_configured_dir(platform, config_datadir, bundle_data_suffix(), exec_dir);
    let lib = spec_configured_dir(platform, config_libdir, bundle_lib_suffix(), exec_dir);
    match platform {
        Platform::Windows => match (data, lib) {
            (Ok(d), Ok(l)) => Ok(
                seq![
                    ("XDG_DATA_DIRS"@, d),
                    ("GDK_PIXBUF_MODULEDIR"@, l.push("/gdk-pixbuf-2.0/2.10.0/loaders"@)),
                ],
            ),
            (Err(e), _) => Err(e),
            (_, Err(e)) => Err(e),
        },
        Platform::MacOs => match exec_dir {
            Err(_) => Err(EnvError::CurrentDir),
            Ok((in_bundle, _)) => if in_bundle {
                match (data, lib) {
                    (Ok(d), Ok(l)) => Ok(
                        seq![
                            ("XDG_DATA_DIRS"@, d),
                            (
                                "GDK_PIXBUF_MODULE_FILE"@,
                                l.push("gdk-pixbuf-2.0/2.10.0/loaders.cache"@),
                            ),
                        ],
                    ),
                    (Err(e), _) => Err(e),
                    (_, Err(e)) => Err(e),
                }
            } else {
                Ok(Seq::empty())
            },
        },
        Platform::Other => Ok(Seq::empty()),
    }
}

/// Appends a segment.
fn pushed(v: Vec<String>, s: &str) -> (r: Vec<String>)
    ensures
        segments_view(r@) == segments_view(v@).push(s@),
{
    let mut v = v;
    let ghost before = v@;
    v.push(String::from_str(s));
    assert(segments_view(v@) =~= segments_view(before).push(s@));
    v
}

/// Two assignments.
fn two_assignments(a: EnvAssignment, b: EnvAssignment) -> (r: Vec<EnvAssignment>)
    ensures
        r@.map_values(|x: EnvAssignment| assignment_view(x)) == seq![
            assignment_view(a),
            assignment_view(b),
        ],
{
    let mut r: Vec<EnvAssignment> = Vec::new();
    let ghost va = assignment_view(a);
    let ghost vb = assignment_view(b);
    r.push(a);
    r.push(b);
    assert(r@.map_values(|x: EnvAssignment| assignment_view(x)) =~= seq![va, vb]);
    r
}

/// Decides the environment variables to set on startup.
pub fn setup_env(platform: Platform, config: &BuildConfig, exec_dir: &Result<ExecDir, ()>) -> (r:
    Result<Vec<EnvAssignment>, EnvError>)
    ensures
        (match r {
            Ok(v) => Ok(v@.map_values(|x: EnvAssignment| assignment_view(x))),
            Err(e) => Err(e),
        }) == spec_setup_env(platform, config.libdir@, config.datadir@, exec_dir_view(exec_dir)),
{
    proof {
        reveal_strlit("XDG_DATA_DIRS");
    }
    match platform {
        Platform::Windows => {
            let data = data_dir(platform, config, exec_dir)?;
            let lib = lib_dir(platform, config, exec_dir)?;
            let a = EnvAssignment { name: String::from_str("XDG_DATA_DIRS"), value: data };
            let b = EnvAssignment {
                name: String::from_str("GDK_PIXBUF_MODULEDIR"),
                value: pushed(lib, "/gdk-pixbuf-2.0/2.10.0/loaders"),
            };
            Ok(two_assignments(a, b))
        },
        Platform::MacOs => match exec_dir {
            Err(_) => Err(EnvError::CurrentDir),
            Ok(d) => {
                if macos_is_in_app_bundle(&d.parts) {
                    let data = data_dir(platform, config, exec_dir)?;
                    let lib = lib_dir(platform, config, exec_dir)?;
                    let a = EnvAssignment { name: String::from_str("XDG_DATA_DIRS"), value: data };
                    let b = EnvAssignment {
                        name: String::from_str("GDK_PIXBUF_MODULE_FILE"),
                        value: pushed(lib, "gdk-pixbuf-2.0/2.10.0/loaders.cache"),
                    };
                    Ok(two_assignments(a, b))
                } else {
                    let v: Vec<EnvAssignment> = Vec::new();
                    assert(v@.map_values(|x: EnvAssignment| assignment_view(x)) =~= Seq::empty());
                    Ok(v)
                }
            },
        },
        Platform::Other => {
            let v: Vec<EnvAssignment> = Vec::new();
            assert(v@.map_values(|x: EnvAssignment| assignment_view(x)) =~= Seq::empty());
            Ok(v)
        },
    }
}

/// The package's data lies inside the data directory: whenever both are
/// found, the package's data directory is the data directory with the
/// application's name appended.
pub proof fn lemma_pkg_data_dir_extends_data_dir(
    platform: Platform,
    datadir: Seq<char>,
    app_name: Seq<char>,
    exec_dir: Result<(bool, Option<Seq<char>>), ()>,
)
    ensures
        spec_configured_dir(platform, datadir, bundle_data_suffix(), exec_dir) is Ok ==> ({
            let d = spec_configured_dir(platform, datadir, bundle_data_suffix(), exec_dir)->Ok_0;
            d.push(app_name).subrange(0, d.len() as int) == d && d.push(app_name).last()
                == app_name
        }),
{
    if spec_configured_dir(platform, datadir, bundle_data_suffix(), exec_dir) is Ok {
        let d = spec_configured_dir(platform, datadir, bundle_data_suffix(), exec_dir)->Ok_0;
        assert(d.push(app_name).subrange(0, d.len() as int) =~= d);
    }
}

/// Outside Windows and macOS the directories are exactly the configured
/// ones, whatever the current directory.
pub proof fn lemma_other_platforms_use_configuration(
    configured: Seq<char>,
    suffix: Seq<char>,
    exec_dir: Result<(bool, Option<Seq<char>>), ()>,
)
    ensures
        spec_configured_dir(Platform::Other, configured, suffix, exec_dir) == Ok::<
            Seq<Seq<char>>,
            EnvError,
        >(seq![configured]),
        spec_setup_env(Platform::Other, configured, configured, exec_dir) == Ok::<
            Seq<(Seq<char>, Seq<Seq<char>>)>,
            EnvError,
        >(Seq::empty()),
{
}

} // verus!
