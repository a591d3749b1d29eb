use rnote_ui::env::{
    data_dir, lib_dir, locale_dir, macos_is_in_app_bundle, pkg_data_dir, setup_env, BuildConfig,
    EnvError, ExecDir, PathPart, Platform,
};

fn config() -> BuildConfig {
    BuildConfig {
        libdir: String::from("/usr/lib"),
        datadir: String::from("/usr/share"),
        localedir: String::from("/usr/share/locale"),
        app_name: String::from("rnote"),
    }
}

fn normal(s: &str) -> PathPart {
    PathPart::Normal(String::from(s))
}

fn bundle_dir() -> Result<ExecDir, ()> {
    Ok(ExecDir {
        parts: vec![
            PathPart::Other,
            normal("Applications"),
            normal("Rnote.app"),
            normal("Contents"),
            normal("MacOS"),
        ],
        file_name: Some(String::from("MacOS")),
    })
}

fn plain_dir() -> Result<ExecDir, ()> {
    Ok(ExecDir {
        parts: vec![PathPart::Other, normal("home"), normal("user")],
        file_name: Some(String::from("user")),
    })
}

#[test]
fn bundle_detection() {
    assert!(macos_is_in_app_bundle(&vec![normal("Contents"), normal("MacOS")]));
    assert!(macos_is_in_app_bundle(&vec![
        PathPart::Other,
        normal("x"),
        normal("Contents"),
        normal("MacOS"),
        normal("y")
    ]));
    assert!(!macos_is_in_app_bundle(&vec![normal("MacOS"), normal("Contents")]));
    assert!(!macos_is_in_app_bundle(&vec![normal("Contents"), normal("x"), normal("MacOS")]));
    assert!(!macos_is_in_app_bundle(&vec![normal("Contents")]));
    assert!(!macos_is_in_app_bundle(&vec![]));
    assert!(!macos_is_in_app_bundle(&vec![normal("contents"), normal("macos")]));
}

#[test]
fn dirs_on_linux_are_configured() {
    let c = config();
    assert_eq!(lib_dir(Platform::Other, &c, &Err(())), Ok(vec![String::from("/usr/lib")]));
    assert_eq!(data_dir(Platform::Other, &c, &Err(())), Ok(vec![String::from("/usr/share")]));
    assert_eq!(
        pkg_data_dir(Platform::Other, &c, &Err(())),
        Ok(vec![String::from("/usr/share"), String::from("rnote")])
    );
    assert_eq!(locale_dir(Platform::Other, &c), vec![String::from("/usr/share/locale")]);
}

#[test]
fn dirs_on_windows_are_relative() {
    let c = config();
    assert_eq!(
        lib_dir(Platform::Windows, &c, &Err(())),
        Ok(vec![String::from("../"), String::from("/usr/lib")])
    );
    assert_eq!(
        pkg_data_dir(Platform::Windows, &c, &Err(())),
        Ok(vec![String::from("../"), String::from("/usr/share"), String::from("rnote")])
    );
    assert_eq!(
        locale_dir(Platform::Windows, &c),
        vec![String::from("../"), String::from("/usr/share/locale")]
    );
}

#[test]
fn dirs_in_macos_bundle() {
    let c = config();
    assert_eq!(
        lib_dir(Platform::MacOs, &c, &bundle_dir()),
        Ok(vec![String::from("MacOS"), String::from("/../Resources/lib")])
    );
    assert_eq!(
        data_dir(Platform::MacOs, &c, &bundle_dir()),
        Ok(vec![String::from("MacOS"), String::from("/../Resources/share")])
    );
    assert_eq!(data_dir(Platform::MacOs, &c, &plain_dir()), Ok(vec![String::from("/usr/share")]));
}

#[test]
fn macos_errors() {
    let c = config();
    assert_eq!(data_dir(Platform::MacOs, &c, &Err(())), Err(EnvError::CurrentDir));
    let nameless = Ok(ExecDir { parts: vec![normal("Contents"), normal("MacOS")], file_name: None });
    assert_eq!(lib_dir(Platform::MacOs, &c, &nameless), Err(EnvError::NoExecDirName));
    assert_eq!(pkg_data_dir(Platform::MacOs, &c, &nameless), Err(EnvError::NoExecDirName));
}

fn view(r: Result<Vec<rnote_ui::env::EnvAssignment>, EnvError>) -> Result<Vec<(String, Vec<String>)>, EnvError> {
    r.map(|v| v.into_iter().map(|a| (a.name, a.value)).collect())
}

#[test]
fn setup_env_on_windows() {
    let c = config();
    assert_eq!(
        view(setup_env(Platform::Windows, &c, &Err(()))),
        Ok(vec![
            (String::from("XDG_DATA_DIRS"), vec![String::from("../"), String::from("/usr/share")]),
            (
                String::from("GDK_PIXBUF_MODULEDIR"),
                vec![
                    String::from("../"),
                    String::from("/usr/lib"),
                    String::from("/gdk-pixbuf-2.0/2.10.0/loaders")
                ]
            ),
        ])
    );
}

#[test]
fn setup_env_in_macos_bundle() {
    let c = config();
    assert_eq!(
        view(setup_env(Platform::MacOs, &c, &bundle_dir())),
        Ok(vec![
            (
                String::from("XDG_DATA_DIRS"),
                vec![String::from("MacOS"), String::from("/../Resources/share")]
            ),
            (
                String::from("GDK_PIXBUF_MODULE_FILE"),
                vec![
                    String::from("MacOS"),
                    String::from("/../Resources/lib"),
                    String::from("gdk-pixbuf-2.0/2.10.0/loaders.cache")
                ]
            ),
        ])
    );
}

#[test]
fn setup_env_elsewhere_sets_nothing() {
    let c = config();
    assert_eq!(view(setup_env(Platform::MacOs, &c, &plain_dir())), Ok(vec![]));
    assert_eq!(view(setup_env(Platform::Other, &c, &Err(()))), Ok(vec![]));
    assert_eq!(view(setup_env(Platform::MacOs, &c, &Err(()))), Err(EnvError::CurrentDir));
}
