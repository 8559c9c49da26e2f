use rustwide::manifest::CratePatch;
use rustwide::manifest::GitCratePatch;
use rustwide::manifest::PathCratePatch;
use rustwide::manifest::TomlTweaker;
use rustwide::manifest::TomlValue;

fn str_val(s: &str) -> TomlValue {
    TomlValue::Str(s.to_string())
}

fn entry(k: &str, v: TomlValue) -> (String, TomlValue) {
    (k.to_string(), v)
}

#[test]
fn test_tweak_table_noop() {
    let toml = vec![
        entry("cargo-features", TomlValue::Array(vec![str_val("foobar")])),
        entry(
            "package",
            TomlValue::Table(vec![entry("name", str_val("foo")), entry("version", str_val("1.0"))]),
        ),
    ];
    let result = vec![
        entry("cargo-features", TomlValue::Array(vec![str_val("foobar")])),
        entry(
            "package",
            TomlValue::Table(vec![entry("name", str_val("foo")), entry("version", str_val("1.0"))]),
        ),
    ];

    let patches: Vec<CratePatch> = Vec::new();
    let mut tweaker = TomlTweaker::new_with_table(toml, patches);
    tweaker.tweak();

    assert_eq!(tweaker.table, result);
}

#[test]
fn test_tweak_table_changes() {
    let toml = vec![
        entry(
            "cargo-features",
            TomlValue::Array(vec![
                str_val("foobar"),
                str_val("publish-lockfile"),
                str_val("default-run"),
            ]),
        ),
        entry(
            "package",
            TomlValue::Table(vec![
                entry("name", str_val("foo")),
                entry("version", str_val("1.0")),
                entry("workspace", str_val("..")),
                entry("publish-lockfile", TomlValue::Bool(true)),
                entry("default-run", str_val("foo")),
            ]),
        ),
        entry("workspace", TomlValue::Table(vec![entry("members", TomlValue::Array(vec![]))])),
    ];

    let result = vec![
        entry("cargo-features", TomlValue::Array(vec![str_val("foobar")])),
        entry(
            "package",
            TomlValue::Table(vec![entry("name", str_val("foo")), entry("version", str_val("1.0"))]),
        ),
        entry("workspace", TomlValue::Table(vec![entry("members", TomlValue::Array(vec![]))])),
    ];

    let patches: Vec<CratePatch> = Vec::new();
    let mut tweaker = TomlTweaker::new_with_table(toml, patches);
    tweaker.tweak();

    assert_eq!(tweaker.table, result);
}

#[test]
fn test_tweak_table_patches() {
    let toml = vec![
        entry("cargo-features", TomlValue::Array(vec![str_val("foobar")])),
        entry(
            "package",
            TomlValue::Table(vec![entry("name", str_val("foo")), entry("version", str_val("1.0"))]),
        ),
        entry("dependencies", TomlValue::Table(vec![entry("bar", str_val("1.0"))])),
        entry("dev-dependencies", TomlValue::Table(vec![entry("baz", str_val("1.0"))])),
        entry(
            "target",
            TomlValue::Table(vec![entry(
                "cfg(unix)",
                TomlValue::Table(vec![entry(
                    "dependencies",
                    TomlValue::Table(vec![entry("quux", str_val("1.0"))]),
                )]),
            )]),
        ),
    ];

    let result = vec![
        entry("cargo-features", TomlValue::Array(vec![str_val("foobar")])),
        entry(
            "package",
            TomlValue::Table(vec![entry("name", str_val("foo")), entry("version", str_val("1.0"))]),
        ),
        entry("dependencies", TomlValue::Table(vec![entry("bar", str_val("1.0"))])),
        entry("dev-dependencies", TomlValue::Table(vec![entry("baz", str_val("1.0"))])),
        entry(
            "target",
            TomlValue::Table(vec![entry(
                "cfg(unix)",
                TomlValue::Table(vec![entry(
                    "dependencies",
                    TomlValue::Table(vec![entry("quux", str_val("1.0"))]),
                )]),
            )]),
        ),
        entry(
            "patch",
            TomlValue::Table(vec![entry(
                "crates-io",
                TomlValue::Table(vec![
                    entry(
                        "quux",
                        TomlValue::Table(vec![
                            entry("git", str_val("https://git.example.com/quux")),
                            entry("branch", str_val("dev")),
                        ]),
                    ),
                    entry("baz", TomlValue::Table(vec![entry("path", str_val("/path/to/baz"))])),
                ]),
            )]),
        ),
    ];

    let patches = vec![
        CratePatch::Git(GitCratePatch {
            name: "quux".into(),
            uri: "https://git.example.com/quux".into(),
            branch: "dev".into(),
        }),
        CratePatch::Path(PathCratePatch { name: "baz".into(), path: "/path/to/baz".into() }),
    ];
    let mut tweaker = TomlTweaker::new_with_table(toml, patches);
    tweaker.tweak();

    assert_eq!(tweaker.table, result);
}

#[test]
fn tweak_twice_gives_same_table() {
    fn table() -> Vec<(String, TomlValue)> {
        vec![
            entry(
                "cargo-features",
                TomlValue::Array(vec![str_val("foobar"), str_val("publish-lockfile")]),
            ),
            entry(
                "package",
                TomlValue::Table(vec![
                    entry("name", str_val("foo")),
                    entry("version", str_val("1.0")),
                    entry("workspace", str_val("..")),
                    entry("publish-lockfile", TomlValue::Bool(true)),
                ]),
            ),
        ]
    }
    fn patches() -> Vec<CratePatch> {
        vec![CratePatch::Path(PathCratePatch {
            name: "baz".into(),
            path: "/path/to/baz".into(),
        })]
    }

    let mut once = TomlTweaker::new_with_table(table(), patches());
    once.tweak();

    let mut twice = TomlTweaker::new_with_table(table(), patches());
    twice.tweak();
    twice.tweak();

    assert_eq!(once.table, twice.table);
}
