use tauri_cli::config::{Config, ConfigError, ConfigStore, Port};
use tauri_cli::Json;

fn s(x: &str) -> String {
    x.to_string()
}

fn obj(entries: Vec<(&str, Json)>) -> Json {
    Json::Obj(entries.into_iter().map(|(k, v)| (s(k), v)).collect())
}

/// Converts a library document into a serde_json value, for comparing
/// the library's merge against the merge-patch of the json-patch crate.
fn to_serde(j: &Json) -> serde_json::Value {
    match j {
        Json::Null => serde_json::Value::Null,
        Json::Bool(b) => serde_json::Value::Bool(*b),
        Json::Int(i) => serde_json::Value::Number(serde_json::Number::from(*i)),
        Json::Str(t) => serde_json::Value::String(t.clone()),
        Json::Arr(a) => serde_json::Value::Array(a.iter().map(to_serde).collect()),
        Json::Obj(es) => serde_json::Value::Object(
            es.iter().map(|(k, v)| (k.clone(), to_serde(v))).collect(),
        ),
    }
}

#[test]
fn merge_removes_null_key() {
    let base = obj(vec![("a", Json::Int(1)), ("b", Json::Int(2))]);
    let patch = obj(vec![("b", Json::Null)]);
    let merged = base.merge(&patch);
    match merged {
        Json::Obj(es) => {
            assert_eq!(es.len(), 1);
            assert_eq!(es[0].0, "a");
            assert!(matches!(es[0].1, Json::Int(1)));
        }
        _ => panic!("merged document must stay an object"),
    }
}

#[test]
fn merge_replaces_scalars_and_arrays_wholesale() {
    let base = obj(vec![
        ("title", Json::Str(s("old"))),
        ("tags", Json::Arr(vec![Json::Str(s("x")), Json::Str(s("y"))])),
    ]);
    let patch = obj(vec![
        ("title", Json::Str(s("new"))),
        ("tags", Json::Arr(vec![Json::Str(s("z"))])),
    ]);
    let merged = base.merge(&patch);
    match merged {
        Json::Obj(es) => {
            assert!(matches!(&es[0].1, Json::Str(t) if t == "new"));
            match &es[1].1 {
                Json::Arr(a) => assert_eq!(a.len(), 1),
                _ => panic!("arrays replace wholesale"),
            }
        }
        _ => panic!("merged document must stay an object"),
    }
}

#[test]
fn merge_objects_recursively() {
    let base = obj(vec![(
        "author",
        obj(vec![("given", Json::Str(s("John"))), ("family", Json::Str(s("Doe")))]),
    )]);
    let patch = obj(vec![("author", obj(vec![("family", Json::Null)]))]);
    let merged = base.merge(&patch);
    match merged {
        Json::Obj(es) => match &es[0].1 {
            Json::Obj(inner) => {
                assert_eq!(inner.len(), 1);
                assert_eq!(inner[0].0, "given");
            }
            _ => panic!("nested object expected"),
        },
        _ => panic!("merged document must stay an object"),
    }
}

#[test]
fn merge_agrees_with_json_patch_crate() {
    let base = obj(vec![
        ("title", Json::Str(s("Goodbye!"))),
        (
            "author",
            obj(vec![("givenName", Json::Str(s("John"))), ("familyName", Json::Str(s("Doe")))]),
        ),
        ("tags", Json::Arr(vec![Json::Str(s("example")), Json::Str(s("sample"))])),
        ("content", Json::Str(s("This will be unchanged"))),
    ]);
    let patch = obj(vec![
        ("title", Json::Str(s("Hello!"))),
        ("phoneNumber", Json::Str(s("+01-123-456-7890"))),
        ("author", obj(vec![("familyName", Json::Null)])),
        ("tags", Json::Arr(vec![Json::Str(s("example"))])),
    ]);

    let mut reference = to_serde(&base);
    json_patch::merge(&mut reference, &to_serde(&patch));

    let merged = base.merge(&patch);
    assert_eq!(to_serde(&merged), reference);
}

#[test]
fn load_caches_first_configuration() {
    let mut store = ConfigStore::new();
    let base = obj(vec![(
        "build",
        obj(vec![("distDir", Json::Str(s("../first")))]),
    )]);
    store.load(base, None).expect("valid document");
    assert_eq!(store.get().unwrap().build.dist_dir, "../first");

    // A second load without reload keeps the cached value, whatever
    // document it is handed.
    let other = obj(vec![(
        "build",
        obj(vec![("distDir", Json::Str(s("../second")))]),
    )]);
    store.load(other, None).expect("cached value wins");
    assert_eq!(store.get().unwrap().build.dist_dir, "../first");
}

#[test]
fn reload_replaces_cached_configuration() {
    let mut store = ConfigStore::new();
    store
        .load(obj(vec![("build", obj(vec![("distDir", Json::Str(s("../first")))]))]), None)
        .unwrap();
    store
        .reload(obj(vec![("build", obj(vec![("distDir", Json::Str(s("../second")))]))]), None)
        .unwrap();
    assert_eq!(store.get().unwrap().build.dist_dir, "../second");
}

#[test]
fn load_applies_merge_patch() {
    let mut store = ConfigStore::new();
    let base = obj(vec![(
        "build",
        obj(vec![("distDir", Json::Str(s("../base"))), ("devPath", Json::Str(s("http://dev")))]),
    )]);
    let patch = obj(vec![("build", obj(vec![("distDir", Json::Str(s("../patched")))]))]);
    store.load(base, Some(&patch)).unwrap();
    let c = store.get().unwrap();
    assert_eq!(c.build.dist_dir, "../patched");
    assert_eq!(c.build.dev_path, "http://dev");
}

#[test]
fn empty_document_takes_all_defaults() {
    let c = Config::from_json(&obj(vec![])).expect("empty document is valid");
    assert_eq!(c.tauri.embedded_server.host, "http://127.0.0.1");
    assert_eq!(c.tauri.embedded_server.port, Port::Random);
    assert!(c.tauri.cli.is_none());
    assert!(!c.tauri.bundle.active);
    assert_eq!(c.tauri.bundle.identifier, "");
    assert!(c.tauri.allowlist.is_empty());
    assert_eq!(c.build.dev_path, "");
    assert_eq!(c.build.dist_dir, "../dist");
    assert!(c.build.before_dev_command.is_none());
    assert!(c.build.before_build_command.is_none());
    assert!(!c.build.with_global_tauri);
    assert!(c.plugins.is_empty());
}

#[test]
fn port_accepts_number_and_sentinel() {
    let with_port = |p: Json| {
        obj(vec![(
            "tauri",
            obj(vec![("embeddedServer", obj(vec![("port", p)]))]),
        )])
    };
    let c = Config::from_json(&with_port(Json::Int(8080))).unwrap();
    assert_eq!(c.tauri.embedded_server.port, Port::Value(8080));

    let c = Config::from_json(&with_port(Json::Str(s("random")))).unwrap();
    assert_eq!(c.tauri.embedded_server.port, Port::Random);

    assert!(matches!(
        Config::from_json(&with_port(Json::Str(s("bogus")))),
        Err(ConfigError::Schema)
    ));
    assert!(matches!(
        Config::from_json(&with_port(Json::Int(70000))),
        Err(ConfigError::Schema)
    ));
    assert!(matches!(
        Config::from_json(&with_port(Json::Int(-1))),
        Err(ConfigError::Schema)
    ));
}

#[test]
fn wrong_primitive_type_is_a_schema_error() {
    let bad = obj(vec![("build", obj(vec![("devPath", Json::Int(5))]))]);
    assert!(matches!(Config::from_json(&bad), Err(ConfigError::Schema)));

    let bad = obj(vec![("build", Json::Str(s("nope")))]);
    assert!(matches!(Config::from_json(&bad), Err(ConfigError::Schema)));
}

#[test]
fn bundle_identifier_is_required_when_section_present() {
    let missing = obj(vec![("tauri", obj(vec![("bundle", obj(vec![("active", Json::Bool(true))]))]))]);
    assert!(matches!(Config::from_json(&missing), Err(ConfigError::Schema)));

    let ok = obj(vec![(
        "tauri",
        obj(vec![(
            "bundle",
            obj(vec![("active", Json::Bool(true)), ("identifier", Json::Str(s("com.example")))]),
        )]),
    )]);
    let c = Config::from_json(&ok).unwrap();
    assert!(c.tauri.bundle.active);
    assert_eq!(c.tauri.bundle.identifier, "com.example");
}

#[test]
fn cli_schema_parses_args_and_subcommands() {
    let doc = obj(vec![(
        "tauri",
        obj(vec![(
            "cli",
            obj(vec![
                ("description", Json::Str(s("root command"))),
                ("longDescription", Json::Str(s("the root command, at length"))),
                (
                    "args",
                    Json::Arr(vec![obj(vec![
                        ("name", Json::Str(s("verbose"))),
                        ("short", Json::Str(s("v"))),
                        ("takesValue", Json::Bool(false)),
                        ("index", Json::Int(1)),
                        ("possibleValues", Json::Arr(vec![Json::Str(s("a")), Json::Str(s("b"))])),
                    ])]),
                ),
                (
                    "subcommands",
                    obj(vec![(
                        "update",
                        obj(vec![("description", Json::Str(s("updates the app")))]),
                    )]),
                ),
            ]),
        )]),
    )]);
    let c = Config::from_json(&doc).unwrap();
    let cli = c.tauri.cli.as_ref().expect("cli section parsed");
    assert_eq!(cli.description().unwrap(), "root command");
    assert_eq!(cli.long_description().unwrap(), "the root command, at length");
    let args = cli.args().expect("args parsed");
    assert_eq!(args.len(), 1);
    assert_eq!(args[0].name, "verbose");
    assert_eq!(args[0].short, Some('v'));
    assert_eq!(args[0].takes_value, Some(false));
    assert_eq!(args[0].index, Some(1));
    assert_eq!(args[0].possible_values.as_ref().unwrap().len(), 2);
    let subs = cli.subcommands().expect("subcommands parsed");
    assert_eq!(subs.len(), 1);
    assert_eq!(subs[0].0, "update");
    assert_eq!(subs[0].1.description().unwrap(), "updates the app");
}

#[test]
fn allowlist_and_plugins_pass_through() {
    let doc = obj(vec![
        (
            "tauri",
            obj(vec![(
                "allowlist",
                obj(vec![("readTextFile", Json::Bool(true)), ("writeFile", Json::Bool(false))]),
            )]),
        ),
        (
            "plugins",
            obj(vec![("telemetry", obj(vec![("endpoint", Json::Str(s("https://example.test")))]))]),
        ),
    ]);
    let c = Config::from_json(&doc).unwrap();
    assert_eq!(c.tauri.allowlist.len(), 2);
    assert_eq!(c.tauri.allowlist[0], (s("readTextFile"), true));
    assert_eq!(c.tauri.allowlist[1], (s("writeFile"), false));
    assert_eq!(c.plugins.len(), 1);
    assert_eq!(c.plugins[0].0, "telemetry");
    assert_eq!(c.plugins[0].1.len(), 1);
    assert_eq!(c.plugins[0].1[0].0, "endpoint");
}

#[test]
fn error_messages_name_the_failure() {
    assert!(ConfigError::MissingFile.message().contains("missing"));
    assert!(ConfigError::InvalidPatch.message().contains("patch"));
    assert!(ConfigError::Schema.message().contains("schema"));
}
