//! The typed configuration schema: sections with per-field defaults, parsed
//! from a structured document after the optional override patch was merged
//! onto the base document.

use vstd::prelude::*;

use crate::json::{entries_view, jv_lookup, Json, JsonV};

verus! {

/// Why a configuration could not be resolved.
#[derive(Debug)]
pub enum ConfigError {
    /// The base document is missing or unreadable.
    MissingFile,
    /// The override patch is not valid structured data.
    InvalidPatch,
    /// The merged document violates the schema: a known field holds a
    /// value of the wrong primitive type.
    Schema,
}

impl ConfigError {
    /// The description of the failure.
    pub open spec fn spec_message(&self) -> Seq<char> {
        match self {
            ConfigError::MissingFile => "the base configuration document is missing or unreadable"@,
            ConfigError::InvalidPatch => "the override patch is not valid structured data"@,
            ConfigError::Schema => "the merged configuration document violates the schema"@,
        }
    }

    /// A short description of the failure.
    pub fn message(&self) -> (r: String)
        ensures
            r@ == self.spec_message(),
    {
        match self {
            ConfigError::MissingFile => String::from_str(
                "the base configuration document is missing or unreadable",
            ),
            ConfigError::InvalidPatch => String::from_str(
                "the override patch is not valid structured data",
            ),
            ConfigError::Schema => String::from_str(
                "the merged configuration document violates the schema",
            ),
        }
    }
}

/// The embedded server port: a fixed value, or a sentinel meaning
/// "choose a free port at runtime".
#[derive(PartialEq, Eq, Structural, Clone, Copy, Debug)]
pub enum Port {
    /// Port with a numeric value.
    Value(u16),
    /// Random port.
    Random,
}

/// The embedded server configuration section.
pub struct EmbeddedServerConfig {
    /// The embedded server host.
    pub host: String,
    /// The embedded server port; `random` selects one at runtime.
    pub port: Port,
}

/// The bundler configuration section.
pub struct BundleConfig {
    /// Whether bundling runs after a successful compilation.
    pub active: bool,
    /// The bundle identifier.
    pub identifier: String,
}

/// The build configuration section.
pub struct BuildConfig {
    /// The development server path.
    pub dev_path: String,
    /// The distribution directory, relative to the native-shell directory.
    pub dist_dir: String,
    /// A shell command to run before the development server starts.
    pub before_dev_command: Option<String>,
    /// A shell command to run before a build starts.
    pub before_build_command: Option<String>,
    /// Whether the global bridging object is injected into the front-end.
    pub with_global_tauri: bool,
}

// Defaults. Each documented default is a function so that contracts and
// callers can name it.

/// The default embedded server host.
pub fn default_host() -> (r: String)
    ensures
        r@ == "http://127.0.0.1"@,
{
    String::from_str("http://127.0.0.1")
}

/// The default embedded server port: chosen at runtime.
pub fn default_port() -> (r: Port)
    ensures
        r == Port::Random,
{
    Port::Random
}

/// Holds when `c` is the default embedded server configuration.
pub open spec fn is_default_embedded_server(c: EmbeddedServerConfig) -> bool {
    c.host@ == "http://127.0.0.1"@ && c.port == Port::Random
}

/// The default embedded server configuration.
pub fn default_embedded_server() -> (r: EmbeddedServerConfig)
    ensures
        is_default_embedded_server(r),
{
    EmbeddedServerConfig { host: default_host(), port: default_port() }
}

/// Holds when `c` is the default bundler configuration.
pub open spec fn is_default_bundle(c: BundleConfig) -> bool {
    !c.active && c.identifier@ == Seq::<char>::empty()
}

/// The default bundler configuration: inactive, with an empty identifier.
pub fn default_bundle() -> (r: BundleConfig)
    ensures
        is_default_bundle(r),
{
    BundleConfig { active: false, identifier: String::new() }
}

/// The default development server path.
pub fn default_dev_path() -> (r: String)
    ensures
        r@ == Seq::<char>::empty(),
{
    String::new()
}

/// The default distribution directory.
pub fn default_dist_dir() -> (r: String)
    ensures
        r@ == "../dist"@,
{
    String::from_str("../dist")
}

/// Holds when `c` is the default build configuration.
pub open spec fn is_default_build(c: BuildConfig) -> bool {
    &&& c.dev_path@ == Seq::<char>::empty()
    &&& c.dist_dir@ == "../dist"@
    &&& c.before_dev_command is None
    &&& c.before_build_command is None
    &&& !c.with_global_tauri
}

/// The default build configuration.
pub fn default_build() -> (r: BuildConfig)
    ensures
        is_default_build(r),
{
    BuildConfig {
        dev_path: default_dev_path(),
        dist_dir: default_dist_dir(),
        before_dev_command: None,
        before_build_command: None,
        with_global_tauri: false,
    }
}

// Field extraction: each helper states exactly which documents it accepts
// and which value it extracts.

/// View of an optional string.
pub open spec fn opt_str_view(o: Option<String>) -> Option<Seq<char>> {
    match o {
        Some(s) => Some(s@),
        None => None,
    }
}

/// An optional string field accepts absence, null, or a string.
pub open spec fn opt_str_wf(es: Seq<(Seq<char>, JsonV)>, k: Seq<char>) -> bool {
    match jv_lookup(es, k) {
        None => true,
        Some(JsonV::Null) => true,
        Some(JsonV::Str(_)) => true,
        Some(_) => false,
    }
}

/// The value of an optional string field; absence and null mean `None`.
pub open spec fn opt_str_of(es: Seq<(Seq<char>, JsonV)>, k: Seq<char>) -> Option<Seq<char>> {
    match jv_lookup(es, k) {
        Some(JsonV::Str(s)) => Some(s),
        _ => None,
    }
}

fn opt_str_field(es: &Vec<(String, Json)>, k: &str) -> (r: Result<Option<String>, ConfigError>)
    ensures
        r is Ok <==> opt_str_wf(entries_view(es@), k@),
        r is Ok ==> opt_str_view(r->Ok_0) == opt_str_of(entries_view(es@), k@),
{
    match crate::json::obj_lookup(es, k) {
        None => Ok(None),
        Some(j) => match j {
            Json::Null => Ok(None),
            Json::Str(s) => Ok(Some(s.clone())),
            _ => Err(ConfigError::Schema),
        },
    }
}

/// An optional boolean field accepts absence, null, or a boolean.
pub open spec fn opt_bool_wf(es: Seq<(Seq<char>, JsonV)>, k: Seq<char>) -> bool {
    match jv_lookup(es, k) {
        None => true,
        Some(JsonV::Null) => true,
        Some(JsonV::Bool(_)) => true,
        Some(_) => false,
    }
}

/// The value of an optional boolean field.
pub open spec fn opt_bool_of(es: Seq<(Seq<char>, JsonV)>, k: Seq<char>) -> Option<bool> {
    match jv_lookup(es, k) {
        Some(JsonV::Bool(b)) => Some(b),
        _ => None,
    }
}

fn opt_bool_field(es: &Vec<(String, Json)>, k: &str) -> (r: Result<Option<bool>, ConfigError>)
    ensures
        r is Ok <==> opt_bool_wf(entries_view(es@), k@),
        r is Ok ==> r->Ok_0 == opt_bool_of(entries_view(es@), k@),
{
    match crate::json::obj_lookup(es, k) {
        None => Ok(None),
        Some(j) => match j {
            Json::Null => Ok(None),
            Json::Bool(b) => Ok(Some(*b)),
            _ => Err(ConfigError::Schema),
        },
    }
}

/// An optional unsigned count field accepts absence, null, or a
/// non-negative integer.
pub open spec fn opt_u64_wf(es: Seq<(Seq<char>, JsonV)>, k: Seq<char>) -> bool {
    match jv_lookup(es, k) {
        None => true,
        Some(JsonV::Null) => true,
        Some(JsonV::Int(i)) => i >= 0,
        Some(_) => false,
    }
}

/// The value of an optional unsigned count field.
pub open spec fn opt_u64_of(es: Seq<(Seq<char>, JsonV)>, k: Seq<char>) -> Option<u64> {
    match jv_lookup(es, k) {
        Some(JsonV::Int(i)) => Some(i as u64),
        _ => None,
    }
}

fn opt_u64_field(es: &Vec<(String, Json)>, k: &str) -> (r: Result<Option<u64>, ConfigError>)
    ensures
        r is Ok <==> opt_u64_wf(entries_view(es@), k@),
        r is Ok ==> r->Ok_0 == opt_u64_of(entries_view(es@), k@),
{
    match crate::json::obj_lookup(es, k) {
        None => Ok(None),
        Some(j) => match j {
            Json::Null => Ok(None),
            Json::Int(i) => {
                if *i >= 0 {
                    Ok(Some(*i as u64))
                } else {
                    Err(ConfigError::Schema)
                }
            },
            _ => Err(ConfigError::Schema),
        },
    }
}

/// A string field with a default accepts absence or a string.
pub open spec fn str_default_wf(es: Seq<(Seq<char>, JsonV)>, k: Seq<char>) -> bool {
    match jv_lookup(es, k) {
        None => true,
        Some(JsonV::Str(_)) => true,
        Some(_) => false,
    }
}

/// The value of a string field, or the given default when absent.
pub open spec fn str_default_of(
    es: Seq<(Seq<char>, JsonV)>,
    k: Seq<char>,
    d: Seq<char>,
) -> Seq<char> {
    match jv_lookup(es, k) {
        Some(JsonV::Str(s)) => s,
        _ => d,
    }
}

fn str_default_field(es: &Vec<(String, Json)>, k: &str, d: String) -> (r: Result<
    String,
    ConfigError,
>)
    ensures
        r is Ok <==> str_default_wf(entries_view(es@), k@),
        r is Ok ==> r->Ok_0@ == str_default_of(entries_view(es@), k@, d@),
{
    match crate::json::obj_lookup(es, k) {
        None => Ok(d),
        Some(j) => match j {
            Json::Str(s) => Ok(s.clone()),
            _ => Err(ConfigError::Schema),
        },
    }
}

/// A boolean field with a default accepts absence or a boolean.
pub open spec fn bool_default_wf(es: Seq<(Seq<char>, JsonV)>, k: Seq<char>) -> bool {
    match jv_lookup(es, k) {
        None => true,
        Some(JsonV::Bool(_)) => true,
        Some(_) => false,
    }
}

/// The value of a boolean field, or `false` when absent.
pub open spec fn bool_default_of(es: Seq<(Seq<char>, JsonV)>, k: Seq<char>) -> bool {
    match jv_lookup(es, k) {
        Some(JsonV::Bool(b)) => b,
        _ => false,
    }
}

fn bool_default_field(es: &Vec<(String, Json)>, k: &str) -> (r: Result<bool, ConfigError>)
    ensures
        r is Ok <==> bool_default_wf(entries_view(es@), k@),
        r is Ok ==> r->Ok_0 == bool_default_of(entries_view(es@), k@),
{
    match crate::json::obj_lookup(es, k) {
        None => Ok(false),
        Some(j) => match j {
            Json::Bool(b) => Ok(*b),
            _ => Err(ConfigError::Schema),
        },
    }
}

/// An optional single-character field accepts absence, null, or a
/// one-character string.
pub open spec fn opt_char_wf(es: Seq<(Seq<char>, JsonV)>, k: Seq<char>) -> bool {
    match jv_lookup(es, k) {
        None => true,
        Some(JsonV::Null) => true,
        Some(JsonV::Str(s)) => s.len() == 1,
        Some(_) => false,
    }
}

/// The value of an optional single-character field.
pub open spec fn opt_char_of(es: Seq<(Seq<char>, JsonV)>, k: Seq<char>) -> Option<char> {
    match jv_lookup(es, k) {
        Some(JsonV::Str(s)) => Some(s[0]),
        _ => None,
    }
}

fn opt_char_field(es: &Vec<(String, Json)>, k: &str) -> (r: Result<Option<char>, ConfigError>)
    ensures
        r is Ok <==> opt_char_wf(entries_view(es@), k@),
        r is Ok ==> r->Ok_0 == opt_char_of(entries_view(es@), k@),
{
    match crate::json::obj_lookup(es, k) {
        None => Ok(None),
        Some(j) => match j {
            Json::Null => Ok(None),
            Json::Str(s) => {
                if s.as_str().unicode_len() == 1 {
                    Ok(Some(s.as_str().get_char(0)))
                } else {
                    Err(ConfigError::Schema)
                }
            },
            _ => Err(ConfigError::Schema),
        },
    }
}

/// View of an optional list of strings.
pub open spec fn opt_strs_view(o: Option<Vec<String>>) -> Option<Seq<Seq<char>>> {
    match o {
        Some(v) => Some(v@.map_values(|s: String| s@)),
        None => None,
    }
}

/// An optional string-list field accepts absence, null, or an array
/// whose elements are all strings.
pub open spec fn opt_strs_wf(es: Seq<(Seq<char>, JsonV)>, k: Seq<char>) -> bool {
    match jv_lookup(es, k) {
        None => true,
        Some(JsonV::Null) => true,
        Some(JsonV::Arr(a)) => forall|i: int| 0 <= i < a.len() ==> a[i] is Str,
        Some(_) => false,
    }
}

/// The value of an optional string-list field.
pub open spec fn opt_strs_of(es: Seq<(Seq<char>, JsonV)>, k: Seq<char>) -> Option<Seq<Seq<char>>> {
    match jv_lookup(es, k) {
        Some(JsonV::Arr(a)) => Some(a.map_values(|x: JsonV| x->Str_0)),
        _ => None,
    }
}

#[verifier::loop_isolation(false)]
fn opt_strs_field(es: &Vec<(String, Json)>, k: &str) -> (r: Result<
    Option<Vec<String>>,
    ConfigError,
>)
    ensures
        r is Ok <==> opt_strs_wf(entries_view(es@), k@),
        r is Ok ==> opt_strs_view(r->Ok_0) == opt_strs_of(entries_view(es@), k@),
{
    match crate::json::obj_lookup(es, k) {
        None => Ok(None),
        Some(j) => match j {
            Json::Null => Ok(None),
            Json::Arr(a) => {
                proof {
                    crate::json::lemma_arr_view(a@);
                }
                let ghost av = crate::json::arr_view(a@);
                let mut out: Vec<String> = Vec::new();
                let mut i: usize = 0;
                while i < a.len()
                    invariant
                        i <= a@.len(),
                        out@.len() == i,
                        forall|m: int| 0 <= m < i ==> av[m] is Str,
                        forall|m: int| 0 <= m < i ==> out@[m]@ == av[m]->Str_0,
                    decreases a@.len() - i,
                {
                    match &a[i] {
                        Json::Str(s) => {
                            out.push(s.clone());
                        },
                        _ => {
                            proof {
                                assert(av[i as int] == a@[i as int]@);
                                assert(!(av[i as int] is Str));
                            }
                            return Err(ConfigError::Schema);
                        },
                    }
                    i += 1;
                }
                proof {
                    assert(out@.map_values(|s: String| s@) =~= av.map_values(
                        |x: JsonV| x->Str_0,
                    ));
                }
                Ok(Some(out))
            },
            _ => Err(ConfigError::Schema),
        },
    }
}

// The embedded server section.

/// The port field accepts absence, an integer that fits a 16-bit port
/// number, or the literal sentinel string `random`.
pub open spec fn port_wf(es: Seq<(Seq<char>, JsonV)>, k: Seq<char>) -> bool {
    match jv_lookup(es, k) {
        None => true,
        Some(JsonV::Int(i)) => 0 <= i <= 65535,
        Some(JsonV::Str(s)) => s == "random"@,
        Some(_) => false,
    }
}

/// The port value: the sentinel or absence means a runtime-chosen port.
pub open spec fn port_of(es: Seq<(Seq<char>, JsonV)>, k: Seq<char>) -> Port {
    match jv_lookup(es, k) {
        Some(JsonV::Int(i)) => Port::Value(i as u16),
        _ => Port::Random,
    }
}

fn port_field(es: &Vec<(String, Json)>, k: &str) -> (r: Result<Port, ConfigError>)
    ensures
        r is Ok <==> port_wf(entries_view(es@), k@),
        r is Ok ==> r->Ok_0 == port_of(entries_view(es@), k@),
{
    match crate::json::obj_lookup(es, k) {
        None => Ok(Port::Random),
        Some(j) => match j {
            Json::Int(i) => {
                if 0 <= *i && *i <= 65535 {
                    Ok(Port::Value(*i as u16))
                } else {
                    Err(ConfigError::Schema)
                }
            },
            Json::Str(s) => {
                if *s == String::from_str("random") {
                    Ok(Port::Random)
                } else {
                    Err(ConfigError::Schema)
                }
            },
            _ => Err(ConfigError::Schema),
        },
    }
}

/// A well-formed embedded server section is an object whose `host` and
/// `port` fields are well formed.
pub open spec fn embedded_server_wf(v: JsonV) -> bool {
    &&& v is Obj
    &&& str_default_wf(v->Obj_0, "host"@)
    &&& port_wf(v->Obj_0, "port"@)
}

/// Relates an embedded server section to its parsed form.
pub open spec fn embedded_server_rel(v: JsonV, c: EmbeddedServerConfig) -> bool {
    &&& embedded_server_wf(v)
    &&& c.host@ == str_default_of(v->Obj_0, "host"@, "http://127.0.0.1"@)
    &&& c.port == port_of(v->Obj_0, "port"@)
}

fn parse_embedded_server(j: &Json) -> (r: Result<EmbeddedServerConfig, ConfigError>)
    ensures
        r is Ok <==> embedded_server_wf(j@),
        r is Ok ==> embedded_server_rel(j@, r->Ok_0),
{
    match j {
        Json::Obj(es) => {
            let host = str_default_field(es, "host", default_host())?;
            let port = port_field(es, "port")?;
            Ok(EmbeddedServerConfig { host, port })
        },
        _ => Err(ConfigError::Schema),
    }
}

/// A well-formed bundler section is an object with an optional boolean
/// `active` flag and a mandatory string `identifier`.
pub open spec fn bundle_wf(v: JsonV) -> bool {
    &&& v is Obj
    &&& bool_default_wf(v->Obj_0, "active"@)
    &&& jv_lookup(v->Obj_0, "identifier"@) matches Some(JsonV::Str(_))
}

/// Relates a bundler section to its parsed form.
pub open spec fn bundle_rel(v: JsonV, c: BundleConfig) -> bool {
    &&& bundle_wf(v)
    &&& c.active == bool_default_of(v->Obj_0, "active"@)
    &&& Some(JsonV::Str(c.identifier@)) == jv_lookup(v->Obj_0, "identifier"@)
}

fn parse_bundle(j: &Json) -> (r: Result<BundleConfig, ConfigError>)
    ensures
        r is Ok <==> bundle_wf(j@),
        r is Ok ==> bundle_rel(j@, r->Ok_0),
{
    match j {
        Json::Obj(es) => {
            let active = bool_default_field(es, "active")?;
            let identifier = match crate::json::obj_lookup(es, "identifier") {
                Some(Json::Str(s)) => s.clone(),
                _ => {
                    return Err(ConfigError::Schema);
                },
            };
            Ok(BundleConfig { active, identifier })
        },
        _ => Err(ConfigError::Schema),
    }
}

/// A well-formed build section is an object whose fields are well formed.
pub open spec fn build_wf(v: JsonV) -> bool {
    &&& v is Obj
    &&& str_default_wf(v->Obj_0, "devPath"@)
    &&& str_default_wf(v->Obj_0, "distDir"@)
    &&& opt_str_wf(v->Obj_0, "beforeDevCommand"@)
    &&& opt_str_wf(v->Obj_0, "beforeBuildCommand"@)
    &&& bool_default_wf(v->Obj_0, "withGlobalTauri"@)
}

/// Relates a build section to its parsed form.
pub open spec fn build_rel(v: JsonV, c: BuildConfig) -> bool {
    &&& build_wf(v)
    &&& c.dev_path@ == str_default_of(v->Obj_0, "devPath"@, Seq::<char>::empty())
    &&& c.dist_dir@ == str_default_of(v->Obj_0, "distDir"@, "../dist"@)
    &&& opt_str_view(c.before_dev_command) == opt_str_of(v->Obj_0, "beforeDevCommand"@)
    &&& opt_str_view(c.before_build_command) == opt_str_of(v->Obj_0, "beforeBuildCommand"@)
    &&& c.with_global_tauri == bool_default_of(v->Obj_0, "withGlobalTauri"@)
}

fn parse_build(j: &Json) -> (r: Result<BuildConfig, ConfigError>)
    ensures
        r is Ok <==> build_wf(j@),
        r is Ok ==> build_rel(j@, r->Ok_0),
{
    match j {
        Json::Obj(es) => {
            let dev_path = str_default_field(es, "devPath", default_dev_path())?;
            let dist_dir = str_default_field(es, "distDir", default_dist_dir())?;
            let before_dev_command = opt_str_field(es, "beforeDevCommand")?;
            let before_build_command = opt_str_field(es, "beforeBuildCommand")?;
            let with_global_tauri = bool_default_field(es, "withGlobalTauri")?;
            Ok(BuildConfig {
                dev_path,
                dist_dir,
                before_dev_command,
                before_build_command,
                with_global_tauri,
            })
        },
        _ => Err(ConfigError::Schema),
    }
}

// The CLI argument schema.

/// One argument specification of the CLI schema.
pub struct CliArg {
    /// The short flag, without the preceding dash.
    pub short: Option<char>,
    /// The unique argument name.
    pub name: String,
    /// A one-line description shown in the help information.
    pub description: Option<String>,
    /// A detailed, multi-line description shown in the help information.
    pub long_description: Option<String>,
    /// Whether the argument takes a value at run time.
    pub takes_value: Option<bool>,
    /// Whether the argument may appear more than once.
    pub multiple: Option<bool>,
    /// Whether multiple occurrences are counted separately from
    /// multiple values.
    pub multiple_occurrences: Option<bool>,
    /// How many values the argument takes.
    pub number_of_values: Option<u64>,
    /// The closed list of values the argument accepts.
    pub possible_values: Option<Vec<String>>,
    /// The minimum number of values for this argument.
    pub min_values: Option<u64>,
    /// The maximum number of values for this argument.
    pub max_values: Option<u64>,
    /// Whether the argument is required by default.
    pub required: Option<bool>,
    /// Required unless this other argument is present.
    pub required_unless: Option<String>,
    /// Required unless all of these other arguments are present.
    pub required_unless_all: Option<Vec<String>>,
    /// Required unless at least one of these other arguments is present.
    pub required_unless_one: Option<Vec<String>>,
    /// An argument this one conflicts with.
    pub conflicts_with: Option<String>,
    /// Arguments this one conflicts with.
    pub conflicts_with_all: Option<Vec<String>>,
    /// An argument that must be present when this one is.
    pub requires_arg: Option<String>,
    /// Arguments that must all be present when this one is.
    pub requires_all: Option<Vec<String>>,
    /// A conditional requirement `[arg, value]`: the named argument is
    /// required when this one carries the given value.
    pub requires_if: Option<Vec<String>>,
    /// A conditional requirement `[arg, value]`: this argument is
    /// required when the named argument carries the given value.
    pub required_if: Option<Vec<String>>,
    /// Whether options must use the `--option=val` syntax.
    pub require_equals: Option<bool>,
    /// The positional argument index, starting at 1.
    pub index: Option<u64>,
}

/// A well-formed argument specification: an object with a mandatory
/// string `name` and well-formed optional fields.
pub open spec fn cli_arg_wf(v: JsonV) -> bool {
    &&& v is Obj
    &&& {
        let es = v->Obj_0;
        &&& opt_char_wf(es, "short"@)
        &&& jv_lookup(es, "name"@) matches Some(JsonV::Str(_))
        &&& opt_str_wf(es, "description"@)
        &&& opt_str_wf(es, "longDescription"@)
        &&& opt_bool_wf(es, "takesValue"@)
        &&& opt_bool_wf(es, "multiple"@)
        &&& opt_bool_wf(es, "multipleOccurrences"@)
        &&& opt_u64_wf(es, "numberOfValues"@)
        &&& opt_strs_wf(es, "possibleValues"@)
        &&& opt_u64_wf(es, "minValues"@)
        &&& opt_u64_wf(es, "maxValues"@)
        &&& opt_bool_wf(es, "required"@)
        &&& opt_str_wf(es, "requiredUnless"@)
        &&& opt_strs_wf(es, "requiredUnlessAll"@)
        &&& opt_strs_wf(es, "requiredUnlessOne"@)
        &&& opt_str_wf(es, "conflictsWith"@)
        &&& opt_strs_wf(es, "conflictsWithAll"@)
        &&& opt_str_wf(es, "requires"@)
        &&& opt_strs_wf(es, "requiresAll"@)
        &&& opt_strs_wf(es, "requiresIf"@)
        &&& opt_strs_wf(es, "requiredIf"@)
        &&& opt_bool_wf(es, "requireEquals"@)
        &&& opt_u64_wf(es, "index"@)
    }
}

/// Relates an argument specification to its parsed form.
pub open spec fn cli_arg_rel(v: JsonV, c: CliArg) -> bool {
    &&& cli_arg_wf(v)
    &&& {
        let es = v->Obj_0;
        &&& c.short == opt_char_of(es, "short"@)
        &&& Some(JsonV::Str(c.name@)) == jv_lookup(es, "name"@)
        &&& opt_str_view(c.description) == opt_str_of(es, "description"@)
        &&& opt_str_view(c.long_description) == opt_str_of(es, "longDescription"@)
        &&& c.takes_value == opt_bool_of(es, "takesValue"@)
        &&& c.multiple == opt_bool_of(es, "multiple"@)
        &&& c.multiple_occurrences == opt_bool_of(es, "multipleOccurrences"@)
        &&& c.number_of_values == opt_u64_of(es, "numberOfValues"@)
        &&& opt_strs_view(c.possible_values) == opt_strs_of(es, "possibleValues"@)
        &&& c.min_values == opt_u64_of(es, "minValues"@)
        &&& c.max_values == opt_u64_of(es, "maxValues"@)
        &&& c.required == opt_bool_of(es, "required"@)
        &&& opt_str_view(c.required_unless) == opt_str_of(es, "requiredUnless"@)
        &&& opt_strs_view(c.required_unless_all) == opt_strs_of(es, "requiredUnlessAll"@)
        &&& opt_strs_view(c.required_unless_one) == opt_strs_of(es, "requiredUnlessOne"@)
        &&& opt_str_view(c.conflicts_with) == opt_str_of(es, "conflictsWith"@)
        &&& opt_strs_view(c.conflicts_with_all) == opt_strs_of(es, "conflictsWithAll"@)
        &&& opt_str_view(c.requires_arg) == opt_str_of(es, "requires"@)
        &&& opt_strs_view(c.requires_all) == opt_strs_of(es, "requiresAll"@)
        &&& opt_strs_view(c.requires_if) == opt_strs_of(es, "requiresIf"@)
        &&& opt_strs_view(c.required_if) == opt_strs_of(es, "requiredIf"@)
        &&& c.require_equals == opt_bool_of(es, "requireEquals"@)
        &&& c.index == opt_u64_of(es, "index"@)
    }
}

fn parse_cli_arg(j: &Json) -> (r: Result<CliArg, ConfigError>)
    ensures
        r is Ok <==> cli_arg_wf(j@),
        r is Ok ==> cli_arg_rel(j@, r->Ok_0),
{
    match j {
        Json::Obj(es) => {
            let short = opt_char_field(es, "short")?;
            let name = match crate::json::obj_lookup(es, "name") {
                Some(Json::Str(s)) => s.clone(),
                _ => {
                    return Err(ConfigError::Schema);
                },
            };
            let description = opt_str_field(es, "description")?;
            let long_description = opt_str_field(es, "longDescription")?;
            let takes_value = opt_bool_field(es, "takesValue")?;
            let multiple = opt_bool_field(es, "multiple")?;
            let multiple_occurrences = opt_bool_field(es, "multipleOccurrences")?;
            let number_of_values = opt_u64_field(es, "numberOfValues")?;
            let possible_values = opt_strs_field(es, "possibleValues")?;
            let min_values = opt_u64_field(es, "minValues")?;
            let max_values = opt_u64_field(es, "maxValues")?;
            let required = opt_bool_field(es, "required")?;
            let required_unless = opt_str_field(es, "requiredUnless")?;
            let required_unless_all = opt_strs_field(es, "requiredUnlessAll")?;
            let required_unless_one = opt_strs_field(es, "requiredUnlessOne")?;
            let conflicts_with = opt_str_field(es, "conflictsWith")?;
            let conflicts_with_all = opt_strs_field(es, "conflictsWithAll")?;
            let requires_arg = opt_str_field(es, "requires")?;
            let requires_all = opt_strs_field(es, "requiresAll")?;
            let requires_if = opt_strs_field(es, "requiresIf")?;
            let required_if = opt_strs_field(es, "requiredIf")?;
            let require_equals = opt_bool_field(es, "requireEquals")?;
            let index = opt_u64_field(es, "index")?;
            Ok(CliArg {
                short,
                name,
                description,
                long_description,
                takes_value,
                multiple,
                multiple_occurrences,
                number_of_values,
                possible_values,
                min_values,
                max_values,
                required,
                required_unless,
                required_unless_all,
                required_unless_one,
                conflicts_with,
                conflicts_with_all,
                requires_arg,
                requires_all,
                requires_if,
                required_if,
                require_equals,
                index,
            })
        },
        _ => Err(ConfigError::Schema),
    }
}

// The CLI root command schema: recursive through subcommands.

/// A command of the CLI schema: descriptions, help texts, argument
/// specifications, and named subcommands.
pub struct CliConfig {
    /// Command description shown on the help information.
    pub description: Option<String>,
    /// Detailed command description shown on the help information.
    pub long_description: Option<String>,
    /// Help text displayed before the auto-generated help information.
    pub before_help: Option<String>,
    /// Help text displayed after the auto-generated help information.
    pub after_help: Option<String>,
    /// The command's argument specifications.
    pub args: Option<Vec<CliArg>>,
    /// The command's named subcommands.
    pub subcommands: Option<Vec<(String, CliConfig)>>,
}

impl CliConfig {
    /// List of args for the command.
    pub fn args(&self) -> (r: Option<&Vec<CliArg>>)
        ensures
            match r {
                Some(v) => self.args == Some(*v),
                None => self.args is None,
            },
    {
        self.args.as_ref()
    }

    /// List of subcommands of this command.
    pub fn subcommands(&self) -> (r: Option<&Vec<(String, CliConfig)>>)
        ensures
            match r {
                Some(v) => self.subcommands == Some(*v),
                None => self.subcommands is None,
            },
    {
        self.subcommands.as_ref()
    }

    /// Command description which will be shown on the help information.
    pub fn description(&self) -> (r: Option<&String>)
        ensures
            match r {
                Some(v) => self.description == Some(*v),
                None => self.description is None,
            },
    {
        self.description.as_ref()
    }

    /// Command long description which will be shown on the help information.
    pub fn long_description(&self) -> (r: Option<&String>)
        ensures
            match r {
                Some(v) => self.long_description == Some(*v),
                None => self.long_description is None,
            },
    {
        self.long_description.as_ref()
    }

    /// Help information displayed before the auto-generated help text,
    /// often used for header information.
    pub fn before_help(&self) -> (r: Option<&String>)
        ensures
            match r {
                Some(v) => self.before_help == Some(*v),
                None => self.before_help is None,
            },
    {
        self.before_help.as_ref()
    }

    /// Help information displayed after the auto-generated help text,
    /// often used for usage caveats.
    pub fn after_help(&self) -> (r: Option<&String>)
        ensures
            match r {
                Some(v) => self.after_help == Some(*v),
                None => self.after_help is None,
            },
    {
        self.after_help.as_ref()
    }
}

/// Every element of an argument list is a well-formed argument
/// specification.
pub open spec fn arg_list_wf(a: Seq<JsonV>) -> bool {
    forall|i: int| 0 <= i < a.len() ==> #[trigger] cli_arg_wf(a[i])
}

/// The argument-list field accepts absence, null, or an array of
/// well-formed argument specifications.
pub open spec fn args_wf(es: Seq<(Seq<char>, JsonV)>) -> bool {
    match jv_lookup(es, "args"@) {
        None => true,
        Some(JsonV::Null) => true,
        Some(JsonV::Arr(a)) => arg_list_wf(a),
        Some(_) => false,
    }
}

/// Each element of an argument list matches the parsed argument at the
/// same position.
pub open spec fn arg_list_rel(a: Seq<JsonV>, v: Seq<CliArg>) -> bool {
    v.len() == a.len() && forall|i: int| 0 <= i < a.len() ==> #[trigger] cli_arg_rel(a[i], v[i])
}

/// Relates the argument-list field to its parsed form.
pub open spec fn args_rel(es: Seq<(Seq<char>, JsonV)>, o: Option<Vec<CliArg>>) -> bool {
    match jv_lookup(es, "args"@) {
        Some(JsonV::Arr(a)) => match o {
            Some(v) => arg_list_rel(a, v@),
            None => false,
        },
        _ => o is None,
    }
}

/// A well-formed command: an object whose description, help, argument
/// and subcommand fields are well formed, recursively.
pub open spec fn cli_wf(v: JsonV) -> bool
    decreases v, 1int,
{
    &&& v is Obj
    &&& {
        let es = v->Obj_0;
        &&& opt_str_wf(es, "description"@)
        &&& opt_str_wf(es, "longDescription"@)
        &&& opt_str_wf(es, "beforeHelp"@)
        &&& opt_str_wf(es, "afterHelp"@)
        &&& args_wf(es)
        &&& {
            let idx = crate::json::key_index(es, "subcommands"@);
            if 0 <= idx < es.len() {
                match es[idx].1 {
                    JsonV::Null => true,
                    JsonV::Obj(ses) => subs_wf(ses, 0),
                    _ => false,
                }
            } else {
                true
            }
        }
    }
}

/// All subcommand values from index `i` on are well-formed commands.
pub open spec fn subs_wf(ses: Seq<(Seq<char>, JsonV)>, i: int) -> bool
    decreases ses, ses.len() - i,
{
    if 0 <= i < ses.len() {
        cli_wf(ses[i].1) && subs_wf(ses, i + 1)
    } else {
        true
    }
}

/// Relates a command to its parsed form, recursively through the
/// subcommand map.
pub open spec fn cli_rel(v: JsonV, c: CliConfig) -> bool
    decreases v, 1int,
{
    &&& v is Obj
    &&& {
        let es = v->Obj_0;
        &&& opt_str_view(c.description) == opt_str_of(es, "description"@)
        &&& opt_str_view(c.long_description) == opt_str_of(es, "longDescription"@)
        &&& opt_str_view(c.before_help) == opt_str_of(es, "beforeHelp"@)
        &&& opt_str_view(c.after_help) == opt_str_of(es, "afterHelp"@)
        &&& args_rel(es, c.args)
        &&& {
            let idx = crate::json::key_index(es, "subcommands"@);
            if 0 <= idx < es.len() {
                match es[idx].1 {
                    JsonV::Null => c.subcommands is None,
                    JsonV::Obj(ses) => match c.subcommands {
                        Some(subs) => subs@.len() == ses.len() && subs_rel(ses, subs@, 0),
                        None => false,
                    },
                    _ => false,
                }
            } else {
                c.subcommands is None
            }
        }
    }
}

/// The subcommand entries from index `i` on match the parsed pairs:
/// same name, related command.
pub open spec fn subs_rel(
    ses: Seq<(Seq<char>, JsonV)>,
    subs: Seq<(String, CliConfig)>,
    i: int,
) -> bool
    decreases ses, ses.len() - i,
{
    if 0 <= i < ses.len() && i < subs.len() {
        &&& subs[i].0@ == ses[i].0
        &&& cli_rel(ses[i].1, subs[i].1)
        &&& subs_rel(ses, subs, i + 1)
    } else {
        true
    }
}

proof fn lemma_subs_wf_char(ses: Seq<(Seq<char>, JsonV)>, i: int)
    requires
        0 <= i <= ses.len(),
    ensures
        subs_wf(ses, i) <==> (forall|m: int| i <= m < ses.len() ==> cli_wf(#[trigger] ses[m].1)),
    decreases ses.len() - i,
{
    if i < ses.len() {
        lemma_subs_wf_char(ses, i + 1);
    }
}

proof fn lemma_subs_rel_char(ses: Seq<(Seq<char>, JsonV)>, subs: Seq<(String, CliConfig)>, i: int)
    requires
        0 <= i <= ses.len(),
        ses.len() == subs.len(),
    ensures
        subs_rel(ses, subs, i) <==> (forall|m: int|
            i <= m < ses.len() ==> subs[m].0@ == #[trigger] ses[m].0 && cli_rel(
                ses[m].1,
                subs[m].1,
            )),
    decreases ses.len() - i,
{
    if i < ses.len() {
        lemma_subs_rel_char(ses, subs, i + 1);
        assert(subs_rel(ses, subs, i) == (subs[i].0@ == ses[i].0 && cli_rel(ses[i].1, subs[i].1)
            && subs_rel(ses, subs, i + 1)));
    }
}

#[verifier::loop_isolation(false)]
fn parse_cli(j: &Json) -> (r: Result<CliConfig, ConfigError>)
    ensures
        r is Ok <==> cli_wf(j@),
        r is Ok ==> cli_rel(j@, r->Ok_0),
    decreases j,
{
    match j {
        Json::Obj(es) => {
            let description = opt_str_field(es, "description")?;
            let long_description = opt_str_field(es, "longDescription")?;
            let before_help = opt_str_field(es, "beforeHelp")?;
            let after_help = opt_str_field(es, "afterHelp")?;

            // The argument list.
            let args: Option<Vec<CliArg>> = match crate::json::obj_lookup(es, "args") {
                None => None,
                Some(aj) => match aj {
                    Json::Null => None,
                    Json::Arr(a) => {
                        proof {
                            crate::json::lemma_arr_view(a@);
                        }
                        let ghost av = crate::json::arr_view(a@);
                        let mut out: Vec<CliArg> = Vec::new();
                        let mut i: usize = 0;
                        while i < a.len()
                            invariant
                                i <= a@.len(),
                                out@.len() == i,
                                forall|m: int| 0 <= m < i ==> cli_arg_rel(av[m], out@[m]),
                            decreases a@.len() - i,
                        {
                            let arg = match parse_cli_arg(&a[i]) {
                                Ok(arg) => arg,
                                Err(e) => {
                                    proof {
                                        assert(av[i as int] == a@[i as int]@);
                                        assert(!cli_arg_wf(av[i as int]));
                                        assert(jv_lookup(entries_view(es@), "args"@)
                                            == Some(JsonV::Arr(av)));
                                        assert(av.len() == a@.len());
                                        assert(!arg_list_wf(av));
                                        assert(!cli_wf(j@));
                                    }
                                    return Err(e);
                                },
                            };
                            out.push(arg);
                            i += 1;
                        }
                        Some(out)
                    },
                    _ => {
                        return Err(ConfigError::Schema);
                    },
                },
            };

            // The subcommand map; parsed recursively, so the entry is
            // reached through its index to keep the descent structural.
            let sub_key = String::from_str("subcommands");
            let subcommands: Option<Vec<(String, CliConfig)>> = match crate::json::find_key(
                es,
                &sub_key,
            ) {
                None => None,
                Some(jdx) => {
                    proof {
                        crate::json::lemma_entries_view(es@);
                    }
                    match &es[jdx].1 {
                        Json::Null => None,
                        Json::Obj(sv) => {
                            proof {
                                crate::json::lemma_entries_view(sv@);
                            }
                            let ghost sesv = entries_view(sv@);
                            let mut out: Vec<(String, CliConfig)> = Vec::new();
                            let mut i: usize = 0;
                            while i < sv.len()
                                invariant
                                    i <= sv@.len(),
                                    out@.len() == i,
                                    forall|m: int|
                                        #![trigger sesv[m]]
                                        0 <= m < i ==> out@[m].0@ == sesv[m].0 && cli_rel(
                                            sesv[m].1,
                                            out@[m].1,
                                        ),
                                    forall|m: int| 0 <= m < i ==> cli_wf(#[trigger] sesv[m].1),
                                decreases sv@.len() - i,
                            {
                                proof {
                                    assert(decreases_to!(*j => j->Obj_0));
                                    assert(decreases_to!(*es => es@));
                                    assert(decreases_to!(es@ => es@[jdx as int]));
                                    assert(decreases_to!(es@[jdx as int] => es@[jdx as int].1));
                                    assert(decreases_to!(es@[jdx as int].1 => es@[jdx as int].1->Obj_0));
                                    assert(decreases_to!(*sv => sv@));
                                    assert(decreases_to!(sv@ => sv@[i as int]));
                                    assert(decreases_to!(sv@[i as int] => sv@[i as int].1));
                                }
                                let sub = match parse_cli(&sv[i].1) {
                                    Ok(sub) => sub,
                                    Err(e) => {
                                        proof {
                                            assert(sesv[i as int] == (sv@[i as int].0@, sv@[i as int].1@));
                                            assert(!cli_wf(sesv[i as int].1));
                                            lemma_subs_wf_char(sesv, 0);
                                        }
                                        return Err(e);
                                    },
                                };
                                let name = sv[i].0.clone();
                                out.push((name, sub));
                                proof {
                                    assert(sesv[i as int] == (sv@[i as int].0@, sv@[i as int].1@));
                                    assert(out@[i as int].0@ == sesv[i as int].0);
                                    assert(cli_rel(sesv[i as int].1, out@[i as int].1));
                                }
                                i += 1;
                            }
                            proof {
                                lemma_subs_wf_char(sesv, 0);
                                lemma_subs_rel_char(sesv, out@, 0);
                            }
                            Some(out)
                        },
                        _ => {
                            return Err(ConfigError::Schema);
                        },
                    }
                },
            };

            Ok(CliConfig {
                description,
                long_description,
                before_help,
                after_help,
                args,
                subcommands,
            })
        },
        _ => Err(ConfigError::Schema),
    }
}

// The top-level sections.

/// The application-wide configuration section.
pub struct TauriConfig {
    /// The embedded server configuration.
    pub embedded_server: EmbeddedServerConfig,
    /// The CLI schema, when the application exposes one.
    pub cli: Option<CliConfig>,
    /// The bundler configuration.
    pub bundle: BundleConfig,
    /// The allow-list of named capabilities.
    pub allowlist: Vec<(String, bool)>,
}

/// The whole configuration document, typed.
pub struct Config {
    /// The application-wide configuration.
    pub tauri: TauriConfig,
    /// The build configuration.
    pub build: BuildConfig,
    /// Per-plugin configuration documents, passed through unvalidated.
    pub plugins: Vec<(String, Vec<(String, Json)>)>,
}

/// Every allow-list entry holds a boolean.
pub open spec fn allowlist_wf(ses: Seq<(Seq<char>, JsonV)>) -> bool {
    forall|i: int| 0 <= i < ses.len() ==> (#[trigger] ses[i]).1 is Bool
}

/// The parsed allow-list holds the same names and flags, in order.
pub open spec fn allowlist_rel(ses: Seq<(Seq<char>, JsonV)>, al: Seq<(String, bool)>) -> bool {
    &&& al.len() == ses.len()
    &&& forall|i: int|
        0 <= i < ses.len() ==> (#[trigger] al[i]).0@ == ses[i].0 && al[i].1 == ses[i].1->Bool_0
}

/// Every plugin entry holds an object.
pub open spec fn plugins_wf(ses: Seq<(Seq<char>, JsonV)>) -> bool {
    forall|i: int| 0 <= i < ses.len() ==> (#[trigger] ses[i]).1 is Obj
}

/// The parsed plugin map holds the same names and documents, in order.
pub open spec fn plugins_rel(
    ses: Seq<(Seq<char>, JsonV)>,
    ps: Seq<(String, Vec<(String, Json)>)>,
) -> bool {
    &&& ps.len() == ses.len()
    &&& forall|i: int|
        0 <= i < ses.len() ==> (#[trigger] ps[i]).0@ == ses[i].0 && entries_view(ps[i].1@)
            == ses[i].1->Obj_0
}

/// A well-formed application section.
pub open spec fn tauri_wf(v: JsonV) -> bool {
    &&& v is Obj
    &&& {
        let es = v->Obj_0;
        &&& match jv_lookup(es, "embeddedServer"@) {
            None => true,
            Some(x) => embedded_server_wf(x),
        }
        &&& match jv_lookup(es, "cli"@) {
            None => true,
            Some(JsonV::Null) => true,
            Some(x) => cli_wf(x),
        }
        &&& match jv_lookup(es, "bundle"@) {
            None => true,
            Some(x) => bundle_wf(x),
        }
        &&& match jv_lookup(es, "allowlist"@) {
            None => true,
            Some(JsonV::Obj(ses)) => allowlist_wf(ses),
            Some(_) => false,
        }
    }
}

/// Holds when `c` is the default application section.
pub open spec fn is_default_tauri(c: TauriConfig) -> bool {
    &&& is_default_embedded_server(c.embedded_server)
    &&& c.cli is None
    &&& is_default_bundle(c.bundle)
    &&& c.allowlist@.len() == 0
}

/// The default application section.
pub fn default_tauri() -> (r: TauriConfig)
    ensures
        is_default_tauri(r),
{
    TauriConfig {
        embedded_server: default_embedded_server(),
        cli: None,
        bundle: default_bundle(),
        allowlist: Vec::new(),
    }
}

/// Relates an application section to its parsed form.
pub open spec fn tauri_rel(v: JsonV, c: TauriConfig) -> bool {
    &&& v is Obj
    &&& {
        let es = v->Obj_0;
        &&& match jv_lookup(es, "embeddedServer"@) {
            None => is_default_embedded_server(c.embedded_server),
            Some(x) => embedded_server_rel(x, c.embedded_server),
        }
        &&& match jv_lookup(es, "cli"@) {
            None => c.cli is None,
            Some(JsonV::Null) => c.cli is None,
            Some(x) => match c.cli {
                Some(cc) => cli_rel(x, cc),
                None => false,
            },
        }
        &&& match jv_lookup(es, "bundle"@) {
            None => is_default_bundle(c.bundle),
            Some(x) => bundle_rel(x, c.bundle),
        }
        &&& match jv_lookup(es, "allowlist"@) {
            None => c.allowlist@.len() == 0,
            Some(JsonV::Obj(ses)) => allowlist_rel(ses, c.allowlist@),
            Some(_) => false,
        }
    }
}

#[verifier::loop_isolation(false)]
fn parse_tauri(j: &Json) -> (r: Result<TauriConfig, ConfigError>)
    ensures
        r is Ok <==> tauri_wf(j@),
        r is Ok ==> tauri_rel(j@, r->Ok_0),
{
    match j {
        Json::Obj(es) => {
            let embedded_server = match crate::json::obj_lookup(es, "embeddedServer") {
                None => default_embedded_server(),
                Some(x) => parse_embedded_server(x)?,
            };
            let cli = match crate::json::obj_lookup(es, "cli") {
                None => None,
                Some(x) => match x {
                    Json::Null => None,
                    _ => Some(parse_cli(x)?),
                },
            };
            let bundle = match crate::json::obj_lookup(es, "bundle") {
                None => default_bundle(),
                Some(x) => parse_bundle(x)?,
            };
            let allowlist = match crate::json::obj_lookup(es, "allowlist") {
                None => Vec::new(),
                Some(x) => match x {
                    Json::Obj(sv) => {
                        proof {
                            crate::json::lemma_entries_view(sv@);
                        }
                        let ghost sesv = entries_view(sv@);
                        let mut out: Vec<(String, bool)> = Vec::new();
                        let mut i: usize = 0;
                        while i < sv.len()
                            invariant
                                i <= sv@.len(),
                                out@.len() == i,
                                forall|m: int|
                                    #![trigger sesv[m]]
                                    0 <= m < i ==> out@[m].0@ == sesv[m].0 && sesv[m].1 is Bool
                                        && out@[m].1 == sesv[m].1->Bool_0,
                            decreases sv@.len() - i,
                        {
                            match &sv[i].1 {
                                Json::Bool(b) => {
                                    let name = sv[i].0.clone();
                                    out.push((name, *b));
                                },
                                _ => {
                                    proof {
                                        assert(sesv[i as int] == (sv@[i as int].0@, sv@[i as int].1@));
                                        assert(!allowlist_wf(sesv));
                                    }
                                    return Err(ConfigError::Schema);
                                },
                            }
                            i += 1;
                        }
                        out
                    },
                    _ => {
                        return Err(ConfigError::Schema);
                    },
                },
            };
            Ok(TauriConfig { embedded_server, cli, bundle, allowlist })
        },
        _ => Err(ConfigError::Schema),
    }
}

/// A well-formed document: an object whose sections are well formed.
pub open spec fn config_wf(v: JsonV) -> bool {
    &&& v is Obj
    &&& {
        let es = v->Obj_0;
        &&& match jv_lookup(es, "tauri"@) {
            None => true,
            Some(x) => tauri_wf(x),
        }
        &&& match jv_lookup(es, "build"@) {
            None => true,
            Some(x) => build_wf(x),
        }
        &&& match jv_lookup(es, "plugins"@) {
            None => true,
            Some(JsonV::Obj(ses)) => plugins_wf(ses),
            Some(_) => false,
        }
    }
}

/// Relates a document to its parsed form: each section matches, and an
/// absent section takes its documented default.
pub open spec fn config_rel(v: JsonV, c: Config) -> bool {
    &&& v is Obj
    &&& {
        let es = v->Obj_0;
        &&& match jv_lookup(es, "tauri"@) {
            None => is_default_tauri(c.tauri),
            Some(x) => tauri_rel(x, c.tauri),
        }
        &&& match jv_lookup(es, "build"@) {
            None => is_default_build(c.build),
            Some(x) => build_rel(x, c.build),
        }
        &&& match jv_lookup(es, "plugins"@) {
            None => c.plugins@.len() == 0,
            Some(JsonV::Obj(ses)) => plugins_rel(ses, c.plugins@),
            Some(_) => false,
        }
    }
}

impl Config {
    /// Parses a merged document into the typed schema, applying the
    /// documented default for every omitted field and rejecting fields
    /// whose values violate the schema's type expectations.
    #[verifier::loop_isolation(false)]
    pub fn from_json(j: &Json) -> (r: Result<Config, ConfigError>)
        ensures
            r is Ok <==> config_wf(j@),
            r is Ok ==> config_rel(j@, r->Ok_0),
    {
        match j {
            Json::Obj(es) => {
                let tauri = match crate::json::obj_lookup(es, "tauri") {
                    None => default_tauri(),
                    Some(x) => parse_tauri(x)?,
                };
                let build = match crate::json::obj_lookup(es, "build") {
                    None => default_build(),
                    Some(x) => parse_build(x)?,
                };
                let plugins = match crate::json::obj_lookup(es, "plugins") {
                    None => Vec::new(),
                    Some(x) => match x {
                        Json::Obj(sv) => {
                            proof {
                                crate::json::lemma_entries_view(sv@);
                            }
                            let ghost sesv = entries_view(sv@);
                            let mut out: Vec<(String, Vec<(String, Json)>)> = Vec::new();
                            let mut i: usize = 0;
                            while i < sv.len()
                                invariant
                                    i <= sv@.len(),
                                    out@.len() == i,
                                    forall|m: int|
                                        #![trigger sesv[m]]
                                        0 <= m < i ==> out@[m].0@ == sesv[m].0 && sesv[m].1 is Obj
                                            && entries_view(out@[m].1@) == sesv[m].1->Obj_0,
                                decreases sv@.len() - i,
                            {
                                match &sv[i].1 {
                                    Json::Obj(pes) => {
                                        proof {
                                            crate::json::lemma_entries_view(pes@);
                                        }
                                        let mut doc: Vec<(String, Json)> = Vec::new();
                                        let mut m: usize = 0;
                                        while m < pes.len()
                                            invariant
                                                m <= pes@.len(),
                                                doc@.len() == m,
                                                forall|t: int| 0 <= t < m
                                                    ==> (#[trigger] doc@[t]).0@ == pes@[t].0@
                                                        && doc@[t].1@ == pes@[t].1@,
                                            decreases pes@.len() - m,
                                        {
                                            let key = pes[m].0.clone();
                                            let val = pes[m].1.deep_clone();
                                            doc.push((key, val));
                                            m += 1;
                                        }
                                        proof {
                                            crate::json::lemma_entries_view(doc@);
                                            assert(entries_view(doc@) =~= entries_view(pes@));
                                        }
                                        let name = sv[i].0.clone();
                                        out.push((name, doc));
                                    },
                                    _ => {
                                        proof {
                                            assert(sesv[i as int] == (sv@[i as int].0@, sv@[i as int].1@));
                                            assert(!plugins_wf(sesv));
                                        }
                                        return Err(ConfigError::Schema);
                                    },
                                }
                                i += 1;
                            }
                            out
                        },
                        _ => {
                            return Err(ConfigError::Schema);
                        },
                    },
                };
                Ok(Config { tauri, build, plugins })
            },
            _ => Err(ConfigError::Schema),
        }
    }
}

// The configuration store: merge, parse, cache.

/// The view of an optional patch document.
pub open spec fn patch_view(p: Option<Json>) -> Option<JsonV> {
    match p {
        Some(x) => Some(x@),
        None => None,
    }
}

/// The document that results from layering an optional override patch
/// onto the base document.
pub open spec fn merged_doc(base: JsonV, patch: Option<JsonV>) -> JsonV {
    match patch {
        Some(p) => crate::json::jv_merge(base, p),
        None => base,
    }
}

/// Loads, merges, parses and caches the typed configuration. The cached
/// value is reused by every later load until an explicit reload.
pub struct ConfigStore {
    /// The cached configuration, once a load succeeded.
    pub cached: Option<Config>,
}

impl ConfigStore {
    /// An empty store: nothing has been loaded yet.
    pub fn new() -> (r: ConfigStore)
        ensures
            r.cached is None,
    {
        ConfigStore { cached: None }
    }

    /// Resolves the configuration: if a value is cached, later loads
    /// observe exactly that value and the inputs are ignored; otherwise
    /// the patch is merged onto the base document and the result is
    /// parsed and cached.
    pub fn load(&mut self, base: Json, patch: Option<&Json>) -> (r: Result<(), ConfigError>)
        ensures
            old(self).cached is Some ==> *final(self) == *old(self) && r is Ok,
            old(self).cached is None ==> {
                let doc = merged_doc(base@, match patch {
                    Some(p) => Some(p@),
                    None => None,
                });
                &&& (r is Ok <==> config_wf(doc))
                &&& (r is Ok ==> (final(self).cached matches Some(c) && config_rel(doc, c)))
                &&& (r is Err ==> final(self).cached is None)
            },
    {
        if self.cached.is_some() {
            return Ok(());
        }
        self.reload(base, patch)
    }

    /// Merges, parses and caches the configuration anew, ignoring any
    /// cached value. On failure the previous cache is kept.
    pub fn reload(&mut self, base: Json, patch: Option<&Json>) -> (r: Result<(), ConfigError>)
        ensures
            ({
                let doc = merged_doc(base@, match patch {
                    Some(p) => Some(p@),
                    None => None,
                });
                &&& (r is Ok <==> config_wf(doc))
                &&& (r is Ok ==> (final(self).cached matches Some(c) && config_rel(doc, c)))
                &&& (r is Err ==> final(self).cached == old(self).cached)
            }),
    {
        let doc = match patch {
            Some(p) => base.merge(p),
            None => base,
        };
        match Config::from_json(&doc) {
            Ok(c) => {
                self.cached = Some(c);
                Ok(())
            },
            Err(e) => Err(e),
        }
    }

    /// The cached configuration, if a load has succeeded.
    pub fn get(&self) -> (r: Option<&Config>)
        ensures
            match r {
                Some(c) => self.cached == Some(*c),
                None => self.cached is None,
            },
    {
        self.cached.as_ref()
    }
}

} // verus!
