//! The Rust-ecosystem manifest reader: the package name and declared
//! version from the text of a `Cargo.toml`.
//!
//! TOML parsing is delegated to the `toml` crate.  A parsed document is
//! opaque here; what the reader can see of it is captured by the ghost
//! model `TomlNode` and the names `toml_doc`, `table_model` and
//! `value_model`, which the trusted wrappers below relate to each other.

use vstd::prelude::*;
use vstd::string::StrSliceExecFns;

use crate::error::ManifestError;

verus! {

/// What the reader can observe of a TOML value: a string (with the text the
/// value renders to), a table (with the entries and the rendered text), or
/// anything else (only the rendered text).
pub ghost enum TomlNode {
    Str { content: Seq<char>, disp: Seq<char> },
    Table { entries: Map<Seq<char>, TomlNode>, disp: Seq<char> },
    Other { disp: Seq<char> },
}

/// The text a TOML value renders to.
pub open spec fn node_disp(n: TomlNode) -> Seq<char> {
    match n {
        TomlNode::Str { disp, .. } => disp,
        TomlNode::Table { disp, .. } => disp,
        TomlNode::Other { disp } => disp,
    }
}

/// The entries of a table value; anything else has none.
pub open spec fn node_entries(n: TomlNode) -> Map<Seq<char>, TomlNode> {
    match n {
        TomlNode::Table { entries, .. } => entries,
        _ => Map::<Seq<char>, TomlNode>::empty(),
    }
}

/// The document a TOML text parses to, or `None` when it does not parse.
/// Parsing is a function of the text alone.
pub uninterp spec fn toml_doc(s: Seq<char>) -> Option<Map<Seq<char>, TomlNode>>;

/// What a parsed top-level table holds.
pub uninterp spec fn table_model(t: toml::map::Map<String, toml::Value>) -> Map<
    Seq<char>,
    TomlNode,
>;

/// What a parsed TOML value holds.
pub uninterp spec fn value_model(v: toml::Value) -> TomlNode;

#[verifier::external_type_specification]
#[verifier::external_body]
#[verifier::reject_recursive_types(K)]
#[verifier::reject_recursive_types(V)]
pub struct ExTomlMap<K, V>(toml::map::Map<K, V>);

#[verifier::external_type_specification]
#[verifier::external_body]
pub struct ExTomlValue(toml::Value);

#[verifier::external_type_specification]
#[verifier::external_body]
pub struct ExTomlDeError(toml::de::Error);

/// Relies on the `toml` crate's `FromStr` for `Table`: whether the text
/// parses, and to which document, depends on the text alone.
#[verifier::external_body]
fn toml_parse(s: &str) -> (r: Result<toml::map::Map<String, toml::Value>, toml::de::Error>)
    ensures
        r is Ok <==> toml_doc(s@) is Some,
        r matches Ok(t) ==> toml_doc(s@) matches Some(doc) && table_model(t) == doc,
{
    s.parse::<toml::Table>()
}

/// Relies on the `toml` crate's `Map::get`: the value stored under the key,
/// if any.
#[verifier::external_body]
fn table_get<'a>(t: &'a toml::map::Map<String, toml::Value>, key: &str) -> (r: Option<
    &'a toml::Value,
>)
    ensures
        match r {
            Some(v) => table_model(*t).contains_key(key@) && value_model(*v) == table_model(
                *t,
            )[key@],
            None => !table_model(*t).contains_key(key@),
        },
{
    t.get(key)
}

/// Relies on the `toml` crate's `Value::get`: a lookup in a table value;
/// on any other value it finds nothing.
#[verifier::external_body]
fn value_get<'a>(v: &'a toml::Value, key: &str) -> (r: Option<&'a toml::Value>)
    ensures
        match value_model(*v) {
            TomlNode::Table { entries, .. } => match r {
                Some(w) => entries.contains_key(key@) && value_model(*w) == entries[key@],
                None => !entries.contains_key(key@),
            },
            _ => r is None,
        },
{
    v.get(key)
}

/// Relies on the `toml` crate's `Display` for `Value` (through
/// `ToString`): the rendering depends on the value alone.
#[verifier::external_body]
fn value_to_string(v: &toml::Value) -> (r: String)
    ensures
        r@ == node_disp(value_model(*v)),
{
    v.to_string()
}

/// Relies on the `toml` crate's `Value::as_str`: the contained string for a
/// string value, nothing for any other value.
#[verifier::external_body]
fn value_as_str<'a>(v: &'a toml::Value) -> (r: Option<&'a str>)
    ensures
        match value_model(*v) {
            TomlNode::Str { content, .. } => r matches Some(s) && s@ == content,
            _ => r is None,
        },
{
    v.as_str()
}

/// `s` with one surrounding pair of double quotes removed, when both are
/// present.  This undoes the quoting of a rendered TOML string value (inner
/// escapes are kept as rendered).
pub open spec fn strip_quotes(s: Seq<char>) -> Seq<char> {
    if s.len() >= 2 && s[0] == '"' && s.last() == '"' {
        s.subrange(1, s.len() - 1)
    } else {
        s
    }
}

fn strip_quotes_str(s: &str) -> (r: String)
    ensures
        r@ == strip_quotes(s@),
{
    let n = s.unicode_len();
    if n >= 2 && s.get_char(0) == '"' && s.get_char(n - 1) == '"' {
        s.substring_char(1, n - 1).to_owned()
    } else {
        s.to_owned()
    }
}

/// The name and declared version of a crate, as its manifest states them.
#[derive(Debug, Clone, PartialEq, Eq)]
pub struct Crate {
    pub name: String,
    pub version: String,
}

/// The mathematical view of a `Crate`.
pub ghost struct CrateV {
    pub name: Seq<char>,
    pub version: Seq<char>,
}

impl View for Crate {
    type V = CrateV;

    open spec fn view(&self) -> CrateV {
        CrateV { name: self.name@, version: self.version@ }
    }
}

/// What reading a manifest text yields: nothing for an absent file or a
/// workspace manifest; the name (unquoted from its rendering) and version
/// for a package manifest; an error for anything else.  Checks happen in
/// the order: parse, workspace, package, name, version, version-is-string.
pub open spec fn crate_data_spec(c: Option<Seq<char>>) -> Result<Option<CrateV>, ManifestError> {
    match c {
        None => Ok(None),
        Some(s) => match toml_doc(s) {
            None => Err(ManifestError::CargoTomlParse),
            Some(doc) => {
                if doc.contains_key("workspace"@) {
                    Ok(None)
                } else if !doc.contains_key("package"@) {
                    Err(ManifestError::CargoTomlNoPackage)
                } else {
                    let entries = node_entries(doc["package"@]);
                    if !entries.contains_key("name"@) {
                        Err(ManifestError::CargoTomlNoName)
                    } else {
                        let name = strip_quotes(node_disp(entries["name"@]));
                        if !entries.contains_key("version"@) {
                            Err(ManifestError::CargoTomlNoVersion)
                        } else {
                            match entries["version"@] {
                                TomlNode::Str { content, .. } => Ok(
                                    Some(CrateV { name, version: content }),
                                ),
                                _ => Err(ManifestError::CargoTomlVersionNotString),
                            }
                        }
                    }
                }
            },
        },
    }
}

/// The two results agree: same success or same error, and on success the
/// same name and version.
pub open spec fn crate_result_matches(
    r: Result<Option<Crate>, ManifestError>,
    s: Result<Option<CrateV>, ManifestError>,
) -> bool {
    match (r, s) {
        (Ok(None), Ok(None)) => true,
        (Ok(Some(cr)), Ok(Some(cv))) => cr@ == cv,
        (Err(e1), Err(e2)) => e1 == e2,
        _ => false,
    }
}

/// The crate name and declared version from the text of a `Cargo.toml`,
/// `None` standing for an absent file.  A workspace manifest yields
/// nothing; a package manifest must carry `package.name` and a string
/// `package.version`.
pub fn crate_data(contents: &Option<String>) -> (r: Result<Option<Crate>, ManifestError>)
    ensures
        crate_result_matches(r, crate_data_spec(contents.deep_view())),
{
    let s = match contents {
        None => {
            return Ok(None);
        },
        Some(s) => s,
    };
    let table = match toml_parse(s.as_str()) {
        Ok(t) => t,
        Err(_) => {
            return Err(ManifestError::CargoTomlParse);
        },
    };
    if table_get(&table, "workspace").is_some() {
        return Ok(None);
    }
    let package = match table_get(&table, "package") {
        Some(p) => p,
        None => {
            return Err(ManifestError::CargoTomlNoPackage);
        },
    };
    let name_value = match value_get(package, "name") {
        Some(v) => v,
        None => {
            return Err(ManifestError::CargoTomlNoName);
        },
    };
    let rendered = value_to_string(name_value);
    let name = strip_quotes_str(rendered.as_str());
    let version_value = match value_get(package, "version") {
        Some(v) => v,
        None => {
            return Err(ManifestError::CargoTomlNoVersion);
        },
    };
    match value_as_str(version_value) {
        Some(vs) => Ok(Some(Crate { name, version: vs.to_owned() })),
        None => Err(ManifestError::CargoTomlVersionNotString),
    }
}

} // verus!

