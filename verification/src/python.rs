//! The Python-ecosystem manifest reader: the module name and declared
//! version from the text of a `setup.cfg`.
//!
//! INI parsing is delegated to the `configparser` crate, which cannot
//! represent a key standing alone on a line (`package_dir =` followed by an
//! indented `= src`).  The text is therefore preprocessed first: any line
//! whose first non-white-space character is `=` gets an `__empty__` key
//! prefixed.  That preprocessing is string logic of this crate and is
//! verified; the parse itself sits behind trusted wrappers.

use vstd::prelude::*;
use vstd::string::StrSliceExecFns;
use vstd::string::StringExecFns;

use crate::error::ManifestError;

verus! {

/// `c` has the Unicode white-space property (the line preprocessing trims
/// it at the start of a line).
pub open spec fn is_white(c: char) -> bool {
    ||| c == '\t'
    ||| c == '\n'
    ||| c == '\u{B}'
    ||| c == '\u{C}'
    ||| c == '\r'
    ||| c == ' '
    ||| c == '\u{85}'
    ||| c == '\u{A0}'
    ||| c == '\u{1680}'
    ||| ('\u{2000}' <= c && c <= '\u{200A}')
    ||| c == '\u{2028}'
    ||| c == '\u{2029}'
    ||| c == '\u{202F}'
    ||| c == '\u{205F}'
    ||| c == '\u{3000}'
}

/// The first index at or after `j` holding a non-white-space character, or
/// the length.
pub open spec fn first_non_white(l: Seq<char>, j: int) -> int
    decreases l.len() - j when 0 <= j <= l.len()
{
    if j < l.len() && is_white(l[j]) {
        first_non_white(l, j + 1)
    } else {
        j
    }
}

/// A line whose first non-white-space character is `=` gets an `__empty__`
/// key prefixed; any other line is kept.
pub open spec fn fix_line(l: Seq<char>) -> Seq<char> {
    let j = first_non_white(l, 0);
    if j < l.len() && l[j] == '=' {
        "__empty__"@ + l
    } else {
        l
    }
}

/// The first index at or after `j` holding a newline, or the length.
pub open spec fn first_nl(s: Seq<char>, j: int) -> int
    decreases s.len() - j when 0 <= j <= s.len()
{
    if j < s.len() && s[j] != '\n' {
        first_nl(s, j + 1)
    } else {
        j
    }
}

proof fn lemma_first_nl_bounds(s: Seq<char>, j: int)
    requires
        0 <= j <= s.len(),
    ensures
        j <= first_nl(s, j) <= s.len(),
    decreases s.len() - j,
{
    if j < s.len() && s[j] != '\n' {
        lemma_first_nl_bounds(s, j + 1);
    }
}

/// A line with its carriage return dropped, when a newline followed it.
pub open spec fn strip_cr(l: Seq<char>) -> Seq<char> {
    if l.len() > 0 && l.last() == '\r' {
        l.drop_last()
    } else {
        l
    }
}

/// The text split into lines (at `\n`, dropping a `\r` that precedes one),
/// each line fixed by `fix_line`, and the lines joined back with `\n`.  A
/// final line ending produces no extra empty line.
pub open spec fn preprocessed(s: Seq<char>) -> Seq<char>
    decreases s.len() via preprocessed_decreases
{
    if s.len() == 0 {
        Seq::<char>::empty()
    } else {
        let i = first_nl(s, 0);
        if i == s.len() {
            fix_line(s)
        } else if i == s.len() - 1 {
            fix_line(strip_cr(s.take(i)))
        } else {
            fix_line(strip_cr(s.take(i))) + seq!['\n'] + preprocessed(
                s.subrange(i + 1, s.len() as int),
            )
        }
    }
}

#[via_fn]
proof fn preprocessed_decreases(s: Seq<char>) {
    if s.len() > 0 {
        lemma_first_nl_bounds(s, 0);
    }
}

fn first_non_white_exec(l: &str, j: usize, n: usize) -> (r: usize)
    requires
        n == l@.len(),
        j <= n,
    ensures
        r as int == first_non_white(l@, j as int),
        j <= r <= n,
    decreases n - j,
{
    if j < n {
        let c = l.get_char(j);
        let white = c == '\t' || c == '\n' || c == '\u{B}' || c == '\u{C}' || c == '\r' || c == ' '
            || c == '\u{85}' || c == '\u{A0}' || c == '\u{1680}' || ('\u{2000}' <= c && c
            <= '\u{200A}') || c == '\u{2028}' || c == '\u{2029}' || c == '\u{202F}' || c
            == '\u{205F}' || c == '\u{3000}';
        if white {
            return first_non_white_exec(l, j + 1, n);
        }
        j
    } else {
        j
    }
}

fn fix_line_exec(l: &str) -> (r: String)
    ensures
        r@ == fix_line(l@),
{
    let n = l.unicode_len();
    let j = first_non_white_exec(l, 0, n);
    if j < n && l.get_char(j) == '=' {
        crate::strutil::concat2("__empty__", l)
    } else {
        l.to_owned()
    }
}

fn strip_cr_exec<'a>(l: &'a str) -> (r: &'a str)
    ensures
        r@ == strip_cr(l@),
{
    let n = l.unicode_len();
    if n > 0 && l.get_char(n - 1) == '\r' {
        l.substring_char(0, n - 1)
    } else {
        l
    }
}

fn first_nl_exec(s: &str, j: usize, n: usize) -> (r: usize)
    requires
        n == s@.len(),
        j <= n,
    ensures
        r as int == first_nl(s@, j as int),
        j <= r <= n,
    decreases n - j,
{
    if j < n {
        if s.get_char(j) != '\n' {
            return first_nl_exec(s, j + 1, n);
        }
        j
    } else {
        j
    }
}

/// The manifest text with every line that starts (after white space) with
/// `=` given an `__empty__` key.
pub fn preprocess(s: &str) -> (r: String)
    ensures
        r@ == preprocessed(s@),
    decreases s@.len(),
{
    let n = s.unicode_len();
    if n == 0 {
        return String::new();
    }
    let i = first_nl_exec(s, 0, n);
    if i == n {
        fix_line_exec(s)
    } else if i == n - 1 {
        let line = s.substring_char(0, i);
        fix_line_exec(strip_cr_exec(line))
    } else {
        let line = s.substring_char(0, i);
        let mut out = fix_line_exec(strip_cr_exec(line));
        let rest = s.substring_char(i + 1, n);
        let rec = preprocess(rest);
        out.append("\n");
        out.append(rec.as_str());
        proof {
            reveal_strlit("\n");
            assert("\n"@ =~= seq!['\n']);
        }
        out
    }
}

/// The sections of an INI text under default parser settings (comment
/// characters `;` and `#`, delimiters `=` and `:`, case folded to lower
/// case), or `None` when the text does not parse.  A key may stand without
/// a value.  The result depends on the text alone.
pub uninterp spec fn ini_of(s: Seq<char>) -> Option<
    Map<Seq<char>, Map<Seq<char>, Option<Seq<char>>>>,
>;

/// What a parsed INI configuration holds: its sections, each a map from key
/// to optional value.
pub uninterp spec fn ini_model(c: configparser::ini::Ini) -> Map<
    Seq<char>,
    Map<Seq<char>, Option<Seq<char>>>,
>;

#[verifier::external_type_specification]
#[verifier::external_body]
pub struct ExIni(configparser::ini::Ini);

/// Relies on `configparser`'s `Ini::new` and `Ini::read`: a parser with the
/// default settings reads the whole text, replacing any previous content,
/// so what it holds afterwards depends on the text alone.
#[verifier::external_body]
fn ini_parse(input: String) -> (r: Result<configparser::ini::Ini, String>)
    ensures
        r is Ok <==> ini_of(input@) is Some,
        r matches Ok(c) ==> ini_of(input@) matches Some(m) && ini_model(c) == m,
{
    let mut conf = configparser::ini::Ini::new();
    match conf.read(input) {
        Ok(_) => Ok(conf),
        Err(e) => Err(e),
    }
}

/// Every character of `s` is ASCII and not an upper-case letter, so the
/// parser's case folding leaves `s` unchanged.
pub open spec fn ascii_no_upper(s: Seq<char>) -> bool {
    forall|i: int| 0 <= i < s.len() ==> (s[i] as u32) < 128 && !('A' <= s[i] && s[i] <= 'Z')
}

/// The value under a section and key, if both exist and the key has one.
pub open spec fn ini_lookup(
    m: Map<Seq<char>, Map<Seq<char>, Option<Seq<char>>>>,
    section: Seq<char>,
    key: Seq<char>,
) -> Option<Seq<char>> {
    if m.contains_key(section) && m[section].contains_key(key) {
        m[section][key]
    } else {
        None
    }
}

/// Relies on `configparser`'s `Ini::get`: the stored value under the
/// section and key.  The parser folds the query to lower case, so the
/// wrapper takes only strings that folding leaves unchanged.  The
/// configuration always comes from `ini_parse`, this module's only source
/// of one, so the defaults (in particular: no default-section cascading)
/// are in force.
#[verifier::external_body]
fn ini_get(conf: &configparser::ini::Ini, section: &str, key: &str) -> (r: Option<String>)
    requires
        ascii_no_upper(section@),
        ascii_no_upper(key@),
    ensures
        r.deep_view() == ini_lookup(ini_model(*conf), section@, key@),
{
    conf.get(section, key)
}

/// The name and declared version of a Python module, as its metadata file
/// states them.
#[derive(Debug, Clone, PartialEq, Eq)]
pub struct Data {
    pub name: String,
    pub version: String,
}

/// The mathematical view of a `Data`.
pub ghost struct DataV {
    pub name: Seq<char>,
    pub version: Seq<char>,
}

impl View for Data {
    type V = DataV;

    open spec fn view(&self) -> DataV {
        DataV { name: self.name@, version: self.version@ }
    }
}

/// What reading a metadata text yields: nothing for an absent file, the
/// `metadata.name` and `metadata.version` values for a well-formed one, an
/// error when the text does not parse or either key is missing (name is
/// checked first).
pub open spec fn module_data_spec(c: Option<Seq<char>>) -> Result<Option<DataV>, ManifestError> {
    match c {
        None => Ok(None),
        Some(s) => match ini_of(preprocessed(s)) {
            None => Err(ManifestError::SetupCfgParse),
            Some(m) => match ini_lookup(m, "metadata"@, "name"@) {
                None => Err(ManifestError::SetupCfgNoName),
                Some(name) => match ini_lookup(m, "metadata"@, "version"@) {
                    None => Err(ManifestError::SetupCfgNoVersion),
                    Some(version) => Ok(Some(DataV { name, version })),
                },
            },
        },
    }
}

/// The two results agree: same success or same error, and on success the
/// same name and version.
pub open spec fn module_result_matches(
    r: Result<Option<Data>, ManifestError>,
    s: Result<Option<DataV>, ManifestError>,
) -> bool {
    match (r, s) {
        (Ok(None), Ok(None)) => true,
        (Ok(Some(d)), Ok(Some(dv))) => d@ == dv,
        (Err(e1), Err(e2)) => e1 == e2,
        _ => false,
    }
}

proof fn lemma_meta_keys_ascii()
    ensures
        ascii_no_upper("metadata"@),
        ascii_no_upper("name"@),
        ascii_no_upper("version"@),
{
    reveal_strlit("metadata");
    reveal_strlit("name");
    reveal_strlit("version");
    assert forall|i: int| 0 <= i < "metadata"@.len() implies ((#[trigger] "metadata"@[i] as u32)
        < 128 && !('A' <= "metadata"@[i] && "metadata"@[i] <= 'Z')) by {
        if i == 0 {
        } else if i == 1 {
        } else if i == 2 {
        } else if i == 3 {
        } else if i == 4 {
        } else if i == 5 {
        } else if i == 6 {
        } else {
            assert(i == 7);
        }
    }
    assert forall|i: int| 0 <= i < "name"@.len() implies ((#[trigger] "name"@[i] as u32) < 128 && !(
    'A' <= "name"@[i] && "name"@[i] <= 'Z')) by {
        if i == 0 {
        } else if i == 1 {
        } else if i == 2 {
        } else {
            assert(i == 3);
        }
    }
    assert forall|i: int| 0 <= i < "version"@.len() implies ((#[trigger] "version"@[i] as u32) < 128
        && !('A' <= "version"@[i] && "version"@[i] <= 'Z')) by {
        if i == 0 {
        } else if i == 1 {
        } else if i == 2 {
        } else if i == 3 {
        } else if i == 4 {
        } else if i == 5 {
        } else {
            assert(i == 6);
        }
    }
}

/// The module name and declared version from the text of a `setup.cfg`,
/// `None` standing for an absent file.  A present file must parse and must
/// carry `metadata.name` and `metadata.version`.
pub fn module_data(contents: &Option<String>) -> (r: Result<Option<Data>, ManifestError>)
    ensures
        module_result_matches(r, module_data_spec(contents.deep_view())),
{
    let s = match contents {
        None => {
            return Ok(None);
        },
        Some(s) => s,
    };
    let pre = preprocess(s.as_str());
    let conf = match ini_parse(pre) {
        Ok(c) => c,
        Err(_) => {
            return Err(ManifestError::SetupCfgParse);
        },
    };
    proof {
        lemma_meta_keys_ascii();
    }
    let name = match ini_get(&conf, "metadata", "name") {
        Some(x) => x,
        None => {
            return Err(ManifestError::SetupCfgNoName);
        },
    };
    let version = match ini_get(&conf, "metadata", "version") {
        Some(x) => x,
        None => {
            return Err(ManifestError::SetupCfgNoVersion);
        },
    };
    Ok(Some(Data { name, version }))
}

/// The declared version alone, from the text of a `setup.cfg`.
pub fn module_version(contents: &Option<String>) -> (r: Result<Option<String>, ManifestError>)
    ensures
        match (r, module_data_spec(contents.deep_view())) {
            (Ok(None), Ok(None)) => true,
            (Ok(Some(v)), Ok(Some(dv))) => v@ == dv.version,
            (Err(e1), Err(e2)) => e1 == e2,
            _ => false,
        },
{
    match module_data(contents) {
        Ok(None) => Ok(None),
        Ok(Some(d)) => Ok(Some(d.version)),
        Err(e) => Err(e),
    }
}

} // verus!
