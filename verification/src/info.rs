//! The version-information record and the evaluation engine.
//!
//! `Info` is a flat record of raw facts (git queries, CI environment
//! signals, manifest data) and fields derived from them.  `eval` recomputes
//! every derived field from the raw ones; it is a pure function of the
//! record and can be re-run after changing some raw fields.  The ghost type
//! `InfoV` is the mathematical view of the record, and `eval_spec` states
//! exactly what one evaluation step produces.

use vstd::prelude::*;
use vstd::string::StrSliceExecFns;
use vstd::string::StringExecFns;

use crate::describe;
use crate::error::ManifestError;
use crate::python;
use crate::rust;
use crate::strutil;
use crate::strutil::file_name_of;
use crate::strutil::has_prefix;
use crate::strutil::ltrimv;
use crate::strutil::parses_positive;

verus! {

/// The mathematical view of an `Info` record: every string as a sequence of
/// characters.
#[verifier::ext_equal]
pub ghost struct InfoV {
    pub pwd_basename: Seq<char>,
    pub is_push: Option<bool>,
    pub is_tag: Option<bool>,
    pub is_main: Option<bool>,
    pub is_push_tag: Option<bool>,
    pub is_push_main: Option<bool>,
    pub commit: Seq<char>,
    pub commit_main: Option<Seq<char>>,
    pub is_main_here: Option<bool>,
    pub git_describe_tags: Seq<char>,
    pub tag_latest: Seq<char>,
    pub distance: Option<Seq<char>>,
    pub dash_distance: Option<Seq<char>>,
    pub tag_distance: Option<Seq<char>>,
    pub tag_head: Option<Seq<char>>,
    pub tag_latest_ltrimv: Option<Seq<char>>,
    pub tag_distance_ltrimv: Option<Seq<char>>,
    pub tag_head_ltrimv: Option<Seq<char>>,
    pub rust_crate_name: Option<Seq<char>>,
    pub rust_crate_version: Option<Seq<char>>,
    pub python_module_name: Option<Seq<char>>,
    pub python_module_version: Option<Seq<char>>,
    pub version_mismatch: Option<Seq<char>>,
    pub version_tagged: Option<Seq<char>>,
    pub version_commit: Option<Seq<char>>,
    pub version_docker_ci: Seq<char>,
    pub override_version_tagged: Option<Seq<char>>,
    pub override_version_commit: Option<Seq<char>>,
    pub override_version_docker_ci: Option<Seq<char>>,
    pub name: Seq<char>,
    pub rpm_basename: Seq<char>,
    pub deb_basename: Seq<char>,
}

/// All the version information of a repository.  The raw facts are the
/// event flags, the commits, the tag-description fields, the manifest data,
/// the overrides and the directory basename; `eval` recomputes every other
/// field from them.
#[derive(Debug, Clone)]
pub struct Info {
    pub pwd_basename: String,
    pub is_push: Option<bool>,
    pub is_tag: Option<bool>,
    pub is_main: Option<bool>,
    pub is_push_tag: Option<bool>,
    pub is_push_main: Option<bool>,
    pub commit: String,
    pub commit_main: Option<String>,
    pub is_main_here: Option<bool>,
    pub git_describe_tags: String,
    pub tag_latest: String,
    pub distance: Option<String>,
    pub dash_distance: Option<String>,
    pub tag_distance: Option<String>,
    pub tag_head: Option<String>,
    pub tag_latest_ltrimv: Option<String>,
    pub tag_distance_ltrimv: Option<String>,
    pub tag_head_ltrimv: Option<String>,
    pub rust_crate_name: Option<String>,
    pub rust_crate_version: Option<String>,
    pub python_module_name: Option<String>,
    pub python_module_version: Option<String>,
    pub version_mismatch: Option<String>,
    pub version_tagged: Option<String>,
    pub version_commit: Option<String>,
    pub version_docker_ci: String,
    pub override_version_tagged: Option<String>,
    pub override_version_commit: Option<String>,
    pub override_version_docker_ci: Option<String>,
    pub name: String,
    pub rpm_basename: String,
    pub deb_basename: String,
}

impl View for Info {
    type V = InfoV;

    open spec fn view(&self) -> InfoV {
        InfoV {
            pwd_basename: self.pwd_basename@,
            is_push: self.is_push,
            is_tag: self.is_tag,
            is_main: self.is_main,
            is_push_tag: self.is_push_tag,
            is_push_main: self.is_push_main,
            commit: self.commit@,
            commit_main: self.commit_main.deep_view(),
            is_main_here: self.is_main_here,
            git_describe_tags: self.git_describe_tags@,
            tag_latest: self.tag_latest@,
            distance: self.distance.deep_view(),
            dash_distance: self.dash_distance.deep_view(),
            tag_distance: self.tag_distance.deep_view(),
            tag_head: self.tag_head.deep_view(),
            tag_latest_ltrimv: self.tag_latest_ltrimv.deep_view(),
            tag_distance_ltrimv: self.tag_distance_ltrimv.deep_view(),
            tag_head_ltrimv: self.tag_head_ltrimv.deep_view(),
            rust_crate_name: self.rust_crate_name.deep_view(),
            rust_crate_version: self.rust_crate_version.deep_view(),
            python_module_name: self.python_module_name.deep_view(),
            python_module_version: self.python_module_version.deep_view(),
            version_mismatch: self.version_mismatch.deep_view(),
            version_tagged: self.version_tagged.deep_view(),
            version_commit: self.version_commit.deep_view(),
            version_docker_ci: self.version_docker_ci@,
            override_version_tagged: self.override_version_tagged.deep_view(),
            override_version_commit: self.override_version_commit.deep_view(),
            override_version_docker_ci: self.override_version_docker_ci.deep_view(),
            name: self.name@,
            rpm_basename: self.rpm_basename@,
            deb_basename: self.deb_basename@,
        }
    }
}

impl InfoV {
    /// The view of a freshly constructed record: everything empty or unset.
    pub open spec fn initial() -> InfoV {
        InfoV {
            pwd_basename: Seq::<char>::empty(),
            is_push: None,
            is_tag: None,
            is_main: None,
            is_push_tag: None,
            is_push_main: None,
            commit: Seq::<char>::empty(),
            commit_main: None,
            is_main_here: None,
            git_describe_tags: Seq::<char>::empty(),
            tag_latest: Seq::<char>::empty(),
            distance: None,
            dash_distance: None,
            tag_distance: None,
            tag_head: None,
            tag_latest_ltrimv: None,
            tag_distance_ltrimv: None,
            tag_head_ltrimv: None,
            rust_crate_name: None,
            rust_crate_version: None,
            python_module_name: None,
            python_module_version: None,
            version_mismatch: None,
            version_tagged: None,
            version_commit: None,
            version_docker_ci: Seq::<char>::empty(),
            override_version_tagged: None,
            override_version_commit: None,
            override_version_docker_ci: None,
            name: Seq::<char>::empty(),
            rpm_basename: Seq::<char>::empty(),
            deb_basename: Seq::<char>::empty(),
        }
    }
}

impl Default for Info {
    /// The record with every field empty or unset.
    fn default() -> (r: Info)
        ensures
            r@ == InfoV::initial(),
    {
        let r = Info {
            pwd_basename: String::new(),
            is_push: None,
            is_tag: None,
            is_main: None,
            is_push_tag: None,
            is_push_main: None,
            commit: String::new(),
            commit_main: None,
            is_main_here: None,
            git_describe_tags: String::new(),
            tag_latest: String::new(),
            distance: None,
            dash_distance: None,
            tag_distance: None,
            tag_head: None,
            tag_latest_ltrimv: None,
            tag_distance_ltrimv: None,
            tag_head_ltrimv: None,
            rust_crate_name: None,
            rust_crate_version: None,
            python_module_name: None,
            python_module_version: None,
            version_mismatch: None,
            version_tagged: None,
            version_commit: None,
            version_docker_ci: String::new(),
            override_version_tagged: None,
            override_version_commit: None,
            override_version_docker_ci: None,
            name: String::new(),
            rpm_basename: String::new(),
            deb_basename: String::new(),
        };
        proof {
            assert(r@ =~= InfoV::initial());
        }
        r
    }
}

/// Three-valued conjunction: unknown when either operand is unknown.
pub open spec fn opt_and(a: Option<bool>, b: Option<bool>) -> Option<bool> {
    match (a, b) {
        (Some(x), Some(y)) => Some(x && y),
        _ => None,
    }
}

fn opt_and_exec(a: Option<bool>, b: Option<bool>) -> (r: Option<bool>)
    ensures
        r == opt_and(a, b),
{
    match (a, b) {
        (Some(x), Some(y)) => Some(x && y),
        _ => None,
    }
}

/// The first operand if it is set, otherwise the second.
pub open spec fn opt_or(a: Option<Seq<char>>, b: Option<Seq<char>>) -> Option<Seq<char>> {
    if a is Some {
        a
    } else {
        b
    }
}

fn clone_opt_string(o: &Option<String>) -> (r: Option<String>)
    ensures
        r == *o,
{
    match o {
        Some(s) => Some(s.clone()),
        None => None,
    }
}

fn or_opt(a: &Option<String>, b: &Option<String>) -> (r: Option<String>)
    ensures
        r == (if *a is Some {
            *a
        } else {
            *b
        }),
{
    match a {
        Some(x) => Some(x.clone()),
        None => clone_opt_string(b),
    }
}

/// The mismatch message for a manifest-declared version that disagrees with
/// the tag-derived version.
pub open spec fn mismatch_msg_cargo(tag: Seq<char>, decl: Seq<char>) -> Seq<char> {
    "file=Cargo.toml::Version mismatch: tag "@ + tag + " != "@ + decl + " from Cargo.toml"@
}

/// The same message for the Python metadata file.
pub open spec fn mismatch_msg_setupcfg(tag: Seq<char>, decl: Seq<char>) -> Seq<char> {
    "file=setup.cfg::Version mismatch: tag "@ + tag + " != "@ + decl + " from setup.cfg"@
}

/// How an optional commit string is rendered inside the tag-over-commit
/// message: `None`, or `Some("...")` with the string quoted verbatim.
pub open spec fn opt_rendered(v: Option<Seq<char>>) -> Seq<char> {
    match v {
        None => "None"@,
        Some(s) => "Some(\""@ + s + "\")"@,
    }
}

/// The mismatch message for a tag pushed on a commit that is not the tip of
/// the main branch.
pub open spec fn mismatch_msg_tag_over(
    tag: Seq<char>,
    commit: Seq<char>,
    commit_main: Option<Seq<char>>,
) -> Seq<char> {
    "Version tag "@ + tag + " pushed over "@ + commit + ", but main branch is at "@
        + opt_rendered(commit_main)
}

fn mismatch_cargo_exec(tag: &str, decl: &str) -> (r: String)
    ensures
        r@ == mismatch_msg_cargo(tag@, decl@),
{
    let mut r = String::from_str("file=Cargo.toml::Version mismatch: tag ");
    r.append(tag);
    r.append(" != ");
    r.append(decl);
    r.append(" from Cargo.toml");
    r
}

fn mismatch_setupcfg_exec(tag: &str, decl: &str) -> (r: String)
    ensures
        r@ == mismatch_msg_setupcfg(tag@, decl@),
{
    let mut r = String::from_str("file=setup.cfg::Version mismatch: tag ");
    r.append(tag);
    r.append(" != ");
    r.append(decl);
    r.append(" from setup.cfg");
    r
}

fn mismatch_tag_over_exec(tag: &str, commit: &str, commit_main: &Option<String>) -> (r: String)
    ensures
        r@ == mismatch_msg_tag_over(tag@, commit@, commit_main.deep_view()),
{
    let mut r = String::from_str("Version tag ");
    r.append(tag);
    r.append(" pushed over ");
    r.append(commit);
    r.append(", but main branch is at ");
    match commit_main {
        None => r.append("None"),
        Some(s) => {
            r.append("Some(\"");
            r.append(s.as_str());
            r.append("\")");
        },
    }
    r
}

/// The mismatch diagnostic after one evaluation step, given the freshly
/// derived flags and trimmed tag.  The manifests are checked in a fixed
/// order — Cargo.toml, then setup.cfg — and a later mismatch overwrites an
/// earlier one; the tag-over-commit diagnostic overwrites both.
pub open spec fn eval_mismatch(
    v: InfoV,
    is_push_tag: Option<bool>,
    is_push_main: Option<bool>,
    tag_latest_ltrimv: Option<Seq<char>>,
) -> Option<Seq<char>> {
    match tag_latest_ltrimv {
        None => v.version_mismatch,
        Some(tll) => {
            let m1 = if is_push_tag == Some(true) || is_push_main == Some(true) {
                let mr = match v.rust_crate_version {
                    Some(decl) => if decl != tll {
                        Some(mismatch_msg_cargo(tll, decl))
                    } else {
                        v.version_mismatch
                    },
                    None => v.version_mismatch,
                };
                match v.python_module_version {
                    Some(decl) => if decl != tll {
                        Some(mismatch_msg_setupcfg(tll, decl))
                    } else {
                        mr
                    },
                    None => mr,
                }
            } else {
                v.version_mismatch
            };
            if is_push_tag == Some(true) && v.is_main_here != Some(true) {
                Some(mismatch_msg_tag_over(tll, v.commit, v.commit_main))
            } else {
                m1
            }
        },
    }
}

/// One evaluation step: every derived field recomputed from the raw fields,
/// exactly as `eval` performs it.
pub open spec fn eval_spec(v: InfoV) -> InfoV {
    let is_push_tag = opt_and(v.is_push, v.is_tag);
    let is_push_main = opt_and(v.is_push, v.is_main);
    let dash_distance = match v.distance {
        Some(d) => Some("-"@ + d),
        None => v.dash_distance,
    };
    let tag_distance = match v.distance {
        Some(d) => Some(v.tag_latest + "-"@ + d),
        None => v.tag_distance,
    };
    let tag_latest_ltrimv = match v.distance {
        Some(d) => Some(ltrimv(v.tag_latest)),
        None => v.tag_latest_ltrimv,
    };
    let tag_distance_ltrimv = match v.distance {
        Some(d) => Some(ltrimv(v.tag_latest + "-"@ + d)),
        None => v.tag_distance_ltrimv,
    };
    let tag_head_ltrimv = match v.tag_head {
        Some(t) => Some(ltrimv(t)),
        None => v.tag_head_ltrimv,
    };
    let name = match v.rust_crate_name {
        Some(n) => n,
        None => match v.python_module_name {
            Some(n) => n,
            None => v.pwd_basename,
        },
    };
    let version_tagged = if is_push_tag == Some(true) {
        opt_or(v.override_version_tagged, tag_head_ltrimv)
    } else {
        v.version_tagged
    };
    let version_commit = if is_push_tag == Some(true) {
        opt_or(v.override_version_commit, tag_latest_ltrimv)
    } else if is_push_main == Some(true) && (v.distance matches Some(d) && parses_positive(d)) {
        opt_or(v.override_version_commit, tag_distance_ltrimv)
    } else {
        v.version_commit
    };
    let version_docker_ci = if is_push_tag == Some(true) {
        match opt_or(v.override_version_docker_ci, tag_latest_ltrimv) {
            Some(x) => x,
            None => v.version_docker_ci,
        }
    } else if is_push_main == Some(true) {
        match v.override_version_docker_ci {
            Some(x) => x,
            None => "latest"@,
        }
    } else {
        match v.override_version_docker_ci {
            Some(x) => x,
            None => "null"@,
        }
    };
    let rpm_basename = match version_commit {
        Some(vc) => name + "-"@ + vc,
        None => match tag_distance_ltrimv {
            Some(t) => name + "-"@ + t + "-"@ + v.commit,
            None => name,
        },
    };
    let deb_basename = match version_commit {
        Some(vc) => name + "_"@ + vc,
        None => match tag_distance_ltrimv {
            Some(t) => name + "_"@ + t + "-"@ + v.commit,
            None => name,
        },
    };
    let version_mismatch = eval_mismatch(v, is_push_tag, is_push_main, tag_latest_ltrimv);
    InfoV {
        is_push_tag,
        is_push_main,
        dash_distance,
        tag_distance,
        tag_latest_ltrimv,
        tag_distance_ltrimv,
        tag_head_ltrimv,
        name,
        version_tagged,
        version_commit,
        version_docker_ci,
        rpm_basename,
        deb_basename,
        version_mismatch,
        ..v
    }
}

/// The one degenerate input `eval` cannot take: a push-tag event with no
/// docker override and no trimmed tag to fall back on leaves
/// `version_docker_ci` with no value at all.
pub open spec fn eval_docker_defined(v: InfoV) -> bool {
    (opt_and(v.is_push, v.is_tag) == Some(true) && v.override_version_docker_ci is None) ==> (
    match v.distance {
        Some(_) => true,
        None => v.tag_latest_ltrimv is Some,
    })
}

impl Info {
    /// Recompute every derived field from the raw fields: the derived
    /// booleans, the distance/tag strings and their trimmed variants, the
    /// project name, the three version outputs with override precedence,
    /// the artifact basenames, and the mismatch diagnostic.
    #[verifier::rlimit(100)]
    pub fn eval(&mut self)
        requires
            eval_docker_defined(old(self)@),
        ensures
            final(self)@ == eval_spec(old(self)@),
    {
        self.is_push_tag = opt_and_exec(self.is_push, self.is_tag);
        self.is_push_main = opt_and_exec(self.is_push, self.is_main);
        match clone_opt_string(&self.distance) {
            Some(d) => {
                let dash = strutil::concat2("-", d.as_str());
                self.dash_distance = Some(dash.clone());
                let tagd = strutil::concat2(self.tag_latest.as_str(), dash.as_str());
                self.tag_distance = Some(tagd.clone());
                self.tag_latest_ltrimv = Some(strutil::ltrimv_str(self.tag_latest.as_str()));
                self.tag_distance_ltrimv = Some(strutil::ltrimv_str(tagd.as_str()));
            },
            None => {},
        }
        match clone_opt_string(&self.tag_head) {
            Some(t) => {
                self.tag_head_ltrimv = Some(strutil::ltrimv_str(t.as_str()));
            },
            None => {},
        }
        self.name = match &self.rust_crate_name {
            Some(n) => n.clone(),
            None => match &self.python_module_name {
                Some(n) => n.clone(),
                None => self.pwd_basename.clone(),
            },
        };
        let push_tag = self.is_push_tag == Some(true);
        let push_main = self.is_push_main == Some(true);
        if push_tag {
            self.version_tagged = or_opt(&self.override_version_tagged, &self.tag_head_ltrimv);
            self.version_commit = or_opt(&self.override_version_commit, &self.tag_latest_ltrimv);
            match or_opt(&self.override_version_docker_ci, &self.tag_latest_ltrimv) {
                Some(x) => {
                    self.version_docker_ci = x;
                },
                None => {
                    // excluded by eval_docker_defined
                    proof {
                        assert(false);
                    }
                },
            }
        } else if push_main {
            let positive = match &self.distance {
                Some(d) => strutil::is_positive_distance(d.as_str()),
                None => false,
            };
            if positive {
                self.version_commit = or_opt(
                    &self.override_version_commit,
                    &self.tag_distance_ltrimv,
                );
            }
            self.version_docker_ci = match &self.override_version_docker_ci {
                Some(x) => x.clone(),
                None => String::from_str("latest"),
            };
        } else {
            self.version_docker_ci = match &self.override_version_docker_ci {
                Some(x) => x.clone(),
                None => String::from_str("null"),
            };
        }
        match clone_opt_string(&self.version_commit) {
            Some(vc) => {
                self.rpm_basename = strutil::concat3(self.name.as_str(), "-", vc.as_str());
                self.deb_basename = strutil::concat3(self.name.as_str(), "_", vc.as_str());
            },
            None => match clone_opt_string(&self.tag_distance_ltrimv) {
                Some(t) => {
                    let head_rpm = strutil::concat3(self.name.as_str(), "-", t.as_str());
                    let head_deb = strutil::concat3(self.name.as_str(), "_", t.as_str());
                    self.rpm_basename = strutil::concat3(
                        head_rpm.as_str(),
                        "-",
                        self.commit.as_str(),
                    );
                    self.deb_basename = strutil::concat3(
                        head_deb.as_str(),
                        "-",
                        self.commit.as_str(),
                    );
                },
                None => {
                    self.rpm_basename = self.name.clone();
                    self.deb_basename = self.name.clone();
                },
            },
        }
        match clone_opt_string(&self.tag_latest_ltrimv) {
            None => {},
            Some(tll) => {
                if push_tag || push_main {
                    match &self.rust_crate_version {
                        Some(decl) => {
                            if !strutil::str_eq(decl.as_str(), tll.as_str()) {
                                self.version_mismatch = Some(
                                    mismatch_cargo_exec(tll.as_str(), decl.as_str()),
                                );
                            }
                        },
                        None => {},
                    }
                    match &self.python_module_version {
                        Some(decl) => {
                            if !strutil::str_eq(decl.as_str(), tll.as_str()) {
                                self.version_mismatch = Some(
                                    mismatch_setupcfg_exec(tll.as_str(), decl.as_str()),
                                );
                            }
                        },
                        None => {},
                    }
                }
                if push_tag && !(self.is_main_here == Some(true)) {
                    self.version_mismatch = Some(
                        mismatch_tag_over_exec(
                            tll.as_str(),
                            self.commit.as_str(),
                            &self.commit_main,
                        ),
                    );
                }
            },
        }
        proof {
            assert(self@ =~= eval_spec(old(self)@));
        }
    }
}

/// What parsing a description string does to the record: the raw string is
/// kept, the tag and distance are taken from the split when there is one,
/// and a string without the `-N-gHEX` suffix is a tag the commit sits on
/// exactly, with distance zero.
pub open spec fn describe_apply(v: InfoV, s: Seq<char>) -> InfoV {
    InfoV {
        git_describe_tags: s,
        tag_latest: describe::parsed_tag(s),
        distance: Some(describe::parsed_distance(s)),
        tag_head: if !describe::describe_matched(s) {
            Some(s)
        } else {
            v.tag_head
        },
        ..v
    }
}

/// What one environment pair does to the record.  `PWD` supplies the
/// fallback project name (its final path component); the CI event name and
/// ref classify the event; the three override variables supply the override
/// strings.  Any other key is ignored.
pub open spec fn env_apply(v: InfoV, k: Seq<char>, val: Seq<char>) -> InfoV {
    if k == "PWD"@ {
        InfoV {
            pwd_basename: match file_name_of(val) {
                Some(b) => b,
                None => v.pwd_basename,
            },
            ..v
        }
    } else if k == "GITHUB_EVENT_NAME"@ {
        InfoV { is_push: Some(val == "push"@), ..v }
    } else if k == "GITHUB_REF"@ {
        InfoV {
            is_tag: Some(has_prefix(val, "refs/tags/"@)),
            is_main: Some(val == "refs/heads/main"@ || val == "refs/heads/master"@),
            ..v
        }
    } else if k == "OVERRIDE_VERSION_TAGGED"@ {
        InfoV { override_version_tagged: Some(val), ..v }
    } else if k == "OVERRIDE_VERSION_COMMIT"@ {
        InfoV { override_version_commit: Some(val), ..v }
    } else if k == "OVERRIDE_VERSION_DOCKER_CI"@ {
        InfoV { override_version_docker_ci: Some(val), ..v }
    } else {
        v
    }
}

/// The environment pairs applied in order.
pub open spec fn env_fold(v: InfoV, pairs: Seq<(String, String)>) -> InfoV
    decreases pairs.len(),
{
    if pairs.len() == 0 {
        v
    } else {
        env_fold(env_apply(v, pairs[0].0@, pairs[0].1@), pairs.drop_first())
    }
}

/// Every `PWD` value among the pairs has a final path component.
pub open spec fn env_pwd_ok(pairs: Seq<(String, String)>) -> bool {
    forall|i: int|
        0 <= i < pairs.len() && pairs[i].0@ == "PWD"@ ==> file_name_of(#[trigger] pairs[i].1@)
            is Some
}

impl Info {
    /// Parse the raw output of the git tag-description query into
    /// `tag_latest`, `distance` and (when the commit is exactly on a tag)
    /// `tag_head`.
    pub fn parse_describe(&mut self, s: &str)
        ensures
            final(self)@ == describe_apply(old(self)@, s@),
    {
        let (tag, dist, on_tag) = describe::parse_tag_distance(s);
        self.git_describe_tags = s.to_owned();
        self.tag_latest = tag;
        self.distance = Some(dist);
        if on_tag {
            self.tag_head = Some(s.to_owned());
        }
        proof {
            assert(self@ =~= describe_apply(old(self)@, s@));
        }
    }

    /// Read the CI signals from a list of environment pairs, in order.
    ///
    /// A `PWD` value must have a final path component to supply the
    /// fallback project name.
    pub fn parse_env(&mut self, pairs: &Vec<(String, String)>)
        requires
            env_pwd_ok(pairs@),
        ensures
            final(self)@ == env_fold(old(self)@, pairs@),
    {
        let n = pairs.len();
        let mut idx: usize = 0;
        proof {
            assert(pairs@.skip(0) =~= pairs@);
        }
        while idx < n
            invariant
                idx <= n,
                n == pairs@.len(),
                env_pwd_ok(pairs@),
                env_fold(old(self)@, pairs@) == env_fold(self@, pairs@.skip(idx as int)),
            decreases n - idx,
        {
            let ghost prev = self@;
            let pair = &pairs[idx];
            let k = &pair.0;
            let v = &pair.1;
            if strutil::str_eq(k.as_str(), "PWD") {
                match strutil::file_name(v.as_str()) {
                    Some(b) => {
                        self.pwd_basename = b;
                    },
                    None => {
                        // excluded by env_pwd_ok
                        proof {
                            assert(pairs@[idx as int].0@ == "PWD"@);
                            assert(false);
                        }
                    },
                }
            } else if strutil::str_eq(k.as_str(), "GITHUB_EVENT_NAME") {
                self.is_push = Some(strutil::str_eq(v.as_str(), "push"));
            } else if strutil::str_eq(k.as_str(), "GITHUB_REF") {
                self.is_tag = Some(strutil::str_starts_with(v.as_str(), "refs/tags/"));
                let main1 = strutil::str_eq(v.as_str(), "refs/heads/main");
                let main2 = strutil::str_eq(v.as_str(), "refs/heads/master");
                self.is_main = Some(main1 || main2);
            } else if strutil::str_eq(k.as_str(), "OVERRIDE_VERSION_TAGGED") {
                self.override_version_tagged = Some(v.clone());
            } else if strutil::str_eq(k.as_str(), "OVERRIDE_VERSION_COMMIT") {
                self.override_version_commit = Some(v.clone());
            } else if strutil::str_eq(k.as_str(), "OVERRIDE_VERSION_DOCKER_CI") {
                self.override_version_docker_ci = Some(v.clone());
            }
            proof {
                assert(self@ =~= env_apply(prev, pair.0@, pair.1@));
                assert(pairs@.skip(idx as int)[0] == pairs@[idx as int]);
                assert(pairs@.skip(idx as int).drop_first() =~= pairs@.skip(idx as int + 1));
            }
            idx += 1;
        }
        proof {
            assert(pairs@.skip(n as int) =~= Seq::<(String, String)>::empty());
        }
    }
}

/// What a successful read of the Rust manifest does to the record.
pub open spec fn files_apply_rust(v: InfoV, cargo: Option<Seq<char>>) -> InfoV {
    match rust::crate_data_spec(cargo) {
        Ok(Some(cv)) => InfoV {
            rust_crate_name: Some(cv.name),
            rust_crate_version: Some(cv.version),
            ..v
        },
        _ => v,
    }
}

/// What a successful read of the Python manifest does to the record.
pub open spec fn files_apply_python(v: InfoV, setup: Option<Seq<char>>) -> InfoV {
    match python::module_data_spec(setup) {
        Ok(Some(dv)) => InfoV {
            python_module_name: Some(dv.name),
            python_module_version: Some(dv.version),
            ..v
        },
        _ => v,
    }
}

/// The git queries a workspace answers: the short hash of the checked-out
/// commit, the short hash of the main-branch tip when one is tracked, and
/// the raw tag-description output when any tag is reachable.
#[derive(Debug, Clone)]
pub struct GitFacts {
    pub commit: String,
    pub commit_main: Option<String>,
    pub describe: Option<String>,
}

/// The record as `from_workspace` assembles it right before evaluation:
/// the git facts, then the environment pairs, then the manifests, then the
/// parsed description string.
pub open spec fn workspace_pre(
    commit: Seq<char>,
    commit_main: Option<Seq<char>>,
    describe_out: Option<Seq<char>>,
    env: Seq<(String, String)>,
    cargo: Option<Seq<char>>,
    setup: Option<Seq<char>>,
) -> InfoV {
    let v0 = InfoV {
        commit,
        commit_main,
        is_main_here: match commit_main {
            Some(c) => Some(c == commit),
            None => None,
        },
        ..InfoV::initial()
    };
    let v1 = env_fold(v0, env);
    let v2 = files_apply_python(files_apply_rust(v1, cargo), setup);
    match describe_out {
        Some(d) => describe_apply(v2, d),
        None => v2,
    }
}

impl Info {
    /// Read both manifests into the record: the Rust one first, then the
    /// Python one; the first reader error aborts (fields already read
    /// stay).
    pub fn parse_files(&mut self, cargo_toml: &Option<String>, setup_cfg: &Option<String>) -> (r:
        Result<(), ManifestError>)
        ensures
            match (
                rust::crate_data_spec(cargo_toml.deep_view()),
                python::module_data_spec(setup_cfg.deep_view()),
            ) {
                (Err(e), _) => r == Err::<(), ManifestError>(e) && final(self)@ == old(self)@,
                (Ok(_), Err(e)) => r == Err::<(), ManifestError>(e) && final(self)@
                    == files_apply_rust(old(self)@, cargo_toml.deep_view()),
                (Ok(_), Ok(_)) => r is Ok && final(self)@ == files_apply_python(
                    files_apply_rust(old(self)@, cargo_toml.deep_view()),
                    setup_cfg.deep_view(),
                ),
            },
    {
        match rust::crate_data(cargo_toml) {
            Err(e) => {
                return Err(e);
            },
            Ok(Some(cr)) => {
                self.rust_crate_name = Some(cr.name);
                self.rust_crate_version = Some(cr.version);
            },
            Ok(None) => {},
        }
        proof {
            assert(self@ =~= files_apply_rust(old(self)@, cargo_toml.deep_view()));
        }
        match python::module_data(setup_cfg) {
            Err(e) => {
                return Err(e);
            },
            Ok(Some(d)) => {
                self.python_module_name = Some(d.name);
                self.python_module_version = Some(d.version);
            },
            Ok(None) => {},
        }
        proof {
            assert(self@ =~= files_apply_python(
                files_apply_rust(old(self)@, cargo_toml.deep_view()),
                setup_cfg.deep_view(),
            ));
        }
        Ok(())
    }

    fn assemble(
        git: &GitFacts,
        env: &Vec<(String, String)>,
        cargo_toml: &Option<String>,
        setup_cfg: &Option<String>,
    ) -> (r: Result<Info, ManifestError>)
        requires
            env_pwd_ok(env@),
        ensures
            match (
                rust::crate_data_spec(cargo_toml.deep_view()),
                python::module_data_spec(setup_cfg.deep_view()),
            ) {
                (Err(e), _) => r matches Err(x) && x == e,
                (Ok(_), Err(e)) => r matches Err(x) && x == e,
                (Ok(_), Ok(_)) => r matches Ok(info) && info@ == workspace_pre(
                    git.commit@,
                    git.commit_main.deep_view(),
                    git.describe.deep_view(),
                    env@,
                    cargo_toml.deep_view(),
                    setup_cfg.deep_view(),
                ),
            },
    {
        let mut info = Info::default();
        info.commit = git.commit.clone();
        info.commit_main = clone_opt_string(&git.commit_main);
        info.is_main_here = match &git.commit_main {
            Some(c) => Some(strutil::str_eq(c.as_str(), git.commit.as_str())),
            None => None,
        };
        proof {
            assert(info@ =~= InfoV {
                commit: git.commit@,
                commit_main: git.commit_main.deep_view(),
                is_main_here: match git.commit_main.deep_view() {
                    Some(c) => Some(c == git.commit@),
                    None => None,
                },
                ..InfoV::initial()
            });
        }
        info.parse_env(env);
        match info.parse_files(cargo_toml, setup_cfg) {
            Err(e) => {
                return Err(e);
            },
            Ok(_) => {},
        }
        match &git.describe {
            Some(d) => info.parse_describe(d.as_str()),
            None => {},
        }
        Ok(info)
    }

    /// Whether `eval` can run on this record: false only for the one
    /// degenerate state (a push-tag event with no docker override and no
    /// trimmed tag to fall back on).
    pub fn eval_ready(&self) -> (b: bool)
        ensures
            b == eval_docker_defined(self@),
    {
        let degenerate = self.is_push == Some(true) && self.is_tag == Some(true)
            && self.override_version_docker_ci.is_none() && self.distance.is_none()
            && self.tag_latest_ltrimv.is_none();
        !degenerate
    }

    /// Assemble and evaluate the whole record, checking first that the
    /// gathered facts do not form the degenerate state that `eval` cannot
    /// take; `Ok(None)` reports that state.
    pub fn try_from_workspace(
        git: &GitFacts,
        env: &Vec<(String, String)>,
        cargo_toml: &Option<String>,
        setup_cfg: &Option<String>,
    ) -> (r: Result<Option<Info>, ManifestError>)
        requires
            env_pwd_ok(env@),
        ensures
            ({
                let pre = workspace_pre(
                    git.commit@,
                    git.commit_main.deep_view(),
                    git.describe.deep_view(),
                    env@,
                    cargo_toml.deep_view(),
                    setup_cfg.deep_view(),
                );
                match (
                    rust::crate_data_spec(cargo_toml.deep_view()),
                    python::module_data_spec(setup_cfg.deep_view()),
                ) {
                    (Err(e), _) => r matches Err(x) && x == e,
                    (Ok(_), Err(e)) => r matches Err(x) && x == e,
                    (Ok(_), Ok(_)) => if eval_docker_defined(pre) {
                        r matches Ok(oi) && oi matches Some(info) && info@ == eval_spec(pre)
                    } else {
                        r == Ok::<Option<Info>, ManifestError>(None)
                    },
                }
            }),
    {
        let probe = match Self::assemble(git, env, cargo_toml, setup_cfg) {
            Err(e) => {
                return Err(e);
            },
            Ok(info) => info,
        };
        if !probe.eval_ready() {
            return Ok(None);
        }
        match Self::from_workspace(git, env, cargo_toml, setup_cfg) {
            Err(e) => Err(e),
            Ok(info) => Ok(Some(info)),
        }
    }

    /// Assemble and evaluate the whole record from the gathered raw facts:
    /// git queries, environment pairs, and the two manifest texts.
    pub fn from_workspace(
        git: &GitFacts,
        env: &Vec<(String, String)>,
        cargo_toml: &Option<String>,
        setup_cfg: &Option<String>,
    ) -> (r: Result<Info, ManifestError>)
        requires
            env_pwd_ok(env@),
            eval_docker_defined(
                workspace_pre(
                    git.commit@,
                    git.commit_main.deep_view(),
                    git.describe.deep_view(),
                    env@,
                    cargo_toml.deep_view(),
                    setup_cfg.deep_view(),
                ),
            ),
        ensures
            match (
                rust::crate_data_spec(cargo_toml.deep_view()),
                python::module_data_spec(setup_cfg.deep_view()),
            ) {
                (Err(e), _) => r matches Err(x) && x == e,
                (Ok(_), Err(e)) => r matches Err(x) && x == e,
                (Ok(_), Ok(_)) => r matches Ok(info) && info@ == eval_spec(
                    workspace_pre(
                        git.commit@,
                        git.commit_main.deep_view(),
                        git.describe.deep_view(),
                        env@,
                        cargo_toml.deep_view(),
                        setup_cfg.deep_view(),
                    ),
                ),
            },
    {
        let mut info = match Self::assemble(git, env, cargo_toml, setup_cfg) {
            Err(e) => {
                return Err(e);
            },
            Ok(i) => i,
        };
        info.eval();
        Ok(info)
    }

    /// Whether a recorded version mismatch must fail the run: only a
    /// mismatch found while pushing a tag is fatal.
    pub fn mismatch_is_fatal(&self) -> (r: bool)
        ensures
            r == (self@.version_mismatch is Some && self@.is_push_tag == Some(true)),
    {
        self.version_mismatch.is_some() && self.is_push_tag == Some(true)
    }
}

/// `"true"` or `"false"`, as a character sequence.
pub open spec fn bool_str(b: bool) -> Seq<char> {
    if b {
        "true"@
    } else {
        "false"@
    }
}

/// `s` with the pair appended when the optional string is set.
pub open spec fn with_opt(
    s: Seq<(Seq<char>, Seq<char>)>,
    k: Seq<char>,
    v: Option<Seq<char>>,
) -> Seq<(Seq<char>, Seq<char>)> {
    match v {
        Some(x) => s.push((k, x)),
        None => s,
    }
}

/// `s` with the pair appended when the optional boolean is set.
pub open spec fn with_opt_bool(s: Seq<(Seq<char>, Seq<char>)>, k: Seq<char>, v: Option<bool>) -> Seq<
    (Seq<char>, Seq<char>),
> {
    match v {
        Some(b) => s.push((k, bool_str(b))),
        None => s,
    }
}

/// The ordered key/value rendering of a record: the always-present fields
/// first, then every optional field that is set, in a fixed order.
pub open spec fn fields_spec(v: InfoV) -> Seq<(Seq<char>, Seq<char>)> {
    let s = seq![
        ("name"@, v.name),
        ("commit"@, v.commit),
        ("git_describe_tags"@, v.git_describe_tags),
        ("tag_latest"@, v.tag_latest),
        ("version_docker_ci"@, v.version_docker_ci),
        ("rpm_basename"@, v.rpm_basename),
        ("deb_basename"@, v.deb_basename),
    ];
    let s = with_opt_bool(s, "is_push"@, v.is_push);
    let s = with_opt_bool(s, "is_tag"@, v.is_tag);
    let s = with_opt_bool(s, "is_main"@, v.is_main);
    let s = with_opt_bool(s, "is_push_tag"@, v.is_push_tag);
    let s = with_opt_bool(s, "is_push_main"@, v.is_push_main);
    let s = with_opt(s, "commit_main"@, v.commit_main);
    let s = with_opt_bool(s, "is_main_here"@, v.is_main_here);
    let s = with_opt(s, "tag_head"@, v.tag_head);
    let s = with_opt(s, "tag_head_ltrimv"@, v.tag_head_ltrimv);
    let s = with_opt(s, "distance"@, v.distance);
    let s = with_opt(s, "dash_distance"@, v.dash_distance);
    let s = with_opt(s, "tag_distance"@, v.tag_distance);
    let s = with_opt(s, "tag_latest_ltrimv"@, v.tag_latest_ltrimv);
    let s = with_opt(s, "tag_distance_ltrimv"@, v.tag_distance_ltrimv);
    let s = with_opt(s, "rust_crate_version"@, v.rust_crate_version);
    let s = with_opt(s, "python_module_version"@, v.python_module_version);
    let s = with_opt(s, "version_mismatch"@, v.version_mismatch);
    let s = with_opt(s, "version_tagged"@, v.version_tagged);
    let s = with_opt(s, "version_commit"@, v.version_commit);
    let s = with_opt(s, "override_version_tagged"@, v.override_version_tagged);
    let s = with_opt(s, "override_version_commit"@, v.override_version_commit);
    let s = with_opt(s, "override_version_docker_ci"@, v.override_version_docker_ci);
    s
}

/// One key/value pair rendered as a `key=value` line.
pub open spec fn kv_line(kv: (Seq<char>, Seq<char>)) -> Seq<char> {
    kv.0 + "="@ + kv.1
}

/// Every pair rendered as its `key=value` line.
pub open spec fn lines_of(s: Seq<(Seq<char>, Seq<char>)>) -> Seq<Seq<char>> {
    Seq::new(s.len(), |i: int| kv_line(s[i]))
}

impl Info {
    fn push_field(out: &mut Vec<(String, String)>, k: &'static str, v: &String)
        ensures
            final(out).deep_view() == old(out).deep_view().push((k@, v@)),
    {
        out.push((k.to_owned(), v.clone()));
        proof {
            assert(out.deep_view() =~~= old(out).deep_view().push((k@, v@)));
        }
    }

    fn push_opt(out: &mut Vec<(String, String)>, k: &'static str, v: &Option<String>)
        ensures
            final(out).deep_view() == with_opt(old(out).deep_view(), k@, v.deep_view()),
    {
        match v {
            Some(t) => Self::push_field(out, k, t),
            None => {},
        }
    }

    fn push_opt_bool(out: &mut Vec<(String, String)>, k: &'static str, v: &Option<bool>)
        ensures
            final(out).deep_view() == with_opt_bool(old(out).deep_view(), k@, *v),
    {
        match v {
            Some(b) => {
                let s = String::from_str(bool2str(*b));
                out.push((k.to_owned(), s));
                proof {
                    assert(out.deep_view() =~~= old(out).deep_view().push((k@, bool_str(*b))));
                }
            },
            None => {},
        }
    }

    /// The record rendered as ordered key/value pairs, fields that are
    /// unset omitted.
    pub fn fields(&self) -> (r: Vec<(String, String)>)
        ensures
            r.deep_view() == fields_spec(self@),
    {
        let mut out: Vec<(String, String)> = Vec::new();
        Self::push_field(&mut out, "name", &self.name);
        Self::push_field(&mut out, "commit", &self.commit);
        Self::push_field(&mut out, "git_describe_tags", &self.git_describe_tags);
        Self::push_field(&mut out, "tag_latest", &self.tag_latest);
        Self::push_field(&mut out, "version_docker_ci", &self.version_docker_ci);
        Self::push_field(&mut out, "rpm_basename", &self.rpm_basename);
        Self::push_field(&mut out, "deb_basename", &self.deb_basename);
        proof {
            assert(out.deep_view() =~= seq![
                ("name"@, self@.name),
                ("commit"@, self@.commit),
                ("git_describe_tags"@, self@.git_describe_tags),
                ("tag_latest"@, self@.tag_latest),
                ("version_docker_ci"@, self@.version_docker_ci),
                ("rpm_basename"@, self@.rpm_basename),
                ("deb_basename"@, self@.deb_basename),
            ]);
        }
        Self::push_opt_bool(&mut out, "is_push", &self.is_push);
        Self::push_opt_bool(&mut out, "is_tag", &self.is_tag);
        Self::push_opt_bool(&mut out, "is_main", &self.is_main);
        Self::push_opt_bool(&mut out, "is_push_tag", &self.is_push_tag);
        Self::push_opt_bool(&mut out, "is_push_main", &self.is_push_main);
        Self::push_opt(&mut out, "commit_main", &self.commit_main);
        Self::push_opt_bool(&mut out, "is_main_here", &self.is_main_here);
        Self::push_opt(&mut out, "tag_head", &self.tag_head);
        Self::push_opt(&mut out, "tag_head_ltrimv", &self.tag_head_ltrimv);
        Self::push_opt(&mut out, "distance", &self.distance);
        Self::push_opt(&mut out, "dash_distance", &self.dash_distance);
        Self::push_opt(&mut out, "tag_distance", &self.tag_distance);
        Self::push_opt(&mut out, "tag_latest_ltrimv", &self.tag_latest_ltrimv);
        Self::push_opt(&mut out, "tag_distance_ltrimv", &self.tag_distance_ltrimv);
        Self::push_opt(&mut out, "rust_crate_version", &self.rust_crate_version);
        Self::push_opt(&mut out, "python_module_version", &self.python_module_version);
        Self::push_opt(&mut out, "version_mismatch", &self.version_mismatch);
        Self::push_opt(&mut out, "version_tagged", &self.version_tagged);
        Self::push_opt(&mut out, "version_commit", &self.version_commit);
        Self::push_opt(&mut out, "override_version_tagged", &self.override_version_tagged);
        Self::push_opt(&mut out, "override_version_commit", &self.override_version_commit);
        Self::push_opt(&mut out, "override_version_docker_ci", &self.override_version_docker_ci);
        out
    }

    /// The record rendered as `key=value` lines, in the order of `fields`.
    pub fn output_lines(&self) -> (r: Vec<String>)
        ensures
            r.deep_view() == lines_of(fields_spec(self@)),
    {
        let pairs = self.fields();
        let mut out: Vec<String> = Vec::new();
        let n = pairs.len();
        let mut i: usize = 0;
        while i < n
            invariant
                i <= n,
                n == pairs@.len(),
                out@.len() == i,
                pairs.deep_view() == fields_spec(self@),
                out.deep_view() == lines_of(pairs.deep_view().take(i as int)),
            decreases n - i,
        {
            let kv = &pairs[i];
            let line = strutil::concat3(kv.0.as_str(), "=", kv.1.as_str());
            proof {
                assert(pairs.deep_view()[i as int] == (pairs@[i as int].0@, pairs@[i as int].1@));
                assert(line@ == kv_line(pairs.deep_view()[i as int]));
            }
            let ghost pre = out@;
            out.push(line);
            proof {
                let ghost pd = pairs.deep_view();
                assert forall|j: int| 0 <= j < i + 1 implies out.deep_view()[j] == kv_line(
                    pd.take(i as int + 1)[j],
                ) by {
                    assert(out.deep_view()[j] == out@[j].deep_view());
                    if j < i {
                        assert(out@[j] == pre[j]);
                        assert(pre[j].deep_view() == lines_of(pd.take(i as int))[j]);
                    }
                }
                assert(out.deep_view() =~~= lines_of(pd.take(i as int + 1)));
            }
            i += 1;
        }
        proof {
            assert(pairs.deep_view().take(n as int) =~= pairs.deep_view());
        }
        out
    }
}

/// The parse invariant of the tag-description fields: parsing always sets a
/// distance.  When the string has no distance suffix the commit is exactly
/// on the tag: the distance is zero and the head tag equals the latest tag.
/// When it has one, the head tag stays unset (on a record that had none)
/// and the distance is a nonempty digit string.
pub proof fn lemma_describe_invariant(v: InfoV, s: Seq<char>)
    requires
        v.tag_head is None,
    ensures
        describe_apply(v, s).distance is Some,
        !describe::describe_matched(s) ==> {
            &&& describe_apply(v, s).distance == Some("0"@)
            &&& describe_apply(v, s).tag_head == Some(describe_apply(v, s).tag_latest)
        },
        describe::describe_matched(s) ==> {
            &&& describe_apply(v, s).tag_head is None
            &&& describe_apply(v, s).distance matches Some(d) && d.len() > 0
                && strutil::all_digits(d)
        },
{
    if describe::describe_matched(s) {
        describe::lemma_parsed_distance_digits(s);
    }
}

/// Evaluation is idempotent: a second evaluation of an evaluated record,
/// with no raw field changed in between, returns the record unchanged.
pub proof fn lemma_eval_idempotent(v: InfoV)
    ensures
        eval_spec(eval_spec(v)) == eval_spec(v),
{
    assert(eval_spec(eval_spec(v)) =~= eval_spec(v));
}

/// Override precedence: under a push-tag event with all three override
/// strings set, the three version outputs are the overrides verbatim,
/// whatever the tag-derived values are.
pub proof fn lemma_override_precedence(v: InfoV)
    requires
        v.is_push == Some(true),
        v.is_tag == Some(true),
        v.override_version_tagged is Some,
        v.override_version_commit is Some,
        v.override_version_docker_ci is Some,
    ensures
        eval_spec(v).version_tagged == v.override_version_tagged,
        eval_spec(v).version_commit == v.override_version_commit,
        Some(eval_spec(v).version_docker_ci) == v.override_version_docker_ci,
{
}

/// `"true"` or `"false"`.
pub fn bool2str(b: bool) -> (r: &'static str)
    ensures
        b ==> r@ == "true"@,
        !b ==> r@ == "false"@,
{
    if b {
        "true"
    } else {
        "false"
    }
}

} // verus!
