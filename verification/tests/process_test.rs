use ghaction_version_gen::Info;
use ghaction_version_gen::ManifestError;
use ghaction_version_gen::GitFacts;
use ghaction_version_gen::bool2str;
use ghaction_version_gen::python;
use ghaction_version_gen::rust;
use ghaction_version_gen::strutil;

fn env_pairs(pairs: &[(&str, &str)]) -> Vec<(String, String)> {
    pairs.iter().map(|(a, b)| (a.to_string(), b.to_string())).collect()
}

#[test]
fn basic() {
    let gitdesc = "1.3.1-20-gc5f7a99";
    let mut info = Info::default();
    info.parse_describe(gitdesc);
    assert_eq!(info.git_describe_tags, gitdesc);
    assert_eq!(info.tag_latest, "1.3.1");
    assert_eq!(info.distance, Some("20".to_string()));
    assert_eq!(info.tag_head, None);
}

#[test]
fn describe_on_tag() {
    let mut info = Info::default();
    info.parse_describe("v1.0.0");
    assert_eq!(info.tag_latest, "v1.0.0");
    assert_eq!(info.distance, Some("0".to_string()));
    assert_eq!(info.tag_head, Some("v1.0.0".to_string()));
}

#[test]
fn describe_tag_with_dashes() {
    let mut info = Info::default();
    info.parse_describe("foo-bar-1.3-2-gabcdef");
    assert_eq!(info.tag_latest, "foo-bar-1.3");
    assert_eq!(info.distance, Some("2".to_string()));
    assert_eq!(info.tag_head, None);
}

#[test]
fn describe_greedy_split() {
    // The tag may itself embed a -N-gHEX shape; the split is the rightmost
    // one, as a greedy match takes the longest tag.
    let mut info = Info::default();
    info.parse_describe("a-1-gab-2-gcd");
    assert_eq!(info.tag_latest, "a-1-gab");
    assert_eq!(info.distance, Some("2".to_string()));
    // An upper-case hash is not a match at all: the whole string is a tag.
    let mut info = Info::default();
    info.parse_describe("a-1-gAB");
    assert_eq!(info.tag_latest, "a-1-gAB");
    assert_eq!(info.distance, Some("0".to_string()));
    assert_eq!(info.tag_head, Some("a-1-gAB".to_string()));
}

#[test]
fn ltrimv_round_trip() {
    assert_eq!(strutil::ltrimv_str("v1.0.0"), "1.0.0");
    assert_eq!(strutil::ltrimv_str("1.0.0"), "1.0.0");
    // Trimming an already-trimmed string is a no-op.
    assert_eq!(strutil::ltrimv_str(&strutil::ltrimv_str("v1.0.0")), "1.0.0");
    assert_eq!(strutil::ltrimv_str(""), "");
    assert_eq!(strutil::ltrimv_str("v"), "");
}

#[test]
fn eval_idempotent() {
    let mut info = Info::default();
    info.parse_describe("v1.0.0-3-gabc1234");
    info.is_push = Some(true);
    info.is_tag = Some(false);
    info.is_main = Some(true);
    info.eval();
    let first = info.fields();
    info.eval();
    let second = info.fields();
    assert_eq!(first, second);
}

#[test]
fn push_tag_scenario() {
    let mut info = Info::default();
    info.parse_env(&env_pairs(&[("PWD", "/home/user/proj")]));
    info.parse_describe("v1.0.0");
    info.is_push = Some(true);
    info.is_tag = Some(true);
    info.is_main = Some(true);
    info.is_main_here = Some(true);
    info.eval();
    assert_eq!(info.is_push_tag, Some(true));
    assert_eq!(info.name, "proj");
    assert_eq!(info.tag_latest, "v1.0.0");
    assert_eq!(info.distance, Some("0".to_string()));
    assert_eq!(info.dash_distance, Some("-0".to_string()));
    assert_eq!(info.tag_distance, Some("v1.0.0-0".to_string()));
    assert_eq!(info.tag_head, Some("v1.0.0".to_string()));
    assert_eq!(info.tag_latest_ltrimv, Some("1.0.0".to_string()));
    assert_eq!(info.tag_distance_ltrimv, Some("1.0.0-0".to_string()));
    assert_eq!(info.tag_head_ltrimv, Some("1.0.0".to_string()));
    assert_eq!(info.version_tagged, Some("1.0.0".to_string()));
    assert_eq!(info.version_commit, Some("1.0.0".to_string()));
    assert_eq!(info.version_docker_ci, "1.0.0");
    assert_eq!(info.rpm_basename, "proj-1.0.0");
    assert_eq!(info.deb_basename, "proj_1.0.0");
    assert_eq!(info.version_mismatch, None);
}

#[test]
fn push_main_after_tag_scenario() {
    let mut info = Info::default();
    info.parse_env(&env_pairs(&[("PWD", "/home/user/proj")]));
    info.parse_describe("v1.0.0-1-gabc1234");
    info.is_push = Some(true);
    info.is_tag = Some(false);
    info.is_main = Some(true);
    info.eval();
    assert_eq!(info.is_push_tag, Some(false));
    assert_eq!(info.is_push_main, Some(true));
    assert_eq!(info.distance, Some("1".to_string()));
    assert_eq!(info.version_tagged, None);
    assert_eq!(info.version_commit, Some("1.0.0-1".to_string()));
    assert_eq!(info.version_docker_ci, "latest");
    assert_eq!(info.rpm_basename, "proj-1.0.0-1");
    assert_eq!(info.deb_basename, "proj_1.0.0-1");
}

#[test]
fn no_tag_scenario() {
    let mut info = Info::default();
    info.parse_env(&env_pairs(&[("PWD", "/home/user/proj")]));
    info.is_push = Some(true);
    info.is_tag = Some(false);
    info.is_main = Some(false);
    info.eval();
    assert_eq!(info.tag_latest, "");
    assert_eq!(info.tag_head, None);
    assert_eq!(info.distance, None);
    assert_eq!(info.tag_latest_ltrimv, None);
    assert_eq!(info.version_tagged, None);
    assert_eq!(info.version_commit, None);
    assert_eq!(info.version_docker_ci, "null");
    assert_eq!(info.rpm_basename, "proj");
    assert_eq!(info.deb_basename, "proj");
}

#[test]
fn huge_distance_sets_no_version_commit() {
    // A distance that does not fit a 32-bit number does not parse, so the
    // push-to-main branch assigns no version_commit.
    let mut info = Info::default();
    info.parse_env(&env_pairs(&[("PWD", "/home/user/proj")]));
    info.parse_describe("v1.0.0-99999999999999999999-gabc1234");
    info.is_push = Some(true);
    info.is_tag = Some(false);
    info.is_main = Some(true);
    info.eval();
    assert_eq!(info.distance, Some("99999999999999999999".to_string()));
    assert_eq!(info.version_commit, None);
    assert_eq!(info.version_docker_ci, "latest");
}

#[test]
fn gitrepo_tag_before_branch() {
    // A tag push without a known branch classification still derives the
    // tag versions.
    let mut info = Info::default();
    info.parse_describe("v1.1.0");
    info.is_push = Some(true);
    info.is_tag = Some(true);
    info.eval();
    assert_eq!(info.tag_distance, Some("v1.1.0-0".to_string()));
    assert_eq!(info.tag_distance_ltrimv, Some("1.1.0-0".to_string()));
    assert_eq!(info.version_tagged, Some("1.1.0".to_string()));
    assert_eq!(info.version_commit, Some("1.1.0".to_string()));
    // A push to main exactly on the tag assigns no version_commit, and with
    // no project name at all the basenames start with the separator.
    let mut info = Info::default();
    info.commit = "abc123".to_string();
    info.parse_describe("v1.1.0");
    info.is_push = Some(true);
    info.is_tag = Some(false);
    info.is_main = Some(true);
    info.eval();
    assert_eq!(info.tag_distance, Some("v1.1.0-0".to_string()));
    assert_eq!(info.tag_distance_ltrimv, Some("1.1.0-0".to_string()));
    assert_eq!(info.version_tagged, None);
    assert_eq!(info.version_commit, None);
    assert_eq!(info.rpm_basename, "-1.1.0-0-abc123");
    assert_eq!(info.deb_basename, "_1.1.0-0-abc123");
}

#[test]
fn gitrepo_no_tag_rust() {
    let cargo = Some("[package]\nname = \"test\"\nversion = \"9.7\"\n".to_string());
    let mut info = Info::default();
    info.parse_files(&cargo, &None).unwrap();
    info.is_push = Some(true);
    info.is_tag = Some(false);
    info.is_main = Some(true);
    info.eval();
    assert_eq!(info.rust_crate_version, Some("9.7".to_string()));
    assert_eq!(info.version_mismatch, None);
    assert_eq!(info.dash_distance, None);
    assert_eq!(info.tag_distance, None);
    assert_eq!(info.tag_latest_ltrimv, None);
    assert_eq!(info.tag_distance_ltrimv, None);
    assert_eq!(info.rpm_basename, "test");
    assert_eq!(info.deb_basename, "test");
}

#[test]
fn gitrepo_after_tag_rust() {
    // A push that is neither a tag nor main: no version_commit, and the
    // basenames carry the tag distance and the commit.
    let cargo = Some("[package]\nname = \"test\"\nversion = \"9.7\"\n".to_string());
    let mut info = Info::default();
    info.parse_files(&cargo, &None).unwrap();
    info.commit = "abc1234".to_string();
    info.parse_describe("v1.0.0-1-gabc1234");
    info.is_push = Some(true);
    info.is_tag = Some(false);
    info.is_main = Some(false);
    info.eval();
    assert_eq!(info.name, "test");
    assert_eq!(info.rust_crate_version, Some("9.7".to_string()));
    assert_eq!(info.version_mismatch, None);
    assert_eq!(info.version_commit, None);
    assert_eq!(info.rpm_basename, "test-1.0.0-1-abc1234");
    assert_eq!(info.deb_basename, "test_1.0.0-1-abc1234");
}

#[test]
fn gitrepo_rust() {
    let cargo = Some("[package]\nname = \"test\"\nversion = \"9.7\"\n".to_string());
    let mut info = Info::default();
    info.parse_files(&cargo, &None).unwrap();
    info.parse_describe("v1.0.0");
    info.is_push = Some(true);
    info.is_tag = Some(true);
    info.is_main = Some(true);
    info.is_main_here = Some(true);
    info.eval();
    assert_eq!(info.name, "test");
    assert_eq!(info.rust_crate_version, Some("9.7".to_string()));
    assert_eq!(
        info.version_mismatch,
        Some("file=Cargo.toml::Version mismatch: tag 1.0.0 != 9.7 from Cargo.toml".to_string())
    );
    assert_eq!(info.version_commit, Some("1.0.0".to_string()));
    assert_eq!(info.rpm_basename, "test-1.0.0");
    assert_eq!(info.deb_basename, "test_1.0.0");
    assert!(info.mismatch_is_fatal());
}

#[test]
fn mismatch_not_fatal_on_push_main() {
    let cargo = Some("[package]\nname = \"test\"\nversion = \"9.7\"\n".to_string());
    let mut info = Info::default();
    info.parse_files(&cargo, &None).unwrap();
    info.parse_describe("v1.0.0-1-gabc1234");
    info.is_push = Some(true);
    info.is_tag = Some(false);
    info.is_main = Some(true);
    info.eval();
    assert_eq!(
        info.version_mismatch,
        Some("file=Cargo.toml::Version mismatch: tag 1.0.0 != 9.7 from Cargo.toml".to_string())
    );
    assert!(!info.mismatch_is_fatal());
    assert_eq!(info.version_commit, Some("1.0.0-1".to_string()));
    assert_eq!(info.rpm_basename, "test-1.0.0-1");
    assert_eq!(info.deb_basename, "test_1.0.0-1");
}

#[test]
fn tag_pushed_off_main_mismatch() {
    let mut info = Info::default();
    info.parse_describe("v1.0.0");
    info.is_push = Some(true);
    info.is_tag = Some(true);
    info.commit = "abc1234".to_string();
    info.commit_main = Some("def5678".to_string());
    info.is_main_here = Some(false);
    info.eval();
    assert_eq!(
        info.version_mismatch,
        Some(
            "Version tag 1.0.0 pushed over abc1234, but main branch is at Some(\"def5678\")"
                .to_string()
        )
    );
    let mut info = Info::default();
    info.parse_describe("v1.0.0");
    info.is_push = Some(true);
    info.is_tag = Some(true);
    info.commit = "abc1234".to_string();
    info.eval();
    assert_eq!(
        info.version_mismatch,
        Some("Version tag 1.0.0 pushed over abc1234, but main branch is at None".to_string())
    );
}

#[test]
fn override_precedence() {
    let mut info = Info::default();
    info.parse_env(&env_pairs(&[
        ("OVERRIDE_VERSION_TAGGED", "a"),
        ("OVERRIDE_VERSION_COMMIT", "b"),
        ("OVERRIDE_VERSION_DOCKER_CI", "c"),
        ("PWD", "/home/user/proj"),
    ]));
    info.parse_describe("v1.0.0");
    info.is_push = Some(true);
    info.is_tag = Some(true);
    info.is_main = Some(true);
    info.is_main_here = Some(true);
    info.eval();
    assert_eq!(info.pwd_basename, "proj");
    assert_eq!(info.name, "proj");
    assert_eq!(info.override_version_tagged, Some("a".to_string()));
    assert_eq!(info.override_version_commit, Some("b".to_string()));
    assert_eq!(info.override_version_docker_ci, Some("c".to_string()));
    assert_eq!(info.version_tagged, Some("a".to_string()));
    assert_eq!(info.version_commit, Some("b".to_string()));
    assert_eq!(info.version_docker_ci, "c");
}

#[test]
fn parse_env_event_and_ref() {
    let mut info = Info::default();
    info.parse_env(&env_pairs(&[
        ("GITHUB_EVENT_NAME", "push"),
        ("GITHUB_REF", "refs/tags/v1.0.0"),
    ]));
    assert_eq!(info.is_push, Some(true));
    assert_eq!(info.is_tag, Some(true));
    assert_eq!(info.is_main, Some(false));
    info.parse_env(&env_pairs(&[
        ("GITHUB_EVENT_NAME", "pull_request"),
        ("GITHUB_REF", "refs/heads/main"),
    ]));
    assert_eq!(info.is_push, Some(false));
    assert_eq!(info.is_tag, Some(false));
    assert_eq!(info.is_main, Some(true));
    info.parse_env(&env_pairs(&[("GITHUB_REF", "refs/heads/master")]));
    assert_eq!(info.is_main, Some(true));
    info.parse_env(&env_pairs(&[("GITHUB_REF", "refs/heads/devel"), ("IGNORED", "x")]));
    assert_eq!(info.is_main, Some(false));
}

#[test]
fn toml1() {
    assert_eq!(rust::crate_data(&None).unwrap(), None);
    assert!(rust::crate_data(&Some("".to_string())).is_err());
    assert!(rust::crate_data(&Some("[package]\n".to_string())).is_err());
    let data = rust::crate_data(
        &Some("[package]\nname = \"test\"\nversion = \"1.0\"\n".to_string()),
    )
    .unwrap();
    assert!(data.is_some());
    let data = data.unwrap();
    assert_eq!(data.name, "test".to_string());
    assert_eq!(data.version, "1.0".to_string());
    assert_eq!(
        rust::crate_data(&Some("[workspace]\nmembers = [ \"abc\" ]\n".to_string())).unwrap(),
        None
    );
}

#[test]
fn cargo_toml_errors() {
    assert_eq!(
        rust::crate_data(&Some("= not toml".to_string())),
        Err(ManifestError::CargoTomlParse)
    );
    assert_eq!(
        rust::crate_data(&Some("".to_string())),
        Err(ManifestError::CargoTomlNoPackage)
    );
    assert_eq!(
        rust::crate_data(&Some("[package]\nversion = \"1.0\"\n".to_string())),
        Err(ManifestError::CargoTomlNoName)
    );
    assert_eq!(
        rust::crate_data(&Some("[package]\nname = \"x\"\n".to_string())),
        Err(ManifestError::CargoTomlNoVersion)
    );
    assert_eq!(
        rust::crate_data(&Some("[package]\nname = \"x\"\nversion = 5\n".to_string())),
        Err(ManifestError::CargoTomlVersionNotString)
    );
    assert_eq!(
        ManifestError::CargoTomlNoPackage.message(),
        "could not find package section"
    );
    assert_eq!(
        ManifestError::CargoTomlNoName.message(),
        "could not find name in package section"
    );
    assert_eq!(
        ManifestError::CargoTomlNoVersion.message(),
        "could not find version in package section"
    );
}

#[test]
fn cargo_toml_unquoted_name() {
    // A non-string name is rendered and kept as rendered.
    let data = rust::crate_data(&Some("[package]\nname = 7\nversion = \"1.0\"\n".to_string()))
        .unwrap()
        .unwrap();
    assert_eq!(data.name, "7");
}

#[test]
fn setupcfg() {
    assert_eq!(python::module_data(&None).unwrap(), None);
    assert!(python::module_data(&Some("".to_string())).is_err());
    assert!(python::module_data(&Some("[metadata]\n".to_string())).is_err());
    assert!(python::module_data(&Some("[metadata]\nname = abcde\n".to_string())).is_err());
    assert_eq!(
        python::module_data(&Some("[metadata]\nname = abcde\nversion = 1.0\n".to_string()))
            .unwrap(),
        Some(python::Data { name: "abcde".to_string(), version: "1.0".to_string() })
    );
}

#[test]
fn setupcfg_errors() {
    assert_eq!(
        python::module_data(&Some("[metadata]\nversion = 1.0\n".to_string())),
        Err(ManifestError::SetupCfgNoName)
    );
    assert_eq!(
        python::module_data(&Some("[metadata]\nname = abcde\n".to_string())),
        Err(ManifestError::SetupCfgNoVersion)
    );
    assert_eq!(
        python::module_data(&Some("[unclosed\n".to_string())),
        Err(ManifestError::SetupCfgParse)
    );
    assert_eq!(ManifestError::SetupCfgParse.message(), "could not parse setup.cfg");
    assert_eq!(ManifestError::SetupCfgNoName.message(), "could not find metadata.name");
    assert_eq!(ManifestError::SetupCfgNoVersion.message(), "could not find metadata.version");
}

#[test]
fn module_version_alone() {
    assert_eq!(
        python::module_version(&Some("[metadata]\nname = abcde\nversion = 1.0\n".to_string()))
            .unwrap(),
        Some("1.0".to_string())
    );
    assert_eq!(python::module_version(&None).unwrap(), None);
}

#[test]
fn gitrepo_python() {
    let setup = Some(
        "[metadata]\nname = myname\nversion = 9.7\n\n[options]\npackage_dir =\n    = src\n"
            .to_string(),
    );
    let mut info = Info::default();
    info.parse_files(&None, &setup).unwrap();
    info.parse_describe("v1.0.0");
    info.is_push = Some(true);
    info.is_tag = Some(true);
    info.is_main = Some(true);
    info.is_main_here = Some(true);
    info.eval();
    assert_eq!(info.python_module_name, Some("myname".to_string()));
    assert_eq!(info.python_module_version, Some("9.7".to_string()));
    assert_eq!(
        info.version_mismatch,
        Some("file=setup.cfg::Version mismatch: tag 1.0.0 != 9.7 from setup.cfg".to_string())
    );
}

#[test]
fn from_workspace_pipeline() {
    let git = GitFacts {
        commit: "abc1234".to_string(),
        commit_main: Some("abc1234".to_string()),
        describe: Some("v1.0.0".to_string()),
    };
    let env = env_pairs(&[
        ("PWD", "/home/user/proj"),
        ("GITHUB_EVENT_NAME", "push"),
        ("GITHUB_REF", "refs/tags/v1.0.0"),
    ]);
    let info = Info::from_workspace(&git, &env, &None, &None).unwrap();
    assert_eq!(info.commit, "abc1234");
    assert_eq!(info.commit_main, Some("abc1234".to_string()));
    assert_eq!(info.is_main_here, Some(true));
    assert_eq!(info.is_push_tag, Some(true));
    assert_eq!(info.name, "proj");
    assert_eq!(info.version_tagged, Some("1.0.0".to_string()));
    assert_eq!(info.version_docker_ci, "1.0.0");
    assert_eq!(info.version_mismatch, None);
}

#[test]
fn try_from_workspace_degenerate() {
    // A push-tag event in a repository with no tags and no docker override
    // leaves version_docker_ci with no value: the checked entry reports it.
    let git = GitFacts {
        commit: "abc1234".to_string(),
        commit_main: None,
        describe: None,
    };
    let env = env_pairs(&[
        ("GITHUB_EVENT_NAME", "push"),
        ("GITHUB_REF", "refs/tags/v1.0.0"),
    ]);
    assert!(Info::try_from_workspace(&git, &env, &None, &None).unwrap().is_none());
    // With a docker override the same facts evaluate fine.
    let env = env_pairs(&[
        ("GITHUB_EVENT_NAME", "push"),
        ("GITHUB_REF", "refs/tags/v1.0.0"),
        ("OVERRIDE_VERSION_DOCKER_CI", "c"),
    ]);
    let info = Info::try_from_workspace(&git, &env, &None, &None).unwrap().unwrap();
    assert_eq!(info.version_docker_ci, "c");
}

#[test]
fn fields_order_and_output_lines() {
    let mut info = Info::default();
    info.parse_env(&env_pairs(&[("PWD", "/home/user/proj")]));
    info.is_push = Some(true);
    info.is_tag = Some(false);
    info.is_main = Some(false);
    info.eval();
    let fields = info.fields();
    assert_eq!(fields[0], ("name".to_string(), "proj".to_string()));
    assert_eq!(fields[1], ("commit".to_string(), "".to_string()));
    assert_eq!(fields[4], ("version_docker_ci".to_string(), "null".to_string()));
    assert!(fields.contains(&("is_push".to_string(), "true".to_string())));
    assert!(fields.contains(&("is_tag".to_string(), "false".to_string())));
    assert!(!fields.iter().any(|kv| kv.0 == "distance"));
    let lines = info.output_lines();
    assert_eq!(lines[0], "name=proj");
    assert_eq!(lines.len(), fields.len());
}

#[test]
fn bool2str_values() {
    assert_eq!(bool2str(true), "true");
    assert_eq!(bool2str(false), "false");
}

#[test]
fn file_name_components() {
    assert_eq!(strutil::file_name("/home/user/proj"), Some("proj".to_string()));
    assert_eq!(strutil::file_name("/home/user/proj/"), Some("proj".to_string()));
    assert_eq!(strutil::file_name("proj"), Some("proj".to_string()));
    assert_eq!(strutil::file_name("/home/user/proj/."), Some("proj".to_string()));
    assert_eq!(strutil::file_name("/"), None);
    assert_eq!(strutil::file_name(""), None);
    assert_eq!(strutil::file_name("/home/.."), None);
    assert_eq!(strutil::file_name("."), None);
}
