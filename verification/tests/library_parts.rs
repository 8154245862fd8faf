use comtrya::atoms::Link;
use comtrya::binary::{asset_score, best_asset, BinaryGitHub, Platform, ReleaseAsset};
use comtrya::cli::{
    context_key_rows, context_value_rows, lib_config_from, load_config_from, log_level, parse_key_val, pick_config,
    Commands, Config, ConfigCandidates, ConfigError, GlobalArgs, LoadedConfig, LogLevel,
};
use comtrya::contexts::Contexts;
use comtrya::example::Example;
use comtrya::files::{default_template, FileDownload};
use comtrya::package::{PackageProviders, PackageRepository, RepositoryKey};
use comtrya::plugin::{Dir, Repo, RepoOrDir, RepoUri, RepoUriError, Version};
use comtrya::plugin_spec::{PlanOutcome, PluginAction, PluginRequest, PluginSpec};
use comtrya::plugins::{parse_plugin_name, PluginAction as FunctionCall, PluginNameError};
use comtrya::providers::{Aptitude, PackageProvider};
use comtrya::steps::Atom;
use comtrya::template::{PathArgument, ReadFileContents};
use comtrya::zip::ZipLongest;

fn platform() -> Platform {
    Platform {
        os: "Linux".to_string(),
        arch: "x86_64".to_string(),
        os_type: "Ubuntu".to_string(),
        is_macos: false,
        is_32_bit: false,
    }
}

fn asset(name: &str) -> ReleaseAsset {
    ReleaseAsset { name: name.to_string(), url: format!("https://example.com/{name}") }
}

#[test]
fn binary_score_terms_describe_the_platform() {
    assert_eq!(platform().score_terms(), vec!["linux", "x86_64", "Ubuntu", "unknown", "64"]);
    let mac = Platform {
        os: "macos".to_string(),
        arch: "aarch64".to_string(),
        os_type: "Mac OS".to_string(),
        is_macos: true,
        is_32_bit: true,
    };
    assert_eq!(mac.score_terms(), vec!["macos", "aarch64", "darwin", "apple", "arm", "aarch", "32"]);
}

#[test]
fn binary_asset_score_counts_terms() {
    let terms = platform().score_terms();
    assert_eq!(asset_score(&terms, "tool-linux-x86_64.tar.gz"), 3);
    assert_eq!(asset_score(&terms, "tool-darwin-arm64"), 1);
    assert_eq!(asset_score(&terms, "readme"), 0);
}

#[test]
fn binary_best_asset_is_the_first_highest() {
    assert_eq!(best_asset(&vec![]), None);
    assert_eq!(best_asset(&vec![1, 3, 2, 3]), Some(1));
    assert_eq!(best_asset(&vec![0, 0]), Some(0));
}

#[test]
fn binary_plan_downloads_the_best_asset_and_makes_it_executable() {
    let b = BinaryGitHub {
        name: "tool".to_string(),
        directory: "/usr/local/bin".to_string(),
        repository: "owner/tool".to_string(),
        version: None,
    };
    // The capital letters of the second name only count once lowered.
    let assets = vec![asset("tool-darwin-arm64"), asset("tool-Linux-X86_64"), asset("tool-linux-x86_64.tar.gz")];
    let steps = b.plan_with_assets(&platform(), &assets);
    assert_eq!(steps.len(), 2);
    match &steps[0].atom {
        Atom::HttpDownload { url, to } => {
            assert_eq!(url, "https://example.com/tool-Linux-X86_64");
            assert_eq!(to, "/usr/local/bin/tool");
        }
        other => panic!("unexpected {other:?}"),
    }
    assert_eq!(steps[1].atom, Atom::FileChmod { path: "/usr/local/bin/tool".to_string(), mode: 0o755 });
    assert!(b.plan_with_assets(&platform(), &vec![]).is_empty());
    assert_eq!(b.owner_and_repo(), Some(("owner".to_string(), "tool".to_string())));
}

#[test]
fn key_val_splits_at_the_first_equals() {
    assert_eq!(parse_key_val("a=b=c"), Ok(("a".to_string(), "b=c".to_string())));
    assert_eq!(parse_key_val("=x"), Ok(("".to_string(), "x".to_string())));
    assert_eq!(parse_key_val("abc"), Err("invalid KEY=value: no `=` found in `abc`".to_string()));
}

fn args_with(defines: Vec<(&str, &str)>) -> GlobalArgs {
    let mut args = GlobalArgs::default();
    args.defines = defines.into_iter().map(|(k, v)| (k.to_string(), v.to_string())).collect();
    args
}

#[test]
fn config_without_file_uses_the_default_directory_and_definitions() {
    let args = args_with(vec![("a", "1"), ("b", "2"), ("a", "3")]);
    let config = lib_config_from(&args, None).unwrap();
    assert_eq!(config.manifest_paths, vec![",".to_string()]);
    let mut vars = config.variables.clone();
    vars.sort();
    assert_eq!(vars, vec![("a".to_string(), "3".to_string()), ("b".to_string(), "2".to_string())]);
}

#[test]
fn config_file_directory_is_the_default_manifest_path() {
    let loaded = LoadedConfig {
        config: Config { manifest_paths: vec![], variables: vec![("a".to_string(), "0".to_string())], disable_update_check: true },
        parent: Some("/etc/comtrya".to_string()),
    };
    let config = lib_config_from(&args_with(vec![("a", "9")]), Some(loaded)).unwrap();
    assert_eq!(config.manifest_paths, vec!["/etc/comtrya".to_string()]);
    assert_eq!(config.variables, vec![("a".to_string(), "9".to_string())]);
    assert!(config.disable_update_check);
    let listed = LoadedConfig {
        config: Config { manifest_paths: vec!["/m".to_string()], variables: vec![], disable_update_check: false },
        parent: Some("/etc".to_string()),
    };
    assert_eq!(lib_config_from(&GlobalArgs::default(), Some(listed)).unwrap().manifest_paths, vec!["/m".to_string()]);
}

#[test]
fn config_missing_file_is_an_error() {
    let mut args = GlobalArgs::default();
    args.config_path = Some("/nowhere.yaml".to_string());
    assert_eq!(lib_config_from(&args, None).err(), Some(ConfigError::Missing { path: "/nowhere.yaml".to_string() }));
}

#[test]
fn manifest_directory_argument_replaces_configured_paths() {
    let mut args = GlobalArgs::default();
    args.manifest_directory = Some("./here".to_string());
    let config = Config { manifest_paths: vec!["/a".to_string(), "/b".to_string()], variables: vec![], disable_update_check: false };
    assert_eq!(load_config_from(&args, config).manifest_paths, vec!["./here".to_string()]);
}

#[test]
fn pick_config_prefers_the_named_file() {
    let c = |given: Option<(&str, bool)>, wd: Option<(&str, bool)>, cd: Option<(&str, bool)>| ConfigCandidates {
        given: given.map(|(p, e)| (p.to_string(), e)),
        working_dir: wd.map(|(p, e)| (p.to_string(), e)),
        config_dir: cd.map(|(p, e)| (p.to_string(), e)),
    };
    assert_eq!(pick_config(&c(Some(("/x", false)), Some(("/w", true)), None)), None);
    assert_eq!(pick_config(&c(Some(("/x", true)), None, None)), Some("/x".to_string()));
    assert_eq!(pick_config(&c(None, Some(("/w", false)), Some(("/c", true)))), Some("/c".to_string()));
    assert_eq!(pick_config(&c(None, Some(("/w", true)), Some(("/c", true)))), Some("/w".to_string()));
    assert_eq!(pick_config(&c(None, None, None)), None);
}

#[test]
fn context_keys_are_listed_in_rows() {
    let keys: Vec<String> = (0..3).map(|i| format!("k{i}")).collect();
    assert_eq!(context_key_rows(&keys), vec![vec!["k0".to_string()], vec!["k1".to_string()], vec!["k2".to_string()]]);
    let keys: Vec<String> = (0..11).map(|i| format!("k{i}")).collect();
    let rows = context_key_rows(&keys);
    assert_eq!(rows.len(), 2);
    assert_eq!(rows[0].len(), 6);
    assert_eq!(rows[1], vec!["k6", "k7", "k8", "k9", "k10"]);
    assert!(context_key_rows(&vec![]).is_empty());
}

#[test]
fn context_values_lose_their_escape_sequences() {
    let rows = context_value_rows(&vec![("k".to_string(), "\u{1b}[31mred\u{1b}[0m".to_string())]);
    assert_eq!(rows, vec![("k".to_string(), "red".to_string())]);
}

#[test]
fn verbosity_selects_the_log_level() {
    assert_eq!(log_level(0), LogLevel::Info);
    assert_eq!(log_level(1), LogLevel::Debug);
    assert_eq!(log_level(5), LogLevel::Trace);
    assert!(matches!(Commands::default(), Commands::Version(_)));
}

#[test]
fn repo_uri_reads_and_writes() {
    let uri = RepoUri::from_str("user/repo/extra").unwrap();
    assert_eq!(uri.username, "user");
    assert_eq!(uri.repo, "repo/extra");
    assert_eq!(uri.to_string(), "user/repo/extra");
    assert_eq!(RepoUri::from_str("norepo").err(), Some(RepoUriError::MissingSlash));
}

#[test]
fn plugin_sources_are_written() {
    let repo = Repo { repo: RepoUri { username: "u".to_string(), repo: "r".to_string() }, version: Version::default() };
    assert_eq!(repo.to_string(), "u/r:stable");
    let tagged = Repo { repo: RepoUri { username: "u".to_string(), repo: "r".to_string() }, version: Version::Tagged("v1".to_string()) };
    assert_eq!(RepoOrDir::Repo(tagged).to_string(), "u/r:v1");
    assert_eq!(Version::Latest.to_string(), "latest");
    assert_eq!(RepoOrDir::Dir(Dir { dir: "/plugins/x".to_string() }).to_string(), "/plugins/x");
    assert_eq!(RepoOrDir::Invalid.to_string(), "Invalid Repo or Directory");
}

fn request(name: &str, converted: bool, plan: PlanOutcome) -> PluginRequest {
    PluginRequest { name: name.to_string(), arguments: vec!["{}".to_string()], converted, plan }
}

#[test]
fn plugin_spec_keeps_one_action_per_name() {
    let mut spec = PluginSpec::new("echo".to_string(), None);
    spec.insert_action("say".to_string(), PluginAction { has_plan: false, is_privileged: false });
    spec.insert_action("say".to_string(), PluginAction { has_plan: true, is_privileged: true });
    assert_eq!(spec.actions.len(), 1);
    assert_eq!(spec.get_action("say"), Some(&PluginAction { has_plan: true, is_privileged: true }));
    assert_eq!(spec.get_action("other"), None);
}

#[test]
fn plugin_requests_become_calls() {
    let mut spec = PluginSpec::new("echo".to_string(), Some("Echoes text".to_string()));
    spec.insert_action("echo".to_string(), PluginAction { has_plan: true, is_privileged: false });
    spec.insert_action("noplan".to_string(), PluginAction { has_plan: false, is_privileged: false });
    let steps = spec
        .plan_steps(&vec![
            request("echo", true, PlanOutcome::Passed),
            request("missing", true, PlanOutcome::Passed),
            request("noplan", true, PlanOutcome::NotRun),
            request("echo", false, PlanOutcome::NotRun),
        ])
        .unwrap();
    assert_eq!(steps.len(), 1);
    assert_eq!(steps[0].atom, Atom::PluginCall { name: "echo".to_string(), arguments: vec!["{}".to_string()] });
    let err = spec.plan_steps(&vec![request("echo", true, PlanOutcome::Raised), request("echo", true, PlanOutcome::Passed)]);
    assert_eq!(err.err().unwrap().action, "echo");
}

#[test]
fn plugin_function_calls_need_a_provided_function() {
    let call = FunctionCall { name: "example".to_string(), arguments: None };
    let steps = call.plan(&vec!["example".to_string()]);
    assert_eq!(steps.len(), 1);
    assert_eq!(steps[0].atom, Atom::PluginCall { name: "example".to_string(), arguments: vec![] });
    assert!(call.plan(&vec!["other".to_string()]).is_empty());
    let with_args = FunctionCall { name: "example".to_string(), arguments: Some(vec!["a".to_string()]) };
    assert_eq!(with_args.plan(&vec!["example".to_string()])[0].atom, Atom::PluginCall { name: "example".to_string(), arguments: vec!["a".to_string()] });
}

#[test]
fn plugin_names_are_parsed() {
    let c = parse_plugin_name("user/repo:v2").unwrap();
    assert_eq!(c.plugin_name, "repo");
    assert_eq!(c.tag, Some("v2".to_string()));
    let c = parse_plugin_name("user/repo").unwrap();
    assert_eq!(c.plugin_name, "repo");
    assert_eq!(c.tag, None);
    assert_eq!(parse_plugin_name("repo").err(), Some(PluginNameError::InvalidSchema));
}

#[test]
fn link_atom_decides_from_what_it_finds() {
    let link = Link { source: "/a".to_string(), target: "/b".to_string() };
    assert!(!link.plan_with(false, false, None));
    assert!(link.plan_with(true, false, None));
    assert!(!link.plan_with(true, true, None));
    assert!(!link.plan_with(true, true, Some("/a".to_string())));
    assert!(link.plan_with(true, true, Some("/elsewhere".to_string())));
    assert_eq!(link.to_string(), "The file /b contents needs to be linked from /a");
    assert_eq!(link.get_path(), "/a");
}

#[test]
fn zip_longest_pairs_up_to_the_longer() {
    let zipped = vec![1, 2, 3].zip_longest(vec!["a"]);
    assert_eq!(zipped, vec![(Some(1), Some("a")), (Some(2), None), (Some(3), None)]);
    let zipped = Vec::<u8>::new().zip_longest(vec![1u8, 2]);
    assert_eq!(zipped, vec![(None, Some(1)), (None, Some(2))]);
}

#[test]
fn read_file_contents_checks_its_argument() {
    assert_eq!(ReadFileContents::path_of(&PathArgument::Missing), Err("Argument 'path' not set".to_string()));
    assert_eq!(
        ReadFileContents::path_of(&PathArgument::NotText("3".to_string())),
        Err("Path: '3'. Error: Cannot convert argument 'path' to str".to_string())
    );
    assert_eq!(ReadFileContents::path_of(&PathArgument::Text("/f".to_string())), Ok("/f".to_string()));
    assert_eq!(ReadFileContents::join_lines(&vec!["FKBR ".to_string(), "KUCI SXOE".to_string()]), "FKBR KUCI SXOE");
}

#[test]
fn example_plugin_plans_and_runs() {
    assert_eq!(Example.plan(&vec!["x".to_string()]), Ok(true));
    assert_eq!(Example.run(&vec![]), Ok(()));
}

#[test]
fn download_without_both_owners_has_three_steps() {
    let d = FileDownload {
        from: "https://x".to_string(),
        to: "/tmp/file".to_string(),
        chmod: 0o644,
        template: default_template(),
        owner_user: Some("me".to_string()),
        owner_group: None,
    };
    assert_eq!(d.plan_with_parent(Some("/tmp".to_string())).unwrap().len(), 3);
    assert!(d.plan_with_parent(None).is_err());
}

#[test]
fn apt_key_is_stored_under_its_digest() {
    let repo = PackageRepository {
        name: "test".to_string(),
        key: Some(RepositoryKey { url: "abc".to_string(), name: None, key: None, fingerprint: None }),
        provider: PackageProviders::Aptitude,
    };
    let steps = Aptitude {}.add_repository(&repo, &Contexts::empty()).unwrap();
    match &steps[0].atom {
        Atom::Exec(e) => assert_eq!(
            e.arguments[1],
            "/usr/share/keyrings/ba7816bf8f01cfea414140de5dae2223b00361a396177a9cb410ff61f20015ad.asc"
        ),
        other => panic!("unexpected {other:?}"),
    }
}
