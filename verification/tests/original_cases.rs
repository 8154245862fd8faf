use comtrya::atoms::FileExists;
use comtrya::contexts::Contexts;
use comtrya::cli::{find_configs_with, lib_config_from, ConfigCandidates, GlobalArgs};
use comtrya::files::FileDownload;
use comtrya::group::{
    FreeBSDGroupProvider, GroupProvider, GroupProviders, GroupVariant, LinuxGroupProvider,
    MacOsGroupProvider,
};
use comtrya::package::{PackageProviders, PackageRepository, PackageVariant, RepositoryKey};
use comtrya::providers::{Aptitude, Dnf, Zypper};
use comtrya::providers::PackageProvider;
use comtrya::steps::Atom;

fn variant(name: &str) -> GroupVariant {
    GroupVariant { provider: GroupProviders::NoProvider, group_name: name.to_string() }
}

fn repository(name: &str, key: Option<RepositoryKey>, provider: PackageProviders) -> PackageRepository {
    PackageRepository { name: name.to_string(), key, provider }
}

fn key(url: &str, fingerprint: Option<&str>) -> RepositoryKey {
    RepositoryKey { url: url.to_string(), name: None, key: None, fingerprint: fingerprint.map(|f| f.to_string()) }
}

#[test]
fn contains_chown_step() {
    let file_download = FileDownload {
        from: "test".to_string(),
        to: "abc".to_string(),
        chmod: 1,
        template: false,
        owner_user: Some("test".to_string()),
        owner_group: Some("test".to_string()),
    };

    let steps = file_download.plan();
    assert!(steps.is_ok());
    let steps = steps.unwrap();
    assert_eq!(4, steps.len());
}

#[test]
fn freebsd_test_add_group() {
    let group_provider = FreeBSDGroupProvider {};
    let contexts = Contexts::empty();
    let steps = group_provider.add_group(&variant("test"), &contexts);
    assert_eq!(steps.len(), 1);
}

#[test]
fn freebsd_test_add_group_no_group_name() {
    let group_provider = FreeBSDGroupProvider {};
    let contexts = Contexts::empty();
    let steps = group_provider.add_group(&variant(""), &contexts);
    assert_eq!(steps.len(), 0);
}

#[test]
fn linux_test_add_group() {
    let steps = LinuxGroupProvider::add_group_with_cli(&variant("test"), Some("/usr/sbin/groupadd".to_string()));
    assert_eq!(steps.len(), 1);
}

#[test]
fn linux_test_add_group_no_group_name() {
    let group_provider = LinuxGroupProvider {};
    let steps = group_provider.add_group(&variant(""), &Contexts::empty());
    assert_eq!(steps.len(), 0);
}

#[test]
fn macos_test_add_group() {
    let steps = MacOsGroupProvider::add_group_with_cli(&variant("test"), Some("/usr/bin/dscl".to_string()));
    assert_eq!(steps.len(), 1);
}

#[test]
fn macos_test_add_group_no_group_name() {
    let group_provider = MacOsGroupProvider {};
    let steps = group_provider.add_group(&variant(""), &Contexts::empty());
    assert_eq!(steps.len(), 0);
}

#[test]
fn aptitude_test_add_repository_without_key() {
    let aptitude = Aptitude {};
    let contexts = Contexts::empty();
    let steps = aptitude.add_repository(&repository("test", None, PackageProviders::Aptitude), &contexts);
    assert_eq!(steps.unwrap().len(), 2);
}

#[test]
fn test_add_repository_with_key() {
    let aptitude = Aptitude {};
    let contexts = Contexts::empty();
    let steps = aptitude.add_repository(
        &repository("test", Some(key("abc", None)), PackageProviders::Aptitude),
        &contexts,
    );
    assert_eq!(steps.unwrap().len(), 3);
}

#[test]
fn test_add_repository_with_key_and_fingerprint() {
    let aptitude = Aptitude {};
    let contexts = Contexts::empty();
    let steps = aptitude.add_repository(
        &repository("test", Some(key("abc", Some("abc"))), PackageProviders::Aptitude),
        &contexts,
    );
    assert_eq!(steps.unwrap().len(), 3);
}

#[test]
fn test_regression_share_ring() {
    let aptitude = Aptitude {};
    let contexts = Contexts::empty();
    let steps = aptitude.add_repository(
        &repository("test", Some(key("abc", Some("abc"))), PackageProviders::Aptitude),
        &contexts,
    );
    let steps = steps.unwrap_or_default();
    if let Some(step) = steps.first() {
        let exec = match &step.atom {
            Atom::Exec(e) => format!("{} {}", e.command, e.arguments.join(" ")),
            _ => String::new(),
        };
        assert!(exec.contains(" /usr/share/keyrings/"));
    } else {
        panic!("expected at least one step");
    }
}

#[test]
fn dnf_test_add_repository_without_key() {
    let dnf = Dnf {};
    let contexts = Contexts::empty();
    let steps = dnf.add_repository(&repository("test", None, PackageProviders::Dnf), &contexts);
    assert_eq!(steps.unwrap().len(), 2);
}

#[test]
fn test_repository_with_key() {
    let dnf = Dnf {};
    let contexts = Contexts::empty();
    let steps = dnf.add_repository(&repository("test", Some(key("abc", None)), PackageProviders::Dnf), &contexts);
    assert_eq!(steps.unwrap().len(), 3);
}

#[test]
fn test_install() {
    let zypper = Zypper {};
    let package = PackageVariant {
        name: Some(String::from("")),
        list: vec![],
        extra_args: vec![],
        provider: PackageProviders::Zypper,
        file: false,
    };
    let steps = zypper.install(&package, &vec![], &Contexts::empty());
    assert_eq!(steps.unwrap().len(), 1);
}

#[test]
fn it_returns_false_when_not_found() {
    let initializer = FileExists("not-a-existing-file".to_string());
    let result = initializer.initialize();

    assert_eq!(true, result.is_ok());
    assert_eq!(false, result.unwrap());
}

#[test]
fn load_config_invalid_path() {
    let mut args = GlobalArgs::default();
    args.config_path = Some("/invalid/path/to/config.yaml".to_string());

    let found = find_configs_with(&args, None);
    assert!(found.is_none());
    let result = lib_config_from(&args, None);
    assert!(result.is_err(), "Expected an error when the user supplied config path is invalid");
}

#[test]
fn it_returns_true_when_found() {
    let initializer = FileExists("/".to_string());
    let result = initializer.initialize();

    assert_eq!(true, result.is_ok());
    assert_eq!(true, result.unwrap());
}
