use comtrya::actions::RunCommand;
use comtrya::cli::parse_key_val;
use comtrya::contexts::Contexts;
use comtrya::package::{Package, PackageProviders, PackageVariant};
use comtrya::steps::{Atom, Finalizer, FinalizerCheck, Initializer, InitializerCheck};

#[test]
fn command_environment_is_set_then_removed() {
    let run = RunCommand {
        command: "echo".to_string(),
        args: vec!["hi".to_string()],
        privileged: true,
        dir: "/tmp".to_string(),
        env: vec![("GOROOT".to_string(), "test".to_string())],
    };
    let contexts = Contexts { privilege_provider: Some("doas".to_string()) };
    let steps = run.plan(&contexts);
    assert_eq!(steps.len(), 1);
    let env = vec![("GOROOT".to_string(), "test".to_string())];
    assert_eq!(steps[0].initializers, vec![Initializer::Ensure(InitializerCheck::SetEnvVars(env.clone()))]);
    assert_eq!(steps[0].finalizers, vec![Finalizer::Ensure(FinalizerCheck::RemoveEnvVars(env))]);
    match &steps[0].atom {
        Atom::Exec(e) => {
            assert_eq!(e.command, "echo");
            assert_eq!(e.arguments, vec!["hi".to_string()]);
            assert!(e.privileged);
            assert_eq!(e.privilege_provider, "doas");
            assert_eq!(e.working_dir, Some("/tmp".to_string()));
        }
        other => panic!("unexpected {other:?}"),
    }
}

fn package(variants: Vec<(String, PackageVariant)>) -> Package {
    Package {
        name: Some("curl".to_string()),
        list: vec!["git".to_string()],
        provider: PackageProviders::Aptitude,
        repository: None,
        key: None,
        extra_args: vec!["--quiet".to_string()],
        variants,
        file: false,
    }
}

#[test]
fn package_without_variant_is_asked_for_as_written() {
    let v = package(vec![]).variant_for_os("Ubuntu");
    assert_eq!(v.name, Some("curl".to_string()));
    assert_eq!(v.list, vec!["git".to_string()]);
    assert_eq!(v.provider, PackageProviders::Aptitude);
    assert_eq!(v.extra_args, vec!["--quiet".to_string()]);
    assert_eq!(v.packages(), vec!["curl".to_string()]);
}

#[test]
fn package_variant_overrides_for_its_system() {
    let variant = PackageVariant {
        name: None,
        list: vec!["wget".to_string()],
        provider: PackageProviders::Homebrew,
        extra_args: vec![],
        file: false,
    };
    let v = package(vec![("Macos".to_string(), variant)]).variant_for_os("Macos");
    assert_eq!(v.name, Some("curl".to_string()));
    assert_eq!(v.list, vec!["wget".to_string()]);
    assert_eq!(v.provider, PackageProviders::Homebrew);
    assert!(v.extra_args.is_empty());
}

#[test]
fn key_val_round_trips() {
    for s in ["KEY=value", "a==b", "=", "x="] {
        let (k, v) = parse_key_val(s).unwrap();
        assert!(!k.contains('='));
        assert_eq!(format!("{k}={v}"), s);
    }
}
