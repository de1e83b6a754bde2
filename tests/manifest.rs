use rsmc::manifest::{default_features, process_args};
use rsmc::rules::{Arch, Condition, Os, Platform, Rule, RuleAction, RuleOsCondition};
use rsmc::manifest::{
    Args, ArgsContainer, Argument, Artifact, AssetIndexResource, ConditionalArgument, InheritedManifest,
    JavaVersion, LegacyArgs, Library, LibraryDownloadEntry, Manifest, ModernArgs, PackageDownloads, Resource,
    RootManifest, VersionType,
};

fn lib(path: &str) -> Library {
    Library::Default {
        downloads: LibraryDownloadEntry {
            artifact: Artifact { path: path.to_string(), sha1: "s".to_string(), size: 1, url: "u".to_string() },
        },
        name: format!("g:{path}:1"),
    }
}

fn lib_path(l: &Library) -> &str {
    match l {
        Library::Default { downloads, .. } => downloads.artifact.path.as_str(),
        _ => panic!("not a default library"),
    }
}

fn constants(args: &[Argument]) -> Vec<&str> {
    args.iter()
        .map(|a| match a {
            Argument::Constant(s) => s.as_str(),
            Argument::Conditional { .. } => "?",
        })
        .collect()
}

fn modern(game: &[&str], jvm: &[&str]) -> ArgsContainer {
    ArgsContainer::Modern(ModernArgs {
        arguments: Args {
            game: game.iter().map(|s| Argument::Constant(s.to_string())).collect(),
            jvm: jvm.iter().map(|s| Argument::Constant(s.to_string())).collect(),
        },
    })
}

fn root(id: &str, libraries: Vec<Library>, arguments: ArgsContainer) -> RootManifest {
    RootManifest {
        arguments,
        asset_index: AssetIndexResource { id: "5".to_string(), sha1: "x".to_string(), size: 1, total_size: 2, url: "u".to_string() },
        assets: "5".to_string(),
        downloads: PackageDownloads { client: Resource { sha1: "c".to_string(), size: 3, url: "u".to_string() } },
        id: id.to_string(),
        java_version: JavaVersion { component: "jre-legacy".to_string(), major_version: 8 },
        libraries,
        logging: None,
        main_class: "parent.Main".to_string(),
        release_time: "r0".to_string(),
        time: "t0".to_string(),
        version_type: VersionType::Release,
    }
}

fn child(id: &str, libraries: Vec<Library>, arguments: ArgsContainer) -> InheritedManifest {
    InheritedManifest {
        inherits_from: "a".to_string(),
        arguments,
        libraries,
        main_class: "child.Main".to_string(),
        release_time: "r1".to_string(),
        time: "t1".to_string(),
        version_type: VersionType::Snapshot,
        id: id.to_string(),
    }
}

#[test]
fn merge_puts_parent_libraries_first() {
    let merged = child("b", vec![lib("x")], modern(&[], &[])).into_root(root("a", vec![lib("y")], modern(&[], &[])));
    assert_eq!(merged.id, "b");
    assert_eq!(merged.libraries.iter().map(lib_path).collect::<Vec<_>>(), vec!["y", "x"]);
    assert_eq!(merged.main_class, "child.Main");
    assert_eq!(merged.time, "t1");
    assert_eq!(merged.release_time, "r1");
    assert_eq!(merged.version_type, VersionType::Release);
}

#[test]
fn merge_keeps_duplicate_libraries() {
    let merged = child("b", vec![lib("y")], modern(&[], &[])).into_root(root("a", vec![lib("y")], modern(&[], &[])));
    assert_eq!(merged.libraries.len(), 2);
}

#[test]
fn merge_appends_arguments_by_kind() {
    let merged = child("b", vec![], modern(&["--c"], &["-Dc"])).into_root(root("a", vec![], modern(&["--p"], &["-Dp"])));
    match merged.arguments {
        ArgsContainer::Modern(m) => {
            assert_eq!(constants(&m.arguments.game), vec!["--p", "--c"]);
            assert_eq!(constants(&m.arguments.jvm), vec!["-Dp", "-Dc"]);
        }
        ArgsContainer::Legacy(_) => panic!("merged arguments are in list form"),
    }
}

#[test]
fn legacy_arguments_become_game_arguments() {
    let legacy = ArgsContainer::Legacy(LegacyArgs { arguments: "--username ${auth_player_name}\t--version  ${version_name} ".to_string() });
    let m = legacy.into_modern();
    assert_eq!(constants(&m.arguments.game), vec!["--username", "${auth_player_name}", "--version", "${version_name}"]);
    assert!(m.arguments.jvm.is_empty());
    let merged = modern(&["--demo"], &["-Xss1M"]).merge(ArgsContainer::Legacy(LegacyArgs { arguments: "--width 5".to_string() }));
    match merged {
        ArgsContainer::Modern(m) => {
            assert_eq!(constants(&m.arguments.game), vec!["--demo", "--width", "5"]);
            assert_eq!(constants(&m.arguments.jvm), vec!["-Xss1M"]);
        }
        ArgsContainer::Legacy(_) => panic!("merged arguments are in list form"),
    }
    let empty = ModernArgs::from_legacy("");
    assert!(empty.arguments.game.is_empty());
}

#[test]
fn inheriting_descriptor_needs_its_parent() {
    let conditional = Argument::Conditional { rules: vec![], value: ConditionalArgument::Single("--x".to_string()) };
    let inherited = Manifest::Inherited(Box::new(child("b", vec![], ArgsContainer::Modern(ModernArgs { arguments: Args { game: vec![conditional], jvm: vec![] } }))));
    assert_eq!(inherited.inherits_from().map(|s| s.as_str()), Some("a"));
    assert!(inherited.clone().into_root(None).is_none());
    let resolved = inherited.into_root(Some(root("a", vec![lib("y")], modern(&[], &[])))).unwrap();
    assert_eq!(resolved.id, "b");
    let standalone = Manifest::Root(Box::new(root("a", vec![], modern(&[], &[]))));
    assert!(standalone.inherits_from().is_none());
    assert_eq!(standalone.into_root(None).unwrap().id, "a");
}

#[test]
fn conditional_arguments_are_gated_by_rules() {
    let feature = |name: &str| Rule {
        action: RuleAction::Allow,
        condition: Condition { os: None, features: Some(vec![name.to_string()]) },
    };
    let args = vec![
        Argument::Constant("--a".to_string()),
        Argument::Conditional {
            rules: vec![feature("has_custom_resolution")],
            value: ConditionalArgument::List(vec!["--width".to_string(), "5".to_string()]),
        },
        Argument::Conditional { rules: vec![feature("is_demo_user")], value: ConditionalArgument::Single("--demo".to_string()) },
        Argument::Conditional {
            rules: vec![Rule {
                action: RuleAction::Allow,
                condition: Condition {
                    os: Some(RuleOsCondition { name: Some(Os::Linux), version: None, arch: None }),
                    features: None,
                },
            }],
            value: ConditionalArgument::Single("-Dlinux".to_string()),
        },
    ];
    let mut out = vec!["java".to_string()];
    process_args(&args, Platform { os: Os::Linux, arch: Arch::X64 }, &default_features(), &mut out);
    assert_eq!(out, vec!["java", "--a", "--width", "5", "-Dlinux"]);
    let mut on_windows = Vec::new();
    process_args(&args, Platform { os: Os::Windows, arch: Arch::X64 }, &Vec::new(), &mut on_windows);
    assert_eq!(on_windows, vec!["--a"]);
}
