use rsmc::coordinate::{libname_to_path, ArtifactName};
use rsmc::layout::{CanonicalKind, CanonicalRoot, CanonicalTree};
use rsmc::manifest::{
    Args, ArgsContainer, Artifact, AssetIndex, AssetIndexResource, AssetObject, JavaVersion, Library,
    LibraryDownloadEntry, ModernArgs, Natives, PackageDownloads, Resource, RootManifest, VersionType,
};
use rsmc::planner::{make_url, plan, InstallError, Item};
use rsmc::rules::{Arch, Condition, Os, Platform, Rule, RuleAction, RuleOsCondition};
use rsmc::runtime::{
    Availability, Component, ComponentType, Downloads, Entry, FileEntry, JavaRuntime, JreFile,
    JreManifest, ManifestResource, Target, TargetComponents, Version,
};

fn linux() -> Platform {
    Platform { os: Os::Linux, arch: Arch::X64 }
}

fn artifact(path: &str) -> Artifact {
    Artifact {
        path: path.to_string(),
        sha1: format!("sha-{path}"),
        size: 10,
        url: format!("https://libraries.example/{path}"),
    }
}

fn downloads(path: &str) -> LibraryDownloadEntry {
    LibraryDownloadEntry { artifact: artifact(path) }
}

fn only_on(os: Os) -> Vec<Rule> {
    vec![Rule {
        action: RuleAction::Allow,
        condition: Condition {
            os: Some(RuleOsCondition { name: Some(os), version: None, arch: None }),
            features: None,
        },
    }]
}

fn manifest(libraries: Vec<Library>) -> RootManifest {
    RootManifest {
        arguments: ArgsContainer::Modern(ModernArgs { arguments: Args { game: Vec::new(), jvm: Vec::new() } }),
        asset_index: AssetIndexResource {
            id: "5".to_string(),
            sha1: "idxsha".to_string(),
            size: 1,
            total_size: 2,
            url: "https://meta.example/5.json".to_string(),
        },
        assets: "5".to_string(),
        downloads: PackageDownloads {
            client: Resource { sha1: "clientsha".to_string(), size: 99, url: "https://meta.example/client.jar".to_string() },
        },
        id: "1.20".to_string(),
        java_version: JavaVersion { component: "java-runtime-gamma".to_string(), major_version: 17 },
        libraries,
        logging: None,
        main_class: "net.minecraft.client.main.Main".to_string(),
        release_time: "t1".to_string(),
        time: "t2".to_string(),
        version_type: VersionType::Release,
    }
}

fn native(rules: Vec<Rule>, natives: Vec<(Os, String)>) -> Library {
    Library::Native {
        downloads: downloads("lwjgl.jar"),
        name: "org.lwjgl:lwjgl:3".to_string(),
        rules,
        classifiers: vec![("natives-linux".to_string(), artifact("lwjgl-natives-linux.jar"))],
        natives: Natives { inner: natives },
    }
}

fn paths(items: &[Item]) -> Vec<&str> {
    items.iter().map(|i| i.path.as_str()).collect()
}

fn hash40() -> String {
    "abc123".to_string() + &"0".repeat(32) + "ff"
}

fn runtime_files() -> JreManifest {
    let file = |name: &str| JreFile { sha1: format!("{name}-sha"), size: 7, url: format!("https://rt.example/{name}") };
    JreManifest {
        files: vec![
            ("bin".to_string(), Entry::Directory),
            (
                "bin/java".to_string(),
                Entry::File(Box::new(FileEntry {
                    executable: true,
                    downloads: Downloads { lzma: Some(file("java.lzma")), raw: file("java") },
                })),
            ),
            ("lib/link".to_string(), Entry::Link),
        ],
    }
}

#[test]
fn asset_object_path_is_content_addressed() {
    let hash = hash40();
    assert_eq!(hash.len(), 40);
    let index = AssetIndex { objects: vec![("icons/a.png".to_string(), AssetObject { hash: hash.clone(), size: 5 })] };
    let items = index.into_items().unwrap();
    assert_eq!(items.len(), 1);
    assert_eq!(items[0].path, format!("ab/{hash}"));
    assert_eq!(items[0].kind, CanonicalKind::AssetsObject);
    assert_eq!(items[0].known_sha, Some(hash.clone()));
    assert_eq!(items[0].url, format!("https://resources.download.minecraft.net/ab/{hash}"));
    let tree = CanonicalTree::new(&CanonicalRoot { root: "/game".to_string(), id: "1.20".to_string(), jre: "java-runtime-gamma".to_string() });
    assert_eq!(tree.place(items[0].kind, &items[0].path), format!("/game/assets/objects/ab/{hash}"));
    assert_eq!(make_url("abcd"), "https://resources.download.minecraft.net/ab/abcd");
}

#[test]
fn short_asset_hash_is_invalid() {
    let index = AssetIndex { objects: vec![("x".to_string(), AssetObject { hash: "a".to_string(), size: 5 })] };
    assert_eq!(index.into_items().unwrap_err(), InstallError::InvalidManifest);
}

#[test]
fn native_without_classifier_for_os_is_invalid() {
    let m = manifest(vec![native(Vec::new(), vec![(Os::Windows, "natives-windows".to_string())])]);
    assert_eq!(m.into_items(linux()).unwrap_err(), InstallError::InvalidManifest);
    let missing_artifact = manifest(vec![native(Vec::new(), vec![(Os::Linux, "natives-other".to_string())])]);
    assert_eq!(missing_artifact.into_items(linux()).unwrap_err(), InstallError::InvalidManifest);
    // rules that fail skip the classifier, and with it the error
    let skipped = manifest(vec![native(only_on(Os::Osx), vec![])]);
    assert_eq!(paths(&skipped.into_items(linux()).unwrap()), vec!["1.20.jar", "lwjgl.jar"]);
}

#[test]
fn libraries_by_shape() {
    let m = manifest(vec![
        Library::Default { downloads: downloads("a.jar"), name: "g:a:1".to_string() },
        Library::Seminative { downloads: downloads("b.jar"), name: "g:b:1".to_string(), rules: only_on(Os::Windows) },
        Library::Seminative { downloads: downloads("c.jar"), name: "g:c:1".to_string(), rules: only_on(Os::Linux) },
        native(Vec::new(), vec![(Os::Linux, "natives-linux".to_string())]),
        Library::Custom { name: "net.fabricmc:fabric-loader:0.14.21".to_string(), url: "https://maven.fabricmc.net/".to_string() },
    ]);
    let items = m.into_items(linux()).unwrap();
    assert_eq!(
        paths(&items),
        vec![
            "1.20.jar",
            "a.jar",
            "c.jar",
            "lwjgl.jar",
            "lwjgl-natives-linux.jar",
            "net/fabricmc/fabric-loader/0.14.21/fabric-loader-0.14.21.jar",
        ]
    );
    assert_eq!(items[0].kind, CanonicalKind::Version);
    assert_eq!(items[0].known_size, Some(99));
    assert_eq!(items[1].known_sha, Some("sha-a.jar".to_string()));
    assert_eq!(items[5].url, "https://maven.fabricmc.net/net/fabricmc/fabric-loader/0.14.21/fabric-loader-0.14.21.jar");
    assert_eq!(items[5].known_sha, None);
    assert_eq!(items[5].known_size, None);
}

#[test]
fn malformed_coordinate_is_invalid() {
    let m = manifest(vec![Library::Custom { name: "group:artifact".to_string(), url: "https://maven.example/".to_string() }]);
    assert_eq!(m.into_items(linux()).unwrap_err(), InstallError::InvalidManifest);
    assert_eq!(libname_to_path("a.b:c:1.0"), Some("a/b/c/1.0/c-1.0.jar".to_string()));
    assert_eq!(libname_to_path("a:b:c:d"), Some("a/b/c:d/b-c:d.jar".to_string()));
    assert_eq!(libname_to_path(":b:c"), None);
    assert_eq!(libname_to_path("a::c"), None);
    assert_eq!(libname_to_path("a:b:"), None);
    let name = ArtifactName::parse("org.ow2.asm:asm:9.3").unwrap();
    assert_eq!(name.to_path(), "org/ow2/asm/asm/9.3");
}

#[test]
fn whole_plan_order_and_idempotence() {
    let hash = hash40();
    let index = AssetIndex {
        objects: vec![
            ("b".to_string(), AssetObject { hash: hash.clone(), size: 1 }),
            ("a".to_string(), AssetObject { hash: "ffee".to_string(), size: 2 }),
        ],
    };
    let m = manifest(vec![Library::Default { downloads: downloads("a.jar"), name: "g:a:1".to_string() }]);
    let first = plan(&m, &index, &runtime_files(), linux()).unwrap();
    let second = plan(&m, &index, &runtime_files(), linux()).unwrap();
    let ab = format!("ab/{hash}");
    assert_eq!(paths(&first), vec!["5.json", "1.20.jar", "a.jar", ab.as_str(), "ff/ffee", "bin/java"]);
    assert_eq!(first.len(), second.len());
    for (x, y) in first.iter().zip(second.iter()) {
        assert_eq!((x.kind, &x.url, &x.path, x.known_size, &x.known_sha), (y.kind, &y.url, &y.path, y.known_size, &y.known_sha));
    }
    assert_eq!(first[0].kind, CanonicalKind::AssetsIndex);
    assert_eq!(first[0].known_sha, Some("idxsha".to_string()));
    assert_eq!(first[5].kind, CanonicalKind::Jre);
    assert_eq!(first[5].url, "https://rt.example/java");
    assert_eq!(first[5].known_sha, Some("java-sha".to_string()));
}

fn component(sha: &str) -> Component {
    Component {
        availability: Availability { group: 1, progress: 100 },
        manifest: ManifestResource { sha1: sha.to_string(), size: 3, url: format!("https://rt.example/{sha}.json") },
        version: Version { name: "17".to_string(), released: "r".to_string() },
    }
}

#[test]
fn runtime_component_selection() {
    let runtime = JavaRuntime {
        inner: vec![
            (Target::WindowsX64, TargetComponents { inner: vec![(ComponentType::JavaRuntimeGamma, vec![component("win")])] }),
            (
                Target::Linux,
                TargetComponents {
                    inner: vec![
                        (ComponentType::JavaRuntimeGamma, vec![component("first"), component("second")]),
                        (ComponentType::JreLegacy, vec![]),
                    ],
                },
            ),
        ],
    };
    let m = manifest(Vec::new());
    assert_eq!(m.runtime_component(&runtime, linux()).unwrap().manifest.sha1, "first");
    assert_eq!(m.runtime_component(&runtime, Platform { os: Os::Windows, arch: Arch::X64 }).unwrap().manifest.sha1, "win");
    assert_eq!(m.runtime_component(&runtime, Platform { os: Os::Osx, arch: Arch::X64 }).unwrap_err(), InstallError::Unsupported);
    assert_eq!(m.runtime_component(&runtime, Platform { os: Os::Osx, arch: Arch::X86 }).unwrap_err(), InstallError::Unsupported);
    let mut legacy = manifest(Vec::new());
    legacy.java_version.component = "jre-legacy".to_string();
    assert_eq!(legacy.runtime_component(&runtime, linux()).unwrap_err(), InstallError::Unexpected);
    let mut unknown = manifest(Vec::new());
    unknown.java_version.component = "java-runtime-omega".to_string();
    assert_eq!(unknown.runtime_component(&runtime, linux()).unwrap_err(), InstallError::Unexpected);
    assert_eq!(ComponentType::from_str("minecraft-java-exe"), Some(ComponentType::MinecraftJavaExe));
    assert_eq!(ComponentType::from_str("java-runtime-gamma-snapshot"), Some(ComponentType::JavaRuntimeGammaSnapshot));
    assert_eq!(ComponentType::from_str("java-runtime"), None);
}

#[test]
fn canonical_tree_layout() {
    let tree = CanonicalTree::new(&CanonicalRoot { root: "/r".to_string(), id: "1.20".to_string(), jre: "jre-legacy".to_string() });
    assert_eq!(tree.for_kind(CanonicalKind::Library), "/r/libraries");
    assert_eq!(tree.for_kind(CanonicalKind::Version), "/r/versions/1.20");
    assert_eq!(tree.for_kind(CanonicalKind::VersionNative), "/r/versions/1.20/natives");
    assert_eq!(tree.for_kind(CanonicalKind::Jre), "/r/jre/jre-legacy");
    assert_eq!(tree.for_kind(CanonicalKind::AssetsIndex), "/r/assets/indexes");
    assert_eq!(tree.for_kind(CanonicalKind::AssetsObject), "/r/assets/objects");
    assert_eq!(tree.assets_dir, "/r/assets");
    assert_eq!(tree.place(CanonicalKind::Version, "1.20.jar"), "/r/versions/1.20/1.20.jar");
}

#[test]
fn classifier_names_by_os() {
    let natives = Natives { inner: vec![(Os::Osx, "natives-macos".to_string()), (Os::Linux, "natives-linux".to_string()), (Os::Linux, "later".to_string())] };
    assert_eq!(natives.get_classifier_name(Os::Linux).map(|s| s.as_str()), Some("natives-linux"));
    assert_eq!(natives.get_classifier_name(Os::Windows), None);
}
