//! The runtime components offered per platform, and the file manifest of one
//! component.

use vstd::prelude::*;
use crate::rules::{Arch, Os, Platform};
use crate::text::text_eq;

verus! {

/// A platform as the runtime index names it.
#[derive(Debug, Clone, Copy, PartialEq, Eq, Structural, Hash)]
pub enum Target {
    GameCore,
    Linux,
    LinuxI386,
    Macos,
    MacosArm64,
    WindowsArm64,
    WindowsX64,
    WindowsX86,
}

/// A runtime component family.
#[derive(Debug, Clone, Copy, PartialEq, Eq, Structural, Hash)]
pub enum ComponentType {
    JavaRuntimeAlpha,
    JavaRuntimeBeta,
    JavaRuntimeGamma,
    JavaRuntimeGammaSnapshot,
    JreLegacy,
    MinecraftJavaExe,
}

/// The component family a descriptor's component string names.
pub open spec fn component_named(s: Seq<char>) -> Option<ComponentType> {
    if s == "java-runtime-alpha"@ {
        Some(ComponentType::JavaRuntimeAlpha)
    } else if s == "java-runtime-beta"@ {
        Some(ComponentType::JavaRuntimeBeta)
    } else if s == "java-runtime-gamma"@ {
        Some(ComponentType::JavaRuntimeGamma)
    } else if s == "java-runtime-gamma-snapshot"@ {
        Some(ComponentType::JavaRuntimeGammaSnapshot)
    } else if s == "jre-legacy"@ {
        Some(ComponentType::JreLegacy)
    } else if s == "minecraft-java-exe"@ {
        Some(ComponentType::MinecraftJavaExe)
    } else {
        None
    }
}

impl ComponentType {
    /// The family named `value`; `None` for an unknown name.
    pub fn from_str(value: &str) -> (r: Option<ComponentType>)
        ensures
            r == component_named(value@),
    {
        if text_eq(value, "java-runtime-alpha") {
            Some(ComponentType::JavaRuntimeAlpha)
        } else if text_eq(value, "java-runtime-beta") {
            Some(ComponentType::JavaRuntimeBeta)
        } else if text_eq(value, "java-runtime-gamma") {
            Some(ComponentType::JavaRuntimeGamma)
        } else if text_eq(value, "java-runtime-gamma-snapshot") {
            Some(ComponentType::JavaRuntimeGammaSnapshot)
        } else if text_eq(value, "jre-legacy") {
            Some(ComponentType::JreLegacy)
        } else if text_eq(value, "minecraft-java-exe") {
            Some(ComponentType::MinecraftJavaExe)
        } else {
            None
        }
    }
}

/// The runtime index's name for a platform, if it has one.
pub open spec fn target_of(p: Platform) -> Option<Target> {
    match (p.os, p.arch) {
        (Os::Linux, Arch::X64) => Some(Target::Linux),
        (Os::Linux, Arch::X86) => Some(Target::LinuxI386),
        (Os::Windows, Arch::X64) => Some(Target::WindowsX64),
        (Os::Windows, Arch::X86) => Some(Target::WindowsX86),
        (Os::Osx, Arch::X64) => Some(Target::Macos),
        (Os::Osx, Arch::X86) => None,
    }
}

impl Target {
    /// The runtime index's name for `platform`.
    pub fn for_platform(platform: Platform) -> (r: Option<Target>)
        ensures
            r == target_of(platform),
    {
        match (platform.os, platform.arch) {
            (Os::Linux, Arch::X64) => Some(Target::Linux),
            (Os::Linux, Arch::X86) => Some(Target::LinuxI386),
            (Os::Windows, Arch::X64) => Some(Target::WindowsX64),
            (Os::Windows, Arch::X86) => Some(Target::WindowsX86),
            (Os::Osx, Arch::X64) => Some(Target::Macos),
            (Os::Osx, Arch::X86) => None,
        }
    }
}

/// Where the file manifest of a component is found.
#[derive(Debug, Clone)]
pub struct ManifestResource {
    pub sha1: String,
    pub size: u32,
    pub url: String,
}

/// Rollout information of a component.
#[derive(Debug, Clone)]
pub struct Availability {
    pub group: u32,
    pub progress: u32,
}

/// The version of a component.
#[derive(Debug, Clone)]
pub struct Version {
    pub name: String,
    pub released: String,
}

/// One runtime component.
#[derive(Debug, Clone)]
pub struct Component {
    pub availability: Availability,
    pub manifest: ManifestResource,
    pub version: Version,
}

/// The components offered for one platform, by family, in index order.
#[derive(Debug, Clone)]
pub struct TargetComponents {
    pub inner: Vec<(ComponentType, Vec<Component>)>,
}

/// The components offered for each platform, in index order.
#[derive(Debug, Clone)]
pub struct JavaRuntime {
    pub inner: Vec<(Target, TargetComponents)>,
}

/// Why no component could be chosen.
#[derive(Debug, Clone, Copy, PartialEq, Eq, Structural)]
pub enum SelectError {
    /// The platform has no entry in the index.
    UnsupportedPlatform,
    /// The descriptor names no known family.
    UnknownComponent,
    /// The platform's entry lacks the family, or lists no component for it.
    MissingComponent,
}

/// `i` is the first entry of `s` whose key is `k`.
pub open spec fn first_key<K, V>(s: Seq<(K, V)>, k: K, i: int) -> bool {
    &&& 0 <= i < s.len()
    &&& s[i].0 == k
    &&& forall|j: int| 0 <= j < i ==> s[j].0 != k
}

/// Whether some entry of `s` has the key `k`.
pub open spec fn has_key<K, V>(s: Seq<(K, V)>, k: K) -> bool {
    exists|i: int| 0 <= i < s.len() && s[i].0 == k
}

/// The value of the first entry of `s` with key `k`.
pub open spec fn lookup<K, V>(s: Seq<(K, V)>, k: K) -> Option<V> {
    if has_key(s, k) {
        Some(s[choose|i: int| first_key(s, k, i)].1)
    } else {
        None
    }
}

/// There is one first entry for a key.
pub proof fn lemma_first_key<K, V>(s: Seq<(K, V)>, k: K, i: int)
    requires
        first_key(s, k, i),
    ensures
        lookup(s, k) == Some(s[i].1),
{
    assert(has_key(s, k));
    let c = choose|c: int| first_key(s, k, c);
    assert(first_key(s, k, c));
    if c < i {
        assert(s[c].0 == k);
    } else if i < c {
        assert(s[i].0 == k);
    }
}

impl TargetComponents {
    /// The first component listed for `component`.
    pub fn get_component(&self, component: ComponentType) -> (r: Result<&Component, SelectError>)
        ensures
            match lookup(self.inner@, component) {
                Some(list) => if list@.len() > 0 {
                    r == Ok::<&Component, SelectError>(&list@[0])
                } else {
                    r == Err::<&Component, SelectError>(SelectError::MissingComponent)
                },
                None => r == Err::<&Component, SelectError>(SelectError::MissingComponent),
            },
    {
        let mut i: usize = 0;
        while i < self.inner.len()
            invariant
                i <= self.inner@.len(),
                forall|j: int| 0 <= j < i ==> self.inner@[j].0 != component,
            decreases self.inner@.len() - i,
        {
            if self.inner[i].0 == component {
                proof {
                    lemma_first_key(self.inner@, component, i as int);
                }
                let list = &self.inner[i].1;
                if list.len() == 0 {
                    return Err(SelectError::MissingComponent);
                }
                return Ok(&list[0]);
            }
            i += 1;
        }
        Err(SelectError::MissingComponent)
    }
}

impl JavaRuntime {
    /// The components offered for `target`.
    pub fn get_components_for_target(&self, target: Target) -> (r: Result<&TargetComponents, SelectError>)
        ensures
            match lookup(self.inner@, target) {
                Some(t) => r == Ok::<&TargetComponents, SelectError>(&t),
                None => r == Err::<&TargetComponents, SelectError>(SelectError::UnsupportedPlatform),
            },
    {
        let mut i: usize = 0;
        while i < self.inner.len()
            invariant
                i <= self.inner@.len(),
                forall|j: int| 0 <= j < i ==> self.inner@[j].0 != target,
            decreases self.inner@.len() - i,
        {
            if self.inner[i].0 == target {
                proof {
                    lemma_first_key(self.inner@, target, i as int);
                }
                return Ok(&self.inner[i].1);
            }
            i += 1;
        }
        Err(SelectError::UnsupportedPlatform)
    }
}

/// The component chosen for a platform and a component name: the platform's
/// entry, then the named family in it, then the first component listed.
pub open spec fn chosen_component(rt: JavaRuntime, p: Platform, name: Seq<char>) -> Result<Component, SelectError> {
    match target_of(p) {
        None => Err(SelectError::UnsupportedPlatform),
        Some(t) => match lookup(rt.inner@, t) {
            None => Err(SelectError::UnsupportedPlatform),
            Some(tc) => match component_named(name) {
                None => Err(SelectError::UnknownComponent),
                Some(ct) => match lookup(tc.inner@, ct) {
                    None => Err(SelectError::MissingComponent),
                    Some(list) => if list@.len() > 0 {
                        Ok(list@[0])
                    } else {
                        Err(SelectError::MissingComponent)
                    },
                },
            },
        },
    }
}

/// Chooses the runtime component for `platform` named `component`.
pub fn select_component<'a>(runtime: &'a JavaRuntime, platform: Platform, component: &str) -> (r: Result<&'a Component, SelectError>)
    ensures
        match chosen_component(*runtime, platform, component@) {
            Ok(c) => r is Ok && *r->Ok_0 == c,
            Err(e) => r == Err::<&Component, SelectError>(e),
        },
{
    let target = match Target::for_platform(platform) {
        Some(t) => t,
        None => return Err(SelectError::UnsupportedPlatform),
    };
    let components = runtime.get_components_for_target(target)?;
    let family = match ComponentType::from_str(component) {
        Some(f) => f,
        None => return Err(SelectError::UnknownComponent),
    };
    components.get_component(family)
}

/// Where one runtime file is downloaded from.
#[derive(Debug, Clone)]
pub struct JreFile {
    pub sha1: String,
    pub size: u64,
    pub url: String,
}

/// The downloads of one runtime file.
#[derive(Debug, Clone)]
pub struct Downloads {
    pub lzma: Option<JreFile>,
    pub raw: JreFile,
}

/// A regular file of a runtime component.
#[derive(Debug, Clone)]
pub struct FileEntry {
    pub executable: bool,
    pub downloads: Downloads,
}

/// One entry of a runtime component's file manifest.
#[derive(Debug, Clone)]
pub enum Entry {
    Link,
    Directory,
    File(Box<FileEntry>),
}

/// The file manifest of a runtime component: paths with their entries, in
/// manifest order.
#[derive(Debug, Clone)]
pub struct JreManifest {
    pub files: Vec<(String, Entry)>,
}

} // verus!
