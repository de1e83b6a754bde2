//! The canonical directory layout under an install root.

use vstd::prelude::*;
use crate::text::{join_path, joined};

verus! {

/// What a canonical tree is derived from.
#[derive(Debug, Clone)]
pub struct CanonicalRoot {
    pub root: String,
    pub id: String,
    pub jre: String,
}

/// The directories of one install run, derived once from a canonical root.
#[derive(Debug, Clone)]
pub struct CanonicalTree {
    pub libraries_dir: String,
    pub version_dir: String,
    pub version_natives_dir: String,
    pub jre_dir: String,
    pub assets_dir: String,
    pub assets_indexes_dir: String,
    pub assets_objects_dir: String,
}

/// The logical kind of an installed resource.
#[derive(Debug, Clone, Copy, PartialEq, Eq, Structural, Hash)]
pub enum CanonicalKind {
    Library,
    AssetsObject,
    AssetsIndex,
    Version,
    VersionNative,
    Jre,
}

/// `a/b`.
pub open spec fn under(a: Seq<char>, b: Seq<char>) -> Seq<char> {
    joined(a, '/', b)
}

/// The layout that a root describes.
pub open spec fn layout_of(t: CanonicalTree, r: CanonicalRoot) -> bool {
    &&& t.libraries_dir@ == under(r.root@, "libraries"@)
    &&& t.version_dir@ == under(under(r.root@, "versions"@), r.id@)
    &&& t.version_natives_dir@ == under(t.version_dir@, "natives"@)
    &&& t.jre_dir@ == under(under(r.root@, "jre"@), r.jre@)
    &&& t.assets_dir@ == under(r.root@, "assets"@)
    &&& t.assets_indexes_dir@ == under(t.assets_dir@, "indexes"@)
    &&& t.assets_objects_dir@ == under(t.assets_dir@, "objects"@)
}

impl CanonicalTree {
    /// The directory of each kind of resource.
    pub open spec fn dir_of(self, kind: CanonicalKind) -> Seq<char> {
        match kind {
            CanonicalKind::Library => self.libraries_dir@,
            CanonicalKind::AssetsObject => self.assets_objects_dir@,
            CanonicalKind::AssetsIndex => self.assets_indexes_dir@,
            CanonicalKind::Version => self.version_dir@,
            CanonicalKind::VersionNative => self.version_natives_dir@,
            CanonicalKind::Jre => self.jre_dir@,
        }
    }

    /// Derives the layout under `root`.
    pub fn new(root: &CanonicalRoot) -> (r: CanonicalTree)
        ensures
            layout_of(r, *root),
    {
        let version_dir = join_path(join_path(root.root.as_str(), "versions").as_str(), root.id.as_str());
        let assets_dir = join_path(root.root.as_str(), "assets");
        CanonicalTree {
            libraries_dir: join_path(root.root.as_str(), "libraries"),
            version_natives_dir: join_path(version_dir.as_str(), "natives"),
            version_dir,
            jre_dir: join_path(join_path(root.root.as_str(), "jre").as_str(), root.jre.as_str()),
            assets_indexes_dir: join_path(assets_dir.as_str(), "indexes"),
            assets_objects_dir: join_path(assets_dir.as_str(), "objects"),
            assets_dir,
        }
    }

    /// The directory that holds resources of `kind`.
    pub fn for_kind(&self, kind: CanonicalKind) -> (r: String)
        ensures
            r@ == self.dir_of(kind),
    {
        match kind {
            CanonicalKind::Library => self.libraries_dir.clone(),
            CanonicalKind::AssetsObject => self.assets_objects_dir.clone(),
            CanonicalKind::AssetsIndex => self.assets_indexes_dir.clone(),
            CanonicalKind::Version => self.version_dir.clone(),
            CanonicalKind::VersionNative => self.version_natives_dir.clone(),
            CanonicalKind::Jre => self.jre_dir.clone(),
        }
    }

    /// Where a resource of `kind` at the relative `path` is placed.
    pub fn place(&self, kind: CanonicalKind, path: &str) -> (r: String)
        ensures
            r@ == under(self.dir_of(kind), path@),
    {
        join_path(self.for_kind(kind).as_str(), path)
    }
}

} // verus!
