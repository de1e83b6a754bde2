//! The install planner: a resolved descriptor, its asset index and the file
//! manifest of its runtime component, turned into a flat list of downloads.

use vstd::prelude::*;
use crate::coordinate::{coordinate_jar, libname_to_path};
use crate::layout::CanonicalKind;
use crate::manifest::{Artifact, AssetIndex, AssetObject, Library, RootManifest};
use crate::rules::{all_pass, Os, Platform, Rule};
use crate::runtime::{
    chosen_component, lemma_first_key, lookup, select_component, Component, Entry, FileEntry,
    JavaRuntime, JreManifest, SelectError,
};
use crate::text::{copy_text, push_char, slice_text, text_eq};

verus! {

/// Where asset objects are downloaded from.
pub const RESOURCES_BASE_URL: &'static str = "https://resources.download.minecraft.net/";

/// One planned download: a remote file, where it goes under the directory of
/// its kind, and what is known of it beforehand.
#[derive(Debug, Clone)]
pub struct Item {
    pub kind: CanonicalKind,
    pub url: String,
    pub path: String,
    pub known_size: Option<u64>,
    pub known_sha: Option<String>,
}

/// An item as plain values.
pub struct ItemView {
    pub kind: CanonicalKind,
    pub url: Seq<char>,
    pub path: Seq<char>,
    pub known_size: Option<u64>,
    pub known_sha: Option<Seq<char>>,
}

impl View for Item {
    type V = ItemView;

    open spec fn view(&self) -> ItemView {
        ItemView {
            kind: self.kind,
            url: self.url@,
            path: self.path@,
            known_size: self.known_size,
            known_sha: match self.known_sha {
                Some(s) => Some(s@),
                None => None,
            },
        }
    }
}

/// Why a plan could not be made.
#[derive(Debug, Clone, Copy, PartialEq, Eq, Structural)]
pub enum InstallError {
    /// The descriptor is malformed: a bad coordinate or URL, a missing native
    /// classifier, an asset hash too short to shard.
    InvalidManifest,
    /// No runtime is offered for this platform.
    Unsupported,
    /// The descriptor names a runtime component that is not offered.
    Unexpected,
}

/// The views of a list of items.
pub open spec fn views(s: Seq<Item>) -> Seq<ItemView> {
    s.map_values(|i: Item| i@)
}

/// A planning result as plain values.
pub open spec fn outcome(r: Result<Vec<Item>, InstallError>) -> Result<Seq<ItemView>, InstallError> {
    match r {
        Ok(v) => Ok(views(v@)),
        Err(e) => Err(e),
    }
}

/// What `url::Url::join` makes of a base URL and a relative reference.
pub uninterp spec fn url_joined(base: Seq<char>, input: Seq<char>) -> Option<Seq<char>>;

/// Relies on url::Url::parse, to read the base, and url::Url::join, to
/// resolve `input` against it; `None` where either fails.
#[verifier::external_body]
fn join_url(base: &str, input: &str) -> (r: Option<String>)
    ensures
        match r {
            Some(u) => url_joined(base@, input@) == Some(u@),
            None => url_joined(base@, input@) is None,
        },
{
    url::Url::parse(base).and_then(|b| b.join(input)).ok().map(String::from)
}

/// The item of a library artifact.
pub open spec fn artifact_item(a: Artifact) -> ItemView {
    ItemView {
        kind: CanonicalKind::Library,
        url: a.url@,
        path: a.path@,
        known_size: Some(a.size),
        known_sha: Some(a.sha1@),
    }
}

fn item_of_artifact(a: &Artifact) -> (r: Item)
    ensures
        r@ == artifact_item(*a),
{
    Item {
        kind: CanonicalKind::Library,
        url: copy_text(a.url.as_str()),
        path: copy_text(a.path.as_str()),
        known_size: Some(a.size),
        known_sha: Some(copy_text(a.sha1.as_str())),
    }
}

/// The classifier artifact of a native library for `os`: the classifier
/// name that the natives give for `os`, then the artifact of that name.
pub open spec fn native_artifact(natives: Seq<(Os, String)>, classifiers: Seq<(String, Artifact)>, os: Os) -> Option<Artifact> {
    match lookup(natives, os) {
        None => None,
        Some(name) => {
            let keys = classifiers.map_values(|e: (String, Artifact)| (e.0@, e.1));
            lookup(keys, name@)
        },
    }
}

/// The items of one library on a platform.
pub open spec fn library_items(lib: Library, p: Platform) -> Result<Seq<ItemView>, InstallError> {
    match lib {
        Library::Custom { name, url } => match coordinate_jar(name@) {
            None => Err(InstallError::InvalidManifest),
            Some(path) => match url_joined(url@, path) {
                None => Err(InstallError::InvalidManifest),
                Some(u) => Ok(
                    seq![
                        ItemView {
                            kind: CanonicalKind::Library,
                            url: u,
                            path,
                            known_size: None,
                            known_sha: None,
                        },
                    ],
                ),
            },
        },
        Library::Native { downloads, rules, classifiers, natives, .. } => {
            let base = artifact_item(downloads.artifact);
            if !all_pass(rules@, p) {
                Ok(seq![base])
            } else {
                match native_artifact(natives.inner@, classifiers@, p.os) {
                    None => Err(InstallError::InvalidManifest),
                    Some(a) => Ok(seq![base, artifact_item(a)]),
                }
            }
        },
        Library::Seminative { downloads, rules, .. } => if all_pass(rules@, p) {
            Ok(seq![artifact_item(downloads.artifact)])
        } else {
            Ok(seq![])
        },
        Library::Default { downloads, .. } => Ok(seq![artifact_item(downloads.artifact)]),
    }
}

/// The items of a list of libraries, in order; the first failure ends it.
pub open spec fn libraries_items(libs: Seq<Library>, p: Platform) -> Result<Seq<ItemView>, InstallError>
    decreases libs.len(),
{
    if libs.len() == 0 {
        Ok(seq![])
    } else {
        match libraries_items(libs.drop_last(), p) {
            Err(e) => Err(e),
            Ok(prev) => match library_items(libs.last(), p) {
                Err(e) => Err(e),
                Ok(more) => Ok(prev + more),
            },
        }
    }
}

fn find_classifier<'a>(classifiers: &'a Vec<(String, Artifact)>, name: &str) -> (r: Option<&'a Artifact>)
    ensures
        match lookup(classifiers@.map_values(|e: (String, Artifact)| (e.0@, e.1)), name@) {
            Some(a) => r == Some(&a),
            None => r is None,
        },
{
    let ghost keys = classifiers@.map_values(|e: (String, Artifact)| (e.0@, e.1));
    let mut i: usize = 0;
    while i < classifiers.len()
        invariant
            i <= classifiers@.len(),
            keys == classifiers@.map_values(|e: (String, Artifact)| (e.0@, e.1)),
            forall|j: int| 0 <= j < i ==> keys[j].0 != name@,
        decreases classifiers@.len() - i,
    {
        if text_eq(classifiers[i].0.as_str(), name) {
            proof {
                lemma_first_key(keys, name@, i as int);
            }
            return Some(&classifiers[i].1);
        }
        i += 1;
    }
    None
}

/// Appends the items of one library on `platform` to `items`; on failure
/// `items` may hold part of them.
pub fn plan_library(lib: &Library, platform: Platform, items: &mut Vec<Item>) -> (r: Result<(), InstallError>)
    ensures
        match library_items(*lib, platform) {
            Ok(more) => r is Ok && views(final(items)@) == views(old(items)@) + more,
            Err(e) => r == Err::<(), InstallError>(e),
        },
{
    let ghost before = views(items@);
    match lib {
        Library::Custom { name, url } => {
            let path = match libname_to_path(name.as_str()) {
                Some(p) => p,
                None => return Err(InstallError::InvalidManifest),
            };
            let url = match join_url(url.as_str(), path.as_str()) {
                Some(u) => u,
                None => return Err(InstallError::InvalidManifest),
            };
            items.push(Item { kind: CanonicalKind::Library, url, path, known_size: None, known_sha: None });
        },
        Library::Native { downloads, rules, classifiers, natives, .. } => {
            let base = item_of_artifact(&downloads.artifact);
            if !Rule::unpack_all(rules, platform) {
                items.push(base);
            } else {
                let name = match natives.get_classifier_name(platform.os) {
                    Some(n) => n,
                    None => return Err(InstallError::InvalidManifest),
                };
                let artifact = match find_classifier(classifiers, name.as_str()) {
                    Some(a) => a,
                    None => return Err(InstallError::InvalidManifest),
                };
                items.push(base);
                items.push(item_of_artifact(artifact));
            }
        },
        Library::Seminative { downloads, rules, .. } => {
            if Rule::unpack_all(rules, platform) {
                items.push(item_of_artifact(&downloads.artifact));
            }
        },
        Library::Default { downloads, .. } => {
            items.push(item_of_artifact(&downloads.artifact));
        },
    }
    assert(views(items@) =~= before + library_items(*lib, platform)->Ok_0);
    Ok(())
}

/// The path of an asset object: the first two characters of its hash, then
/// the hash.
pub open spec fn object_path(hash: Seq<char>) -> Seq<char> {
    hash.subrange(0, 2).push('/') + hash
}

/// The item of an asset object.
pub open spec fn object_item(o: AssetObject) -> ItemView {
    ItemView {
        kind: CanonicalKind::AssetsObject,
        url: RESOURCES_BASE_URL@ + object_path(o.hash@),
        path: object_path(o.hash@),
        known_size: Some(o.size),
        known_sha: Some(o.hash@),
    }
}

/// The items of an asset index, in index order; an error where some hash has
/// fewer than two characters.
pub open spec fn objects_items(objects: Seq<(String, AssetObject)>) -> Result<Seq<ItemView>, InstallError> {
    if exists|i: int| 0 <= i < objects.len() && #[trigger] objects[i].1.hash@.len() < 2 {
        Err(InstallError::InvalidManifest)
    } else {
        Ok(objects.map_values(|e: (String, AssetObject)| object_item(e.1)))
    }
}

fn object_path_of(hash: &str) -> (r: String)
    requires
        hash@.len() >= 2,
    ensures
        r@ == object_path(hash@),
{
    let mut p = slice_text(hash, 0, 2);
    push_char(&mut p, '/');
    p.concat(hash)
}

/// The download address of the asset object with `hash`.
pub fn make_url(hash: &str) -> (r: String)
    requires
        hash@.len() >= 2,
    ensures
        r@ == RESOURCES_BASE_URL@ + object_path(hash@),
{
    let base = copy_text(RESOURCES_BASE_URL);
    base.concat(object_path_of(hash).as_str())
}

impl AssetIndex {
    /// The items of the index's objects, in index order.
    pub fn into_items(&self) -> (r: Result<Vec<Item>, InstallError>)
        ensures
            outcome(r) == objects_items(self.objects@),
    {
        let mut items: Vec<Item> = Vec::new();
        let mut i: usize = 0;
        while i < self.objects.len()
            invariant
                i <= self.objects@.len(),
                forall|j: int| 0 <= j < i ==> #[trigger] self.objects@[j].1.hash@.len() >= 2,
                views(items@) == self.objects@.subrange(0, i as int).map_values(
                    |e: (String, AssetObject)| object_item(e.1),
                ),
            decreases self.objects@.len() - i,
        {
            let ghost before = views(items@);
            let object = &self.objects[i].1;
            if object.hash.unicode_len() < 2 {
                assert(self.objects@[i as int].1.hash@.len() < 2);
                return Err(InstallError::InvalidManifest);
            }
            let path = object_path_of(object.hash.as_str());
            let url = make_url(object.hash.as_str());
            items.push(
                Item {
                    kind: CanonicalKind::AssetsObject,
                    url,
                    path,
                    known_size: Some(object.size),
                    known_sha: Some(copy_text(object.hash.as_str())),
                },
            );
            assert(views(items@) =~= before.push(object_item(self.objects@[i as int].1)));
            assert(self.objects@.subrange(0, i as int + 1) =~= self.objects@.subrange(0, i as int).push(self.objects@[i as int]));
            i += 1;
            assert(views(items@) =~= self.objects@.subrange(0, i as int).map_values(
                |e: (String, AssetObject)| object_item(e.1),
            ));
        }
        assert(self.objects@.subrange(0, i as int) =~= self.objects@);
        Ok(items)
    }
}

/// The item of one runtime file, from its uncompressed download.
pub open spec fn runtime_file_item(path: Seq<char>, f: FileEntry) -> ItemView {
    ItemView {
        kind: CanonicalKind::Jre,
        url: f.downloads.raw.url@,
        path,
        known_size: Some(f.downloads.raw.size),
        known_sha: Some(f.downloads.raw.sha1@),
    }
}

/// The items of a runtime file manifest: one for each regular file, in
/// manifest order; directories and links give none.
pub open spec fn runtime_items(files: Seq<(String, Entry)>) -> Seq<ItemView>
    decreases files.len(),
{
    if files.len() == 0 {
        seq![]
    } else {
        let prev = runtime_items(files.drop_last());
        match files.last().1 {
            Entry::File(f) => prev.push(runtime_file_item(files.last().0@, *f)),
            _ => prev,
        }
    }
}

impl JreManifest {
    /// The items of the manifest's regular files, in manifest order.
    pub fn into_items(&self) -> (r: Vec<Item>)
        ensures
            views(r@) == runtime_items(self.files@),
    {
        let mut items: Vec<Item> = Vec::new();
        let mut i: usize = 0;
        while i < self.files.len()
            invariant
                i <= self.files@.len(),
                views(items@) == runtime_items(self.files@.subrange(0, i as int)),
            decreases self.files@.len() - i,
        {
            let ghost before = views(items@);
            let (path, entry) = &self.files[i];
            match entry {
                Entry::File(f) => {
                    let raw = &f.downloads.raw;
                    items.push(
                        Item {
                            kind: CanonicalKind::Jre,
                            url: copy_text(raw.url.as_str()),
                            path: copy_text(path.as_str()),
                            known_size: Some(raw.size),
                            known_sha: Some(copy_text(raw.sha1.as_str())),
                        },
                    );
                    assert(views(items@) =~= before.push(runtime_file_item(path@, **f)));
                },
                _ => {},
            }
            i += 1;
            assert(self.files@.subrange(0, i as int).drop_last() =~= self.files@.subrange(
                0,
                i - 1,
            ));
        }
        assert(self.files@.subrange(0, i as int) =~= self.files@);
        items
    }
}

/// The item of the client package: `<id>.jar` in the version directory.
pub open spec fn client_item(m: RootManifest) -> ItemView {
    ItemView {
        kind: CanonicalKind::Version,
        url: m.downloads.client.url@,
        path: m.id@ + seq!['.', 'j', 'a', 'r'],
        known_size: Some(m.downloads.client.size),
        known_sha: Some(m.downloads.client.sha1@),
    }
}

/// The item of the asset index file: `<index id>.json` in the index
/// directory.
pub open spec fn index_item(m: RootManifest) -> ItemView {
    ItemView {
        kind: CanonicalKind::AssetsIndex,
        url: m.asset_index.url@,
        path: m.asset_index.id@ + seq!['.', 'j', 's', 'o', 'n'],
        known_size: None,
        known_sha: Some(m.asset_index.sha1@),
    }
}

/// The items of a descriptor alone: its client package, then its libraries
/// in order.
pub open spec fn manifest_items(m: RootManifest, p: Platform) -> Result<Seq<ItemView>, InstallError> {
    match libraries_items(m.libraries@, p) {
        Err(e) => Err(e),
        Ok(libs) => Ok(seq![client_item(m)] + libs),
    }
}

/// The whole plan: the asset index file, the client package, the libraries
/// in order, the asset objects in index order, then the runtime files in
/// manifest order.
pub open spec fn plan_of(m: RootManifest, index: AssetIndex, runtime: JreManifest, p: Platform) -> Result<Seq<ItemView>, InstallError> {
    match manifest_items(m, p) {
        Err(e) => Err(e),
        Ok(own) => match objects_items(index.objects@) {
            Err(e) => Err(e),
            Ok(objects) => Ok(seq![index_item(m)] + own + objects + runtime_items(runtime.files@)),
        },
    }
}

fn push_suffix(s: &str, suffix: &str) -> (r: String)
    ensures
        r@ == s@ + suffix@,
{
    copy_text(s).concat(suffix)
}

/// A failure on a prefix of the libraries is the failure of the whole list.
proof fn lemma_libraries_fail(libs: Seq<Library>, k: int, p: Platform)
    requires
        0 <= k <= libs.len(),
        libraries_items(libs.subrange(0, k), p) is Err,
    ensures
        libraries_items(libs, p) == libraries_items(libs.subrange(0, k), p),
    decreases libs.len() - k,
{
    if k == libs.len() {
        assert(libs.subrange(0, k) =~= libs);
    } else {
        let longer = libs.subrange(0, k + 1);
        assert(longer.drop_last() =~= libs.subrange(0, k));
        assert(longer.subrange(0, k) =~= libs.subrange(0, k));
        lemma_libraries_fail(libs, k + 1, p);
    }
}

impl RootManifest {
    /// The items of the descriptor alone: its client package, then its
    /// libraries in order.
    pub fn into_items(&self, platform: Platform) -> (r: Result<Vec<Item>, InstallError>)
        ensures
            outcome(r) == manifest_items(*self, platform),
    {
        let mut items: Vec<Item> = Vec::new();
        proof {
            reveal_strlit(".jar");
        }
        items.push(
            Item {
                kind: CanonicalKind::Version,
                url: copy_text(self.downloads.client.url.as_str()),
                path: push_suffix(self.id.as_str(), ".jar"),
                known_size: Some(self.downloads.client.size),
                known_sha: Some(copy_text(self.downloads.client.sha1.as_str())),
            },
        );
        assert(".jar"@ =~= seq!['.', 'j', 'a', 'r']);
        assert(views(items@) =~= seq![client_item(*self)]);
        let mut i: usize = 0;
        while i < self.libraries.len()
            invariant
                i <= self.libraries@.len(),
                libraries_items(self.libraries@.subrange(0, i as int), platform) is Ok,
                views(items@) == seq![client_item(*self)] + libraries_items(
                    self.libraries@.subrange(0, i as int),
                    platform,
                )->Ok_0,
            decreases self.libraries@.len() - i,
        {
            let ghost prefix = self.libraries@.subrange(0, i as int + 1);
            assert(prefix.drop_last() =~= self.libraries@.subrange(0, i as int));
            assert(prefix.last() == self.libraries@[i as int]);
            match plan_library(&self.libraries[i], platform, &mut items) {
                Ok(()) => {},
                Err(e) => {
                    proof {
                        lemma_libraries_fail(self.libraries@, i as int + 1, platform);
                    }
                    return Err(e);
                },
            }
            i += 1;
            assert(views(items@) =~= seq![client_item(*self)] + libraries_items(
                self.libraries@.subrange(0, i as int),
                platform,
            )->Ok_0);
        }
        assert(self.libraries@.subrange(0, i as int) =~= self.libraries@);
        Ok(items)
    }
}

impl RootManifest {
    /// The runtime component this version runs on, for `platform`: the one
    /// whose file manifest the plan's runtime files come from.
    pub fn runtime_component<'a>(&self, runtime: &'a JavaRuntime, platform: Platform) -> (r: Result<&'a Component, InstallError>)
        ensures
            match chosen_component(*runtime, platform, self.java_version.component@) {
                Ok(c) => r is Ok && *r->Ok_0 == c,
                Err(e) => r == Err::<&Component, InstallError>(select_error(e)),
            },
    {
        match select_component(runtime, platform, self.java_version.component.as_str()) {
            Ok(c) => Ok(c),
            Err(e) => Err(InstallError::from(e)),
        }
    }
}

/// Plans an install: the asset index file, the client package, the
/// libraries in order, the asset objects in index order, then the runtime
/// files in manifest order. Any planning error aborts the whole plan.
pub fn plan(manifest: &RootManifest, index: &AssetIndex, runtime: &JreManifest, platform: Platform) -> (r: Result<Vec<Item>, InstallError>)
    ensures
        outcome(r) == plan_of(*manifest, *index, *runtime, platform),
{
    proof {
        reveal_strlit(".json");
        assert(".json"@ =~= seq!['.', 'j', 's', 'o', 'n']);
    }
    let mut items: Vec<Item> = Vec::new();
    items.push(
        Item {
            kind: CanonicalKind::AssetsIndex,
            url: copy_text(manifest.asset_index.url.as_str()),
            path: push_suffix(manifest.asset_index.id.as_str(), ".json"),
            known_size: None,
            known_sha: Some(copy_text(manifest.asset_index.sha1.as_str())),
        },
    );
    let mut own = match manifest.into_items(platform) {
        Ok(v) => v,
        Err(e) => return Err(e),
    };
    let mut objects = match index.into_items() {
        Ok(v) => v,
        Err(e) => return Err(e),
    };
    let mut files = runtime.into_items();
    let ghost (a, b, c, d) = (items@, own@, objects@, files@);
    assert(views(a) =~= seq![index_item(*manifest)]);
    items.append(&mut own);
    items.append(&mut objects);
    items.append(&mut files);
    assert(items@ == a + b + c + d);
    assert(views(items@) =~= views(a) + views(b) + views(c) + views(d));
    Ok(items)
}

/// The error that a failed runtime selection is reported as.
pub open spec fn select_error(e: SelectError) -> InstallError {
    match e {
        SelectError::UnsupportedPlatform => InstallError::Unsupported,
        SelectError::UnknownComponent => InstallError::Unexpected,
        SelectError::MissingComponent => InstallError::Unexpected,
    }
}

impl From<SelectError> for InstallError {
    fn from(e: SelectError) -> (r: InstallError)
        ensures
            r == select_error(e),
    {
        match e {
            SelectError::UnsupportedPlatform => InstallError::Unsupported,
            SelectError::UnknownComponent => InstallError::Unexpected,
            SelectError::MissingComponent => InstallError::Unexpected,
        }
    }
}

impl vstd::std_specs::convert::FromSpecImpl<SelectError> for InstallError {
    open spec fn obeys_from_spec() -> bool {
        true
    }

    open spec fn from_spec(e: SelectError) -> InstallError {
        select_error(e)
    }
}

/// Every planning failure of a list of libraries is a malformed descriptor.
proof fn lemma_libraries_error_kind(libs: Seq<Library>, p: Platform)
    ensures
        libraries_items(libs, p) is Err ==> libraries_items(libs, p) == Err::<Seq<ItemView>, InstallError>(InstallError::InvalidManifest),
    decreases libs.len(),
{
    if libs.len() > 0 {
        lemma_libraries_error_kind(libs.drop_last(), p);
    }
}

/// A library that fails to plan makes the whole list fail.
proof fn lemma_library_fails_list(libs: Seq<Library>, k: int, p: Platform)
    requires
        0 <= k < libs.len(),
        library_items(libs[k], p) is Err,
    ensures
        libraries_items(libs, p) == Err::<Seq<ItemView>, InstallError>(InstallError::InvalidManifest),
    decreases libs.len(),
{
    lemma_libraries_error_kind(libs, p);
    if k < libs.len() - 1 {
        assert(libs.drop_last()[k] == libs[k]);
        lemma_library_fails_list(libs.drop_last(), k, p);
    }
}

/// A native library whose rules pass but that has no classifier artifact for
/// the platform's operating system fails as a malformed descriptor, and so
/// does the plan of any descriptor that lists it.
pub proof fn lemma_missing_classifier(m: RootManifest, index: AssetIndex, runtime: JreManifest, k: int, p: Platform)
    requires
        0 <= k < m.libraries@.len(),
        m.libraries@[k] is Native,
        all_pass(m.libraries@[k]->Native_rules@, p),
        native_artifact(m.libraries@[k]->Native_natives.inner@, m.libraries@[k]->Native_classifiers@, p.os) is None,
    ensures
        library_items(m.libraries@[k], p) == Err::<Seq<ItemView>, InstallError>(InstallError::InvalidManifest),
        plan_of(m, index, runtime, p) == Err::<Seq<ItemView>, InstallError>(InstallError::InvalidManifest),
{
    lemma_library_fails_list(m.libraries@, k, p);
}

/// Planning the same inputs twice gives the same items in the same order.
pub proof fn lemma_plan_deterministic(
    m: RootManifest,
    index: AssetIndex,
    runtime: JreManifest,
    p: Platform,
    first: Result<Vec<Item>, InstallError>,
    second: Result<Vec<Item>, InstallError>,
)
    requires
        outcome(first) == plan_of(m, index, runtime, p),
        outcome(second) == plan_of(m, index, runtime, p),
    ensures
        outcome(first) == outcome(second),
{
}

} // verus!
