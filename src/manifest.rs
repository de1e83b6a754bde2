//! The version descriptor model: libraries, arguments, and the merge of an
//! inheriting descriptor into its parent.

use vstd::prelude::*;
use crate::rules::{all_pass_featured, evaluate, Os, Platform, Rule};
use crate::runtime::{lemma_first_key, lookup};
use crate::text::{copy_text, texts};

verus! {

/// A downloadable file named by a descriptor.
#[derive(Debug, Clone)]
pub struct Artifact {
    pub path: String,
    pub sha1: String,
    pub size: u64,
    pub url: String,
}

/// The downloads of a library.
#[derive(Debug, Clone)]
pub struct LibraryDownloadEntry {
    pub artifact: Artifact,
}

/// One library of a descriptor, in one of its four shapes.
#[derive(Debug, Clone)]
pub enum Library {
    /// Hosted elsewhere; its path comes from its coordinate.
    Custom { name: String, url: String },
    /// Its base artifact is always included; its classifier artifact for the
    /// current operating system only when its rules pass.
    Native {
        downloads: LibraryDownloadEntry,
        name: String,
        rules: Vec<Rule>,
        classifiers: Vec<(String, Artifact)>,
        natives: Natives,
    },
    /// Included when its rules pass.
    Seminative { downloads: LibraryDownloadEntry, name: String, rules: Vec<Rule> },
    /// Always included.
    Default { downloads: LibraryDownloadEntry, name: String },
}

/// The classifier name of a native library for each operating system, in
/// descriptor order.
#[derive(Debug, Clone)]
pub struct Natives {
    pub inner: Vec<(Os, String)>,
}

impl Natives {
    /// The classifier name for `os`; `None` where the descriptor gives none.
    pub fn get_classifier_name(&self, os: Os) -> (r: Option<&String>)
        ensures
            match lookup(self.inner@, os) {
                Some(n) => r == Some(&n),
                None => r is None,
            },
    {
        let mut i: usize = 0;
        while i < self.inner.len()
            invariant
                i <= self.inner@.len(),
                forall|j: int| 0 <= j < i ==> self.inner@[j].0 != os,
            decreases self.inner@.len() - i,
        {
            if self.inner[i].0 == os {
                proof {
                    lemma_first_key(self.inner@, os, i as int);
                }
                return Some(&self.inner[i].1);
            }
            i += 1;
        }
        None
    }
}

/// The value of a conditional argument.
#[derive(Debug, Clone)]
pub enum ConditionalArgument {
    Single(String),
    List(Vec<String>),
}

/// A launch argument, constant or gated by rules.
#[derive(Debug, Clone)]
pub enum Argument {
    Constant(String),
    Conditional { rules: Vec<Rule>, value: ConditionalArgument },
}

/// Game and runtime argument lists.
#[derive(Debug, Clone)]
pub struct Args {
    pub game: Vec<Argument>,
    pub jvm: Vec<Argument>,
}

/// Arguments in list form.
#[derive(Debug, Clone)]
pub struct ModernArgs {
    pub arguments: Args,
}

/// Arguments as one whitespace-separated string of game arguments.
#[derive(Debug, Clone)]
pub struct LegacyArgs {
    pub arguments: String,
}

/// Either form of a descriptor's arguments.
#[derive(Debug, Clone)]
pub enum ArgsContainer {
    Modern(ModernArgs),
    Legacy(LegacyArgs),
}

/// The asset index that a descriptor names.
#[derive(Debug, Clone)]
pub struct AssetIndexResource {
    pub id: String,
    pub sha1: String,
    pub size: u64,
    pub total_size: u64,
    pub url: String,
}

/// A downloadable package.
#[derive(Debug, Clone)]
pub struct Resource {
    pub sha1: String,
    pub size: u64,
    pub url: String,
}

/// The packages of a version.
#[derive(Debug, Clone)]
pub struct PackageDownloads {
    pub client: Resource,
}

/// The runtime component a version asks for.
#[derive(Debug, Clone)]
pub struct JavaVersion {
    pub component: String,
    pub major_version: i32,
}

/// The client logging configuration.
#[derive(Debug, Clone)]
pub struct ClientLogging {
    pub argument: String,
    pub log_type: String,
}

/// Logging configuration.
#[derive(Debug, Clone)]
pub struct Logging {
    pub client: ClientLogging,
}

/// The release channel of a version.
#[derive(Debug, Clone, Copy, PartialEq, Eq, Structural)]
pub enum VersionType {
    Release,
    Snapshot,
    OldBeta,
    OldAlpha,
}

/// A self-contained descriptor.
#[derive(Debug, Clone)]
pub struct RootManifest {
    pub arguments: ArgsContainer,
    pub asset_index: AssetIndexResource,
    pub assets: String,
    pub downloads: PackageDownloads,
    pub id: String,
    pub java_version: JavaVersion,
    pub libraries: Vec<Library>,
    pub logging: Option<Logging>,
    pub main_class: String,
    pub release_time: String,
    pub time: String,
    pub version_type: VersionType,
}

/// A descriptor that extends a parent version.
#[derive(Debug, Clone)]
pub struct InheritedManifest {
    pub inherits_from: String,
    pub arguments: ArgsContainer,
    pub libraries: Vec<Library>,
    pub main_class: String,
    pub release_time: String,
    pub time: String,
    pub version_type: VersionType,
    pub id: String,
}

/// A descriptor of either shape.
#[derive(Debug, Clone)]
pub enum Manifest {
    Root(Box<RootManifest>),
    Inherited(Box<InheritedManifest>),
}

/// One object of an asset index.
#[derive(Debug, Clone)]
pub struct AssetObject {
    pub hash: String,
    pub size: u64,
}

/// An asset index: object names with their objects, in index order.
#[derive(Debug, Clone)]
pub struct AssetIndex {
    pub objects: Vec<(String, AssetObject)>,
}

/// The words of a string, as `str::split_whitespace` yields them.
pub uninterp spec fn words_of(s: Seq<char>) -> Seq<Seq<char>>;

/// Relies on str::split_whitespace: the whitespace-separated words of a
/// string, in order; none for an empty string.
#[verifier::external_body]
fn split_words(s: &str) -> (r: Vec<String>)
    ensures
        texts(r@) == words_of(s@),
        s@.len() == 0 ==> r@.len() == 0,
{
    s.split_whitespace().map(String::from).collect()
}

/// The text of a constant argument.
pub open spec fn constant_text(a: Argument) -> Option<Seq<char>> {
    match a {
        Argument::Constant(s) => Some(s@),
        _ => None,
    }
}

/// `args` are the constant arguments of `words`, in order.
pub open spec fn constants_of(args: Seq<Argument>, words: Seq<Seq<char>>) -> bool {
    &&& args.len() == words.len()
    &&& forall|i: int| 0 <= i < args.len() ==> #[trigger] constant_text(args[i]) == Some(words[i])
}

/// `m` is the list form of `c`: itself, or the words of a legacy string as
/// constant game arguments with no runtime arguments.
pub open spec fn modern_form(c: ArgsContainer, m: ModernArgs) -> bool {
    match c {
        ArgsContainer::Modern(x) => m == x,
        ArgsContainer::Legacy(l) => {
            &&& m.arguments.jvm@.len() == 0
            &&& constants_of(m.arguments.game@, words_of(l.arguments@))
        },
    }
}

/// `r` is the merge of `child` into `parent`: in list form, the child's game
/// and runtime arguments each after the parent's.
pub open spec fn args_merged(parent: ArgsContainer, child: ArgsContainer, r: ArgsContainer) -> bool {
    &&& r is Modern
    &&& exists|a: ModernArgs, b: ModernArgs|
        #![trigger modern_form(parent, a), modern_form(child, b)]
        modern_form(parent, a) && modern_form(child, b) && r->Modern_0.arguments.game@
            == a.arguments.game@ + b.arguments.game@ && r->Modern_0.arguments.jvm@
            == a.arguments.jvm@ + b.arguments.jvm@
}

impl ModernArgs {
    /// The list form of a legacy argument string: its words as constant game
    /// arguments.
    pub fn from_legacy(value: &str) -> (r: ModernArgs)
        ensures
            r.arguments.jvm@.len() == 0,
            constants_of(r.arguments.game@, words_of(value@)),
    {
        let words = split_words(value);
        let mut game: Vec<Argument> = Vec::new();
        let mut i: usize = 0;
        while i < words.len()
            invariant
                i <= words@.len(),
                texts(words@) == words_of(value@),
                constants_of(game@, texts(words@).subrange(0, i as int)),
            decreases words@.len() - i,
        {
            game.push(Argument::Constant(words[i].clone()));
            i += 1;
            assert(constant_text(game@[i - 1]) == Some(texts(words@)[i - 1]));
        }
        assert(texts(words@).subrange(0, i as int) =~= texts(words@));
        ModernArgs { arguments: Args { game, jvm: Vec::new() } }
    }
}

impl ArgsContainer {
    /// The list form of these arguments.
    pub fn into_modern(self) -> (r: ModernArgs)
        ensures
            modern_form(self, r),
    {
        match self {
            ArgsContainer::Modern(it) => it,
            ArgsContainer::Legacy(it) => ModernArgs::from_legacy(it.arguments.as_str()),
        }
    }

    /// Merges `with` into these arguments: the result is in list form, with
    /// the game and runtime arguments of `with` after those of `self`.
    pub fn merge(self, with: ArgsContainer) -> (r: ArgsContainer)
        ensures
            args_merged(self, with, r),
    {
        let mut modern = self.into_modern();
        let mut ext = with.into_modern();
        let ghost a = modern;
        let ghost b = ext;
        modern.arguments.jvm.append(&mut ext.arguments.jvm);
        modern.arguments.game.append(&mut ext.arguments.game);
        let r = ArgsContainer::Modern(modern);
        assert(modern_form(self, a) && modern_form(with, b));
        r
    }
}

/// `r` is `child` merged into `parent`: the child's identity, times and main
/// class; the parent's libraries followed by the child's; merged arguments;
/// the rest from the parent.
pub open spec fn merged_into(child: InheritedManifest, parent: RootManifest, r: RootManifest) -> bool {
    &&& r.id == child.id
    &&& r.time == child.time
    &&& r.release_time == child.release_time
    &&& r.main_class == child.main_class
    &&& r.libraries@ == parent.libraries@ + child.libraries@
    &&& args_merged(parent.arguments, child.arguments, r.arguments)
    &&& r.asset_index == parent.asset_index
    &&& r.assets == parent.assets
    &&& r.downloads == parent.downloads
    &&& r.java_version == parent.java_version
    &&& r.logging == parent.logging
    &&& r.version_type == parent.version_type
}

impl InheritedManifest {
    /// Merges this descriptor into its resolved parent.
    pub fn into_root(self, root: RootManifest) -> (r: RootManifest)
        ensures
            merged_into(self, root, r),
    {
        let ghost parent = root;
        let mut root = root;
        let mut libraries = self.libraries;
        root.id = self.id;
        root.time = self.time;
        root.release_time = self.release_time;
        root.main_class = self.main_class;
        root.arguments = root.arguments.merge(self.arguments);
        root.libraries.append(&mut libraries);
        root
    }
}

impl Manifest {
    /// The parent version that a descriptor extends, if any.
    pub fn inherits_from(&self) -> (r: Option<&String>)
        ensures
            match self {
                Manifest::Root(_) => r is None,
                Manifest::Inherited(m) => r == Some(&m.inherits_from),
            },
    {
        match self {
            Manifest::Root(_) => None,
            Manifest::Inherited(m) => Some(&m.inherits_from),
        }
    }

    /// The self-contained descriptor: a root as it is, an inheriting one
    /// merged into `parent`; `None` for an inheriting one without a parent.
    pub fn into_root(self, parent: Option<RootManifest>) -> (r: Option<RootManifest>)
        ensures
            match self {
                Manifest::Root(m) => r == Some(*m),
                Manifest::Inherited(m) => match parent {
                    None => r is None,
                    Some(p) => r is Some && merged_into(*m, p, r->Some_0),
                },
            },
    {
        match self {
            Manifest::Root(m) => Some(*m),
            Manifest::Inherited(m) => match parent {
                None => None,
                Some(p) => Some((*m).into_root(p)),
            },
        }
    }
}

/// The values an argument contributes: a constant always; a conditional one
/// its value, when all its rules pass with the enabled features.
pub open spec fn argument_values(a: Argument, p: Platform, enabled: Seq<Seq<char>>) -> Seq<Seq<char>> {
    match a {
        Argument::Constant(s) => seq![s@],
        Argument::Conditional { rules, value } => if all_pass_featured(rules@, p, enabled) {
            match value {
                ConditionalArgument::Single(s) => seq![s@],
                ConditionalArgument::List(l) => texts(l@),
            }
        } else {
            seq![]
        },
    }
}

/// The values of a list of arguments, in order.
pub open spec fn arguments_values(args: Seq<Argument>, p: Platform, enabled: Seq<Seq<char>>) -> Seq<Seq<char>>
    decreases args.len(),
{
    if args.len() == 0 {
        seq![]
    } else {
        arguments_values(args.drop_last(), p, enabled) + argument_values(args.last(), p, enabled)
    }
}

/// The features that argument rules are checked against.
pub fn default_features() -> (r: Vec<String>)
    ensures
        texts(r@) == seq!["has_custom_resolution"@],
{
    let r = vec![copy_text("has_custom_resolution")];
    assert(texts(r@) =~= seq!["has_custom_resolution"@]);
    r
}

/// Appends the values of `args` to `to`, in order, each conditional
/// argument gated by its rules on `platform` with `features` enabled.
pub fn process_args(args: &Vec<Argument>, platform: Platform, features: &Vec<String>, to: &mut Vec<String>)
    ensures
        texts(final(to)@) == texts(old(to)@) + arguments_values(args@, platform, texts(features@)),
{
    let ghost start = texts(to@);
    let ghost enabled = texts(features@);
    let mut i: usize = 0;
    while i < args.len()
        invariant
            i <= args@.len(),
            enabled == texts(features@),
            texts(to@) == start + arguments_values(args@.subrange(0, i as int), platform, enabled),
        decreases args@.len() - i,
    {
        let ghost before = texts(to@);
        let ghost prefix = args@.subrange(0, i as int + 1);
        assert(prefix.drop_last() =~= args@.subrange(0, i as int));
        match &args[i] {
            Argument::Constant(s) => {
                to.push(copy_text(s.as_str()));
            },
            Argument::Conditional { rules, value } => {
                if evaluate(rules, platform, features) {
                    match value {
                        ConditionalArgument::Single(s) => {
                            to.push(copy_text(s.as_str()));
                        },
                        ConditionalArgument::List(l) => {
                            let mut j: usize = 0;
                            while j < l.len()
                                invariant
                                    j <= l@.len(),
                                    texts(to@) == before + texts(l@).subrange(0, j as int),
                                decreases l@.len() - j,
                            {
                                let ghost prev = texts(to@);
                                to.push(copy_text(l[j].as_str()));
                                assert(texts(to@) =~= prev.push(l@[j as int]@));
                                assert(texts(l@).subrange(0, j as int + 1) =~= texts(l@).subrange(0, j as int).push(l@[j as int]@));
                                j += 1;
                                assert(texts(to@) =~= before + texts(l@).subrange(0, j as int));
                            }
                            assert(texts(l@).subrange(0, j as int) =~= texts(l@));
                        },
                    }
                }
            },
        }
        assert(texts(to@) =~= before + argument_values(args@[i as int], platform, enabled));
        i += 1;
    }
    assert(args@.subrange(0, i as int) =~= args@);
}

/// Merging an inheriting descriptor into its parent gives the child's id and
/// the parent's libraries followed by the child's.
pub proof fn lemma_merge_law(child: InheritedManifest, parent: RootManifest, r: RootManifest)
    requires
        merged_into(child, parent, r),
    ensures
        r.id == child.id,
        r.libraries@ == parent.libraries@ + child.libraries@,
{
}

} // verus!
