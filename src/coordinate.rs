//! Library coordinates (`group:artifact:version`) and the paths they name.

use vstd::prelude::*;
use crate::text::{push_char, slice_text};

verus! {

/// `i` and `j` are the first two colons of `name`, around a non-empty
/// group, artifact and version.
pub open spec fn splits_at(name: Seq<char>, i: int, j: int) -> bool {
    &&& 0 < i
    &&& i + 1 < j
    &&& j + 1 < name.len()
    &&& name[i] == ':'
    &&& name[j] == ':'
    &&& forall|k: int| 0 <= k < j && k != i ==> name[k] != ':'
}

/// Whether `name` is a well-formed coordinate.
pub open spec fn is_coordinate(name: Seq<char>) -> bool {
    exists|i: int, j: int| splits_at(name, i, j)
}

/// The group of a coordinate, with its dots turned into path separators.
pub open spec fn group_dirs(group: Seq<char>) -> Seq<char> {
    group.map_values(|c: char| if c == '.' { '/' } else { c })
}

/// A coordinate's parts, split at its first two colons.
#[derive(Debug, Clone)]
pub struct ArtifactName {
    pub package: String,
    pub name: String,
    pub version: String,
}

impl ArtifactName {
    /// Whether these are the parts of `s`.
    pub open spec fn parts_of(self, s: Seq<char>) -> bool {
        exists|i: int, j: int|
            #![trigger splits_at(s, i, j)]
            splits_at(s, i, j) && self.package@ == s.subrange(0, i) && self.name@ == s.subrange(
                i + 1,
                j,
            ) && self.version@ == s.subrange(j + 1, s.len() as int)
    }

    /// The directory of the artifact.
    pub open spec fn dir(self) -> Seq<char> {
        dir_of(self.package@, self.name@, self.version@)
    }

    /// The archive of the artifact.
    pub open spec fn jar(self) -> Seq<char> {
        jar_of(self.package@, self.name@, self.version@)
    }

    /// Splits a coordinate into its parts; `None` where it has no non-empty
    /// group, artifact and version around two colons.
    pub fn parse(s: &str) -> (r: Option<ArtifactName>)
        ensures
            r is Some <==> is_coordinate(s@),
            r is Some ==> r->Some_0.parts_of(s@),
    {
        let n = s.unicode_len();
        let mut first: usize = 0;
        while first < n && s.get_char(first) != ':'
            invariant
                n == s@.len(),
                first <= n,
                forall|k: int| 0 <= k < first ==> s@[k] != ':',
            decreases n - first,
        {
            first += 1;
        }
        if first == 0 || first >= n {
            assert forall|i: int, j: int| !splits_at(s@, i, j) by {
                if splits_at(s@, i, j) {
                    if first == 0 {
                        assert(s@[0] == ':');
                    }
                    assert(s@[i] == ':');
                }
            }
            return None;
        }
        let mut second: usize = first + 1;
        while second < n && s.get_char(second) != ':'
            invariant
                n == s@.len(),
                first < second <= n,
                s@[first as int] == ':',
                forall|k: int| 0 <= k < first ==> s@[k] != ':',
                forall|k: int| first < k < second ==> s@[k] != ':',
            decreases n - second,
        {
            second += 1;
        }
        if second == first + 1 || second >= n || second + 1 >= n {
            assert forall|i: int, j: int| !splits_at(s@, i, j) by {
                if splits_at(s@, i, j) {
                    if i < first {
                        assert(s@[i] == ':');
                    } else if i > first {
                        assert(s@[first as int] == ':');
                    } else if j < second {
                        assert(s@[j] == ':');
                    } else if j > second {
                        assert(s@[second as int] == ':');
                    }
                }
            }
            return None;
        }
        let r = ArtifactName {
            package: slice_text(s, 0, first),
            name: slice_text(s, first + 1, second),
            version: slice_text(s, second + 1, n),
        };
        assert(splits_at(s@, first as int, second as int));
        Some(r)
    }

    /// The directory of the artifact.
    pub fn to_path(&self) -> (r: String)
        ensures
            r@ == self.dir(),
    {
        let mut r = String::new();
        let n = self.package.unicode_len();
        let mut i: usize = 0;
        while i < n
            invariant
                n == self.package@.len(),
                i <= n,
                r@ == group_dirs(self.package@.subrange(0, i as int)),
            decreases n - i,
        {
            let c = self.package.as_str().get_char(i);
            push_char(&mut r, if c == '.' { '/' } else { c });
            i += 1;
            assert(r@ =~= group_dirs(self.package@.subrange(0, i as int)));
        }
        assert(self.package@.subrange(0, n as int) =~= self.package@);
        push_char(&mut r, '/');
        let r = r.concat(self.name.as_str());
        let mut r = r;
        push_char(&mut r, '/');
        let r = r.concat(self.version.as_str());
        assert(r@ =~= self.dir());
        r
    }

    /// The archive of the artifact.
    pub fn to_jar_path(&self) -> (r: String)
        ensures
            r@ == self.jar(),
    {
        let mut r = self.to_path();
        push_char(&mut r, '/');
        let mut r = r.concat(self.name.as_str());
        push_char(&mut r, '-');
        let mut r = r.concat(self.version.as_str());
        push_char(&mut r, '.');
        push_char(&mut r, 'j');
        push_char(&mut r, 'a');
        push_char(&mut r, 'r');
        assert(r@ =~= self.jar());
        r
    }
}

/// The directory `group/dirs/artifact/version`.
pub open spec fn dir_of(package: Seq<char>, name: Seq<char>, version: Seq<char>) -> Seq<char> {
    group_dirs(package).push('/') + name + seq!['/'] + version
}

/// The archive `group/dirs/artifact/version/artifact-version.jar`.
pub open spec fn jar_of(package: Seq<char>, name: Seq<char>, version: Seq<char>) -> Seq<char> {
    dir_of(package, name, version).push('/') + name + seq!['-'] + version + seq!['.', 'j', 'a', 'r']
}

/// The archive path that a coordinate names, if it is well-formed.
pub open spec fn coordinate_jar(s: Seq<char>) -> Option<Seq<char>> {
    if is_coordinate(s) {
        let (i, j) = choose|i: int, j: int| splits_at(s, i, j);
        Some(jar_of(s.subrange(0, i), s.subrange(i + 1, j), s.subrange(j + 1, s.len() as int)))
    } else {
        None
    }
}

/// A coordinate splits in one way only.
pub proof fn lemma_split_unique(s: Seq<char>, i: int, j: int, i2: int, j2: int)
    requires
        splits_at(s, i, j),
        splits_at(s, i2, j2),
    ensures
        i == i2 && j == j2,
{
    if i < i2 {
        assert(s[i] == ':');
    } else if i2 < i {
        assert(s[i2] == ':');
    }
    if j < j2 {
        assert(s[j] == ':');
    } else if j2 < j {
        assert(s[j2] == ':');
    }
}

/// The archive path of a library coordinate; `None` where the coordinate is
/// malformed.
pub fn libname_to_path(name: &str) -> (r: Option<String>)
    ensures
        match r {
            Some(p) => coordinate_jar(name@) == Some(p@),
            None => coordinate_jar(name@) is None,
        },
{
    match ArtifactName::parse(name) {
        None => None,
        Some(a) => {
            let p = a.to_jar_path();
            proof {
                let (i, j) = choose|i: int, j: int|
                    #![trigger splits_at(name@, i, j)]
                    splits_at(name@, i, j) && a.package@ == name@.subrange(0, i) && a.name@
                        == name@.subrange(i + 1, j) && a.version@ == name@.subrange(
                        j + 1,
                        name@.len() as int,
                    );
                let (i2, j2) = choose|i: int, j: int| splits_at(name@, i, j);
                lemma_split_unique(name@, i, j, i2, j2);
            }
            Some(p)
        },
    }
}

} // verus!
