//! The version list that the remote metadata service publishes.

use vstd::prelude::*;
use crate::text::text_eq;

verus! {

/// The newest release and snapshot ids.
#[derive(Debug, Clone)]
pub struct Latest {
    pub release: String,
    pub snapshot: String,
}

/// One listed version and where its descriptor is.
#[derive(Debug, Clone)]
pub struct Version {
    pub id: String,
    pub version_type: String,
    pub url: String,
    pub sha1: String,
}

/// The version list.
#[derive(Debug, Clone)]
pub struct Versions {
    pub latest: Latest,
    pub versions: Vec<Version>,
}

/// `i` is the first listed version with id `id`.
pub open spec fn first_with_id(s: Seq<Version>, id: Seq<char>, i: int) -> bool {
    &&& 0 <= i < s.len()
    &&& s[i].id@ == id
    &&& forall|j: int| 0 <= j < i ==> s[j].id@ != id
}

impl Versions {
    /// The first listed version with id `id`; `None` where none is listed.
    pub fn find(&self, id: &str) -> (r: Option<&Version>)
        ensures
            match r {
                Some(v) => exists|i: int| first_with_id(self.versions@, id@, i) && *v == self.versions@[i],
                None => forall|i: int| 0 <= i < self.versions@.len() ==> self.versions@[i].id@ != id@,
            },
    {
        let mut i: usize = 0;
        while i < self.versions.len()
            invariant
                i <= self.versions@.len(),
                forall|j: int| 0 <= j < i ==> self.versions@[j].id@ != id@,
            decreases self.versions@.len() - i,
        {
            if text_eq(self.versions[i].id.as_str(), id) {
                assert(first_with_id(self.versions@, id@, i as int));
                return Some(&self.versions[i]);
            }
            i += 1;
        }
        None
    }

    /// The ids of all listed versions, in list order.
    pub fn ids(&self) -> (r: Vec<String>)
        ensures
            r@.len() == self.versions@.len(),
            forall|i: int| 0 <= i < r@.len() ==> r@[i]@ == self.versions@[i].id@,
    {
        let mut r: Vec<String> = Vec::new();
        let mut i: usize = 0;
        while i < self.versions.len()
            invariant
                i <= self.versions@.len(),
                r@.len() == i,
                forall|k: int| 0 <= k < i ==> r@[k]@ == self.versions@[k].id@,
            decreases self.versions@.len() - i,
        {
            r.push(crate::text::copy_text(self.versions[i].id.as_str()));
            i += 1;
        }
        r
    }
}

} // verus!
