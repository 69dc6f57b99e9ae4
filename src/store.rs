use vstd::prelude::*;

use crate::types::{Content, DrmState, License, Package};

verus! {

/// The records of one deployment that an operation works on: the registry
/// singleton, where it is set up, and records of each kind, each kind keyed by
/// its human identifier.
pub struct Store {
    pub registry: Option<DrmState>,
    pub packages: Vec<Package>,
    pub contents: Vec<Content>,
    pub licenses: Vec<License>,
}

pub open spec fn package_at(s: Seq<Package>, name: Seq<char>, i: int) -> bool {
    0 <= i < s.len() && s[i].package_name@ == name
}

pub open spec fn content_at(s: Seq<Content>, id: Seq<char>, i: int) -> bool {
    0 <= i < s.len() && s[i].content_id@ == id
}

pub open spec fn license_at(s: Seq<License>, id: Seq<char>, i: int) -> bool {
    0 <= i < s.len() && s[i].license_id@ == id
}

pub open spec fn packages_unique(s: Seq<Package>) -> bool {
    forall|i: int, j: int|
        0 <= i < s.len() && 0 <= j < s.len() && #[trigger] s[i].package_name@ == #[trigger] s[j].package_name@
            ==> i == j
}

pub open spec fn contents_unique(s: Seq<Content>) -> bool {
    forall|i: int, j: int|
        0 <= i < s.len() && 0 <= j < s.len() && #[trigger] s[i].content_id@ == #[trigger] s[j].content_id@
            ==> i == j
}

pub open spec fn licenses_unique(s: Seq<License>) -> bool {
    forall|i: int, j: int|
        0 <= i < s.len() && 0 <= j < s.len() && #[trigger] s[i].license_id@ == #[trigger] s[j].license_id@
            ==> i == j
}

impl Store {
    /// Keys are unique per kind and every record keeps its own invariant.
    pub open spec fn wf(&self) -> bool {
        &&& packages_unique(self.packages@)
        &&& contents_unique(self.contents@)
        &&& licenses_unique(self.licenses@)
        &&& forall|i: int| 0 <= i < self.packages@.len() ==> (#[trigger] self.packages@[i]).wf()
        &&& forall|i: int| 0 <= i < self.contents@.len() ==> (#[trigger] self.contents@[i]).wf()
        &&& forall|i: int| 0 <= i < self.licenses@.len() ==> (#[trigger] self.licenses@[i]).wf()
    }

    pub open spec fn has_package(&self, name: Seq<char>) -> bool {
        exists|i: int| package_at(self.packages@, name, i)
    }

    pub open spec fn has_content(&self, id: Seq<char>) -> bool {
        exists|i: int| content_at(self.contents@, id, i)
    }

    pub open spec fn has_license(&self, id: Seq<char>) -> bool {
        exists|i: int| license_at(self.licenses@, id, i)
    }

    /// The position of the package of that name, where there is one.
    pub open spec fn package_index(&self, name: Seq<char>) -> int {
        choose|i: int| package_at(self.packages@, name, i)
    }

    pub open spec fn content_index(&self, id: Seq<char>) -> int {
        choose|i: int| content_at(self.contents@, id, i)
    }

    pub open spec fn license_index(&self, id: Seq<char>) -> int {
        choose|i: int| license_at(self.licenses@, id, i)
    }

    pub open spec fn package(&self, name: Seq<char>) -> Package {
        self.packages@[self.package_index(name)]
    }

    pub open spec fn content(&self, id: Seq<char>) -> Content {
        self.contents@[self.content_index(id)]
    }

    pub open spec fn license(&self, id: Seq<char>) -> License {
        self.licenses@[self.license_index(id)]
    }

    /// A store with no registry and no records.
    pub fn new() -> (r: Store)
        ensures
            r.wf(),
            r.registry.is_none(),
            r.packages@.len() == 0,
            r.contents@.len() == 0,
            r.licenses@.len() == 0,
    {
        Store { registry: None, packages: Vec::new(), contents: Vec::new(), licenses: Vec::new() }
    }

    pub fn find_package(&self, name: &String) -> (r: Option<usize>)
        requires
            self.wf(),
        ensures
            r.is_some() <==> self.has_package(name@),
            r.is_some() ==> r.unwrap() == self.package_index(name@),
    {
        let mut i: usize = 0;
        while i < self.packages.len()
            invariant
                self.wf(),
                0 <= i <= self.packages@.len(),
                forall|j: int| 0 <= j < i ==> !package_at(self.packages@, name@, j),
            decreases self.packages@.len() - i,
        {
            if self.packages[i].package_name == *name {
                proof {
                    assert(package_at(self.packages@, name@, i as int));
                    let k = self.package_index(name@);
                    assert(package_at(self.packages@, name@, k));
                    assert(self.packages@[i as int].package_name@ == self.packages@[k].package_name@);
                }
                return Some(i);
            }
            i = i + 1;
        }
        None
    }

    pub fn find_content(&self, id: &String) -> (r: Option<usize>)
        requires
            self.wf(),
        ensures
            r.is_some() <==> self.has_content(id@),
            r.is_some() ==> r.unwrap() == self.content_index(id@),
    {
        let mut i: usize = 0;
        while i < self.contents.len()
            invariant
                self.wf(),
                0 <= i <= self.contents@.len(),
                forall|j: int| 0 <= j < i ==> !content_at(self.contents@, id@, j),
            decreases self.contents@.len() - i,
        {
            if self.contents[i].content_id == *id {
                proof {
                    assert(content_at(self.contents@, id@, i as int));
                    let k = self.content_index(id@);
                    assert(content_at(self.contents@, id@, k));
                    assert(self.contents@[i as int].content_id@ == self.contents@[k].content_id@);
                }
                return Some(i);
            }
            i = i + 1;
        }
        None
    }

    pub fn find_license(&self, id: &String) -> (r: Option<usize>)
        requires
            self.wf(),
        ensures
            r.is_some() <==> self.has_license(id@),
            r.is_some() ==> r.unwrap() == self.license_index(id@),
    {
        let mut i: usize = 0;
        while i < self.licenses.len()
            invariant
                self.wf(),
                0 <= i <= self.licenses@.len(),
                forall|j: int| 0 <= j < i ==> !license_at(self.licenses@, id@, j),
            decreases self.licenses@.len() - i,
        {
            if self.licenses[i].license_id == *id {
                proof {
                    assert(license_at(self.licenses@, id@, i as int));
                    let k = self.license_index(id@);
                    assert(license_at(self.licenses@, id@, k));
                    assert(self.licenses@[i as int].license_id@ == self.licenses@[k].license_id@);
                }
                return Some(i);
            }
            i = i + 1;
        }
        None
    }
}

} // verus!
