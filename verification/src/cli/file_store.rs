//! Files loaded by the command line tool, addressed by a stable index.

use vstd::prelude::*;

use std::path::PathBuf;

verus! {

#[derive(Copy, Clone, PartialEq, Eq, Debug, Structural)]
pub enum FileKind {
    Schema,
    Operation,
}

/// Struct that holds files loaded by CLI.
/// Schema files come first, then operation files; a file's index is its place in that order.
#[derive(Debug)]
pub struct FileStore {
    schema_files: Vec<(PathBuf, String, FileKind)>,
    operation_files: Vec<(PathBuf, String, FileKind)>,
}

impl View for FileStore {
    type V = Seq<(PathBuf, String, FileKind)>;

    /// All files in index order.
    closed spec fn view(&self) -> Seq<(PathBuf, String, FileKind)> {
        self.schema_files@ + self.operation_files@
    }
}

impl FileStore {
    /// Schema files hold schema kinds and operation files operation kinds.
    #[verifier::type_invariant]
    spec fn kinds_in_place(&self) -> bool {
        &&& forall|i: int|
            0 <= i < self.schema_files@.len() ==> (#[trigger] self.schema_files@[i]).2
                == FileKind::Schema
        &&& forall|i: int|
            0 <= i < self.operation_files@.len() ==> (#[trigger] self.operation_files@[i]).2
                == FileKind::Operation
    }

    /// Number of schema files.
    pub closed spec fn spec_schema_len(&self) -> nat {
        self.schema_files@.len()
    }

    /// Whether an operation file has been added.
    pub closed spec fn has_operations(&self) -> bool {
        self.operation_files@.len() > 0
    }

    /// The file at an index, if any.
    pub open spec fn spec_get(&self, index: int) -> Option<(PathBuf, String, FileKind)> {
        if 0 <= index < self@.len() {
            Some(self@[index])
        } else {
            None
        }
    }

    /// Create a new file store.
    pub fn new() -> (r: Self)
        ensures
            r@.len() == 0,
            r.spec_schema_len() == 0,
            !r.has_operations(),
    {
        Self { schema_files: vec![], operation_files: vec![] }
    }

    /// Add a file to the store.
    /// Returns the index of the file in the store.
    /// Once the index is issued, it will not change.
    /// After an operation is added, schema cannot be added.
    pub fn add_file(&mut self, path: PathBuf, content: String, kind: FileKind) -> (r: usize)
        requires
            !(old(self).has_operations() && kind == FileKind::Schema),
            old(self)@.len() < usize::MAX,
        ensures
            r == old(self)@.len(),
            final(self)@ == old(self)@.push((path, content, kind)),
            final(self).spec_schema_len() == old(self).spec_schema_len() + (if kind
                == FileKind::Schema {
                1int
            } else {
                0int
            }),
            final(self).has_operations() == (old(self).has_operations() || kind
                == FileKind::Operation),
    {
        proof {
            use_type_invariant(&*self);
        }
        let schema_len = self.schema_files.len();
        match kind {
            FileKind::Schema => {
                let mut files = Vec::new();
                std::mem::swap(&mut files, &mut self.schema_files);
                files.push((path, content, kind));
                std::mem::swap(&mut files, &mut self.schema_files);
                assert(self@ =~= old(self)@.push((path, content, kind)));
                schema_len
            },
            FileKind::Operation => {
                let mut files = Vec::new();
                std::mem::swap(&mut files, &mut self.operation_files);
                files.push((path, content, kind));
                std::mem::swap(&mut files, &mut self.operation_files);
                assert(self@ =~= old(self)@.push((path, content, kind)));
                schema_len + self.operation_files.len() - 1
            },
        }
    }

    /// Get a file by index.
    pub fn get_file(&self, index: usize) -> (r: Option<&(PathBuf, String, FileKind)>)
        ensures
            match r {
                Some(f) => self.spec_get(index as int) == Some(*f),
                None => self.spec_get(index as int) is None,
            },
            r matches Some(f) ==> (f.2 == FileKind::Schema <==> index < self.spec_schema_len()),
    {
        proof {
            use_type_invariant(self);
        }
        let n = self.schema_files.len();
        if index < n {
            Some(&self.schema_files[index])
        } else if index - n < self.operation_files.len() {
            Some(&self.operation_files[index - n])
        } else {
            None
        }
    }

    /// All files with their indices, in index order.
    pub fn iter(&self) -> (r: Vec<(usize, &(PathBuf, String, FileKind))>)
        ensures
            r@.len() == self@.len(),
            forall|i: int| 0 <= i < r@.len() ==> ((#[trigger] r@[i]).1.2 == FileKind::Schema
                <==> i < self.spec_schema_len()),
            forall|i: int| #![trigger r@[i]] 0 <= i < r@.len() ==> r@[i].0 == i && *r@[i].1 == self@[i],
    {
        let mut r: Vec<(usize, &(PathBuf, String, FileKind))> = Vec::new();
        let ghost all = self@;
        assert(all =~= self.schema_files@ + self.operation_files@);
        let n = self.schema_files.len();
        let m = self.operation_files.len();
        let mut i: usize = 0;
        while i < n
            invariant
                i <= n,
                n == self.schema_files@.len(),
                all == self.schema_files@ + self.operation_files@,
                r@.len() == i,
                forall|j: int| #![trigger r@[j]] 0 <= j < r@.len() ==> r@[j].0 == j && *r@[j].1 == all[j],
            decreases n - i,
        {
            assert(all[i as int] == self.schema_files@[i as int]);
            r.push((i, &self.schema_files[i]));
            i += 1;
        }
        let mut k: usize = 0;
        while k < m
            invariant
                k <= m,
                n == self.schema_files@.len(),
                m == self.operation_files@.len(),
                all == self.schema_files@ + self.operation_files@,
                r@.len() == n + k,
                forall|j: int| #![trigger r@[j]] 0 <= j < r@.len() ==> r@[j].0 == j && *r@[j].1 == all[j],
            decreases m - k,
        {
            assert(all[n + k] == self.operation_files@[k as int]);
            let idx = r.len();
            r.push((idx, &self.operation_files[k]));
            k += 1;
        }
        proof {
            use_type_invariant(self);
        }
        assert forall|j: int| 0 <= j < r@.len() implies ((#[trigger] r@[j]).1.2 == FileKind::Schema
            <==> j < self.spec_schema_len()) by {
            assert(*r@[j].1 == all[j]);
            if j < n {
                assert(all[j] == self.schema_files@[j]);
            } else {
                assert(all[j] == self.operation_files@[j - n]);
            }
        }
        r
    }

    /// Returns the number of schema files in the store.
    /// Schema files come first: a file is a schema file exactly when its index is below
    /// this number.
    pub fn schema_len(&self) -> (r: usize)
        ensures
            r == self.spec_schema_len(),
            r <= self@.len(),
            forall|i: int| 0 <= i < self@.len() ==> ((#[trigger] self@[i]).2 == FileKind::Schema <==> i < r),
    {
        proof {
            use_type_invariant(self);
            assert forall|i: int| 0 <= i < self@.len() implies ((#[trigger] self@[i]).2 == FileKind::Schema
                <==> i < self.schema_files@.len()) by {
                if i < self.schema_files@.len() {
                    assert(self@[i] == self.schema_files@[i]);
                } else {
                    assert(self@[i] == self.operation_files@[i - self.schema_files@.len()]);
                }
            }
        }
        self.schema_files.len()
    }

    /// The file at an index, which must be in range.
    pub fn index(&self, index: usize) -> (r: &(PathBuf, String, FileKind))
        requires
            index < self@.len(),
        ensures
            *r == self@[index as int],
    {
        match self.get_file(index) {
            Some(f) => f,
            None => {
                assert(false);
                &self.schema_files[0]
            },
        }
    }
}

/// Once a file's index is issued it does not change: after a file is added, it is found at
/// the index that adding it returned, and every file added before is still found at its
/// own index.
pub proof fn law_index_stable(
    before: FileStore,
    after: FileStore,
    file: (PathBuf, String, FileKind),
    index: int,
)
    requires
        after@ == before@.push(file),
        0 <= index < before@.len(),
    ensures
        after.spec_get(before@.len() as int) == Some(file),
        after.spec_get(index) == before.spec_get(index),
{
}

} // verus!
