//! File locations, modelled as plain text.
//!
//! A platform path either is representable as native text (and the store
//! works with exactly that text) or it is not, in which case every
//! operation fails fast with [`crate::JsonStoreError::PathNotValid`]
//! before any filesystem access. The conversion from a platform path type
//! into this model is the caller's concern.

use vstd::prelude::*;

verus! {

use vstd::string::StrSliceExecFns;
use vstd::string::StringExecFns;

/// A file location handed to the store.
#[derive(Debug)]
pub enum StorePath {
    /// A path that the platform can represent as text.
    Native(String),
    /// A path with no valid textual representation; rejected before any
    /// filesystem access.
    NotRepresentable,
}

impl StorePath {
    /// Whether the path has a textual representation.
    pub open spec fn is_native(self) -> bool {
        self is Native
    }

    /// The textual representation of a native path.
    pub open spec fn spec_text(self) -> Seq<char> {
        self->0@
    }
}

/// The fixed name of the backup file written beside a corrupt data file.
pub open spec fn spec_backup_file_name() -> Seq<char> {
    "backup.json"@
}

/// The index just after the last `/` of `p`, or `0` if `p` holds none:
/// everything before it is the directory part of the path.
pub open spec fn spec_dir_cut(p: Seq<char>) -> int
    decreases p.len(),
{
    if p.len() == 0 {
        0
    } else if p[p.len() - 1] == '/' {
        p.len() as int
    } else {
        spec_dir_cut(p.drop_last())
    }
}

/// The sibling location where a backup of a corrupt file is placed: the
/// directory part of `p` followed by the fixed backup file name.
pub open spec fn spec_backup_path(p: Seq<char>) -> Seq<char> {
    p.subrange(0, spec_dir_cut(p)) + spec_backup_file_name()
}

proof fn lemma_dir_cut_bounds(p: Seq<char>)
    ensures
        0 <= spec_dir_cut(p) <= p.len(),
    decreases p.len(),
{
    if p.len() != 0 && p[p.len() - 1] != '/' {
        lemma_dir_cut_bounds(p.drop_last());
    }
}

/// The sibling path that a backup of a corrupt file is copied to:
/// the file name of `path` is replaced by `backup.json`, keeping the
/// directory part (everything up to and including the last `/`).
pub fn backup_path_for(path: &str) -> (r: String)
    ensures
        r@ == spec_backup_path(path@),
{
    let n: usize = path.unicode_len();
    let mut cut: usize = 0;
    let mut i: usize = 0;
    proof {
        assert(path@.subrange(0, 0) =~= Seq::<char>::empty());
    }
    while i < n
        invariant
            n == path@.len(),
            0 <= cut <= i <= n,
            cut as int == spec_dir_cut(path@.subrange(0, i as int)),
        decreases n - i,
    {
        proof {
            assert(path@.subrange(0, i + 1).drop_last() =~= path@.subrange(0, i as int));
        }
        if path.get_char(i) == '/' {
            cut = i + 1;
        }
        i += 1;
    }
    proof {
        assert(path@.subrange(0, n as int) =~= path@);
        lemma_dir_cut_bounds(path@);
    }
    let prefix = path.substring_char(0, cut);
    let mut r = prefix.to_owned();
    r.append("backup.json");
    r
}

} // verus!
