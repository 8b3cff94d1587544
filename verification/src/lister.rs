//! Listing installed toolchains and classifying which one is active.
//!
//! Which tag is active is decided by filesystem identity, not by a stored
//! name: the shell hands in, for every installed tag, the identity of its
//! binary (the inode number on POSIX; the byte length elsewhere, an
//! explicitly weaker heuristic), together with the identity of the active
//! link's target.  An entry is active exactly when both identities are known
//! and equal.

use vstd::prelude::*;
use vstd::string::*;

verus! {

/// One installed tag with the observed identity of its binary, `None` when
/// the binary is missing or unreadable.
pub struct InstalledEntry {
    pub tag: String,
    pub file_id: Option<u64>,
}

/// The mathematical image of an `InstalledEntry`.
pub struct SpecInstalledEntry {
    pub tag: Seq<char>,
    pub file_id: Option<u64>,
}

impl View for InstalledEntry {
    type V = SpecInstalledEntry;

    open spec fn view(&self) -> SpecInstalledEntry {
        SpecInstalledEntry { tag: self.tag@, file_id: self.file_id }
    }
}

/// One line of the listing: a tag and whether it is the active one.
pub struct ListedToolchain {
    pub tag: String,
    pub active: bool,
}

/// Whether an entry counts as active against the active link's identity:
/// both identities are known and equal.
pub open spec fn spec_is_active(e: SpecInstalledEntry, active_id: Option<u64>) -> bool {
    match (active_id, e.file_id) {
        (Some(a), Some(b)) => a == b,
        _ => false,
    }
}

/// Produces the listing: every entry in order, each marked active exactly
/// when its identity equals the active link's.  An empty store yields an
/// empty listing, never an error.
pub fn list_status(entries: &Vec<InstalledEntry>, active_id: Option<u64>) -> (r: Vec<
    ListedToolchain,
>)
    ensures
        r@.len() == entries@.len(),
        forall|i: int|
            0 <= i < entries@.len() ==> r@[i].tag@ == entries@[i]@.tag && r@[i].active
                == spec_is_active(entries@[i]@, active_id),
{
    let mut out: Vec<ListedToolchain> = Vec::new();
    let mut idx: usize = 0;
    while idx < entries.len()
        invariant
            idx <= entries@.len(),
            out@.len() == idx,
            forall|i: int|
                0 <= i < idx ==> out@[i].tag@ == entries@[i]@.tag && out@[i].active
                    == spec_is_active(entries@[i]@, active_id),
        decreases entries@.len() - idx,
    {
        let e = &entries[idx];
        let active = match (active_id, e.file_id) {
            (Some(a), Some(b)) => a == b,
            _ => false,
        };
        out.push(ListedToolchain { tag: e.tag.clone(), active });
        idx += 1;
    }
    out
}

/// Activation identity: when the installed binaries have pairwise-distinct
/// known identities and the active link's identity is that of entry `k` —
/// as holds right after a successful activation of entry `k`'s tag — the
/// listing marks exactly one entry active, and it is entry `k`.
pub proof fn lemma_activation_identity(entries: Seq<SpecInstalledEntry>, k: int)
    requires
        0 <= k < entries.len(),
        entries[k].file_id is Some,
        forall|i: int, j: int|
            0 <= i < entries.len() && 0 <= j < entries.len() && i != j && entries[i].file_id
                is Some ==> entries[i].file_id != entries[j].file_id,
    ensures
        forall|i: int|
            0 <= i < entries.len() ==> (spec_is_active(entries[i], entries[k].file_id) <==> i
                == k),
{
    assert forall|i: int| 0 <= i < entries.len() implies (spec_is_active(
        entries[i],
        entries[k].file_id,
    ) <==> i == k) by {
        if i != k && spec_is_active(entries[i], entries[k].file_id) {
            assert(entries[i].file_id is Some);
            assert(entries[i].file_id != entries[k].file_id);
            assert(false);
        }
    }
}

} // verus!
