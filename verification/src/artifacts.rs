//! The host's record of compiled artifacts.
//!
//! An artifact is kept under the hash of the source it was compiled from
//! and the logical version it was compiled under. It is usable only under
//! exactly that version: under any other it counts as absent, and the
//! source is compiled again.

use crate::version::is_compatible;
use vstd::prelude::*;

verus! {

/// One compiled artifact.
#[derive(Debug)]
pub struct Artifact {
    /// Hash of the source bytes.
    pub code_hash: u64,
    /// The logical version that the artifact was compiled under.
    pub version: String,
    /// The compiled bytes.
    pub bytes: Vec<u8>,
}

/// The artifacts that the host holds, at most one for each source hash and
/// version.
#[derive(Debug)]
pub struct ArtifactCache {
    entries: Vec<Artifact>,
}

/// Index of the first entry at or after `from` for the given hash and
/// version, or the length of `entries` if there is none.
pub open spec fn index_of(
    entries: Seq<Artifact>,
    code_hash: u64,
    version: Seq<char>,
    from: int,
) -> int
    decreases entries.len() - from,
{
    if from < 0 || from >= entries.len() {
        entries.len() as int
    } else if entries[from].code_hash == code_hash && entries[from].version@ == version {
        from
    } else {
        index_of(entries, code_hash, version, from + 1)
    }
}

/// What the list holds for a hash and a version: the bytes of the first
/// entry for them.
pub open spec fn held(entries: Seq<Artifact>, code_hash: u64, version: Seq<char>) -> Option<
    Seq<u8>,
> {
    let i = index_of(entries, code_hash, version, 0);
    if i < entries.len() {
        Some(entries[i].bytes@)
    } else {
        None
    }
}

proof fn lemma_index_of_bounds(
    entries: Seq<Artifact>,
    code_hash: u64,
    version: Seq<char>,
    from: int,
)
    requires
        0 <= from <= entries.len(),
    ensures
        from <= index_of(entries, code_hash, version, from) <= entries.len(),
        index_of(entries, code_hash, version, from) < entries.len() ==> ({
            let found = entries[index_of(entries, code_hash, version, from)];
            found.code_hash == code_hash && found.version@ == version
        }),
    decreases entries.len() - from,
{
    if from < entries.len() && !(entries[from].code_hash == code_hash && entries[from].version@
        == version) {
        lemma_index_of_bounds(entries, code_hash, version, from + 1);
    }
}

/// Two lists with the same hashes and versions at the same places find the
/// same index.
proof fn lemma_index_of_same_keys(
    a: Seq<Artifact>,
    b: Seq<Artifact>,
    code_hash: u64,
    version: Seq<char>,
    from: int,
)
    requires
        0 <= from <= a.len(),
        a.len() == b.len(),
        forall|k: int|
            0 <= k < a.len() ==> a[k].code_hash == b[k].code_hash && a[k].version@ == b[k].version@,
    ensures
        index_of(a, code_hash, version, from) == index_of(b, code_hash, version, from),
    decreases a.len() - from,
{
    if from < a.len() && !(a[from].code_hash == code_hash && a[from].version@ == version) {
        lemma_index_of_same_keys(a, b, code_hash, version, from + 1);
    }
}

/// What one more entry at the end does to a search.
proof fn lemma_index_of_push(
    entries: Seq<Artifact>,
    added: Artifact,
    code_hash: u64,
    version: Seq<char>,
    from: int,
)
    requires
        0 <= from <= entries.len(),
    ensures
        index_of(entries, code_hash, version, from) < entries.len() ==> index_of(
            entries.push(added),
            code_hash,
            version,
            from,
        ) == index_of(entries, code_hash, version, from),
        index_of(entries, code_hash, version, from) == entries.len() ==> index_of(
            entries.push(added),
            code_hash,
            version,
            from,
        ) == (if added.code_hash == code_hash && added.version@ == version {
            entries.len() as int
        } else {
            entries.len() as int + 1
        }),
    decreases entries.len() - from,
{
    let longer = entries.push(added);
    if from < entries.len() {
        assert(longer[from] == entries[from]);
        if !(entries[from].code_hash == code_hash && entries[from].version@ == version) {
            lemma_index_of_push(entries, added, code_hash, version, from + 1);
        }
    } else {
        assert(longer[from] == added);
        reveal_with_fuel(index_of, 3);
    }
}

impl ArtifactCache {
    /// The compiled bytes that are held for a source hash under a version.
    pub closed spec fn get(&self, code_hash: u64, version: Seq<char>) -> Option<Seq<u8>> {
        held(self.entries@, code_hash, version)
    }

    /// A cache that holds nothing.
    pub fn new() -> (cache: ArtifactCache)
        ensures
            forall|h: u64, v: Seq<char>| cache.get(h, v).is_none(),
    {
        ArtifactCache { entries: Vec::new() }
    }

    /// Position of the entry for a hash and a version, or the number of
    /// entries.
    fn position(&self, code_hash: u64, version: &str) -> (i: usize)
        ensures
            i == index_of(self.entries@, code_hash, version@, 0),
            i <= self.entries@.len(),
    {
        let mut i: usize = 0;
        while i < self.entries.len()
            invariant
                i <= self.entries@.len(),
                index_of(self.entries@, code_hash, version@, i as int) == index_of(
                    self.entries@,
                    code_hash,
                    version@,
                    0,
                ),
            decreases self.entries@.len() - i,
        {
            if self.entries[i].code_hash == code_hash && is_compatible(
                self.entries[i].version.as_str(),
                version,
            ) {
                return i;
            }
            i += 1;
        }
        i
    }

    /// The artifact for a source hash under a version, if one is held.
    pub fn lookup(&self, code_hash: u64, version: &str) -> (found: Option<&Vec<u8>>)
        ensures
            found.is_some() == self.get(code_hash, version@).is_some(),
            found.is_some() ==> found.unwrap()@ == self.get(code_hash, version@).unwrap(),
    {
        let i: usize = self.position(code_hash, version);
        if i < self.entries.len() {
            Some(&self.entries[i].bytes)
        } else {
            None
        }
    }

    /// Whether an artifact for the hash is held under `version`.
    pub fn contains(&self, code_hash: u64, version: &str) -> (yes: bool)
        ensures
            yes == self.get(code_hash, version@).is_some(),
    {
        self.position(code_hash, version) < self.entries.len()
    }

    /// Records the artifact compiled from the source with the given hash
    /// under `version`. It takes the place of what was held for that hash
    /// and version; everything else stays.
    pub fn store(&mut self, code_hash: u64, version: String, bytes: Vec<u8>)
        ensures
            final(self).get(code_hash, version@) == Some(bytes@),
            forall|h: u64, v: Seq<char>|
                !(h == code_hash && v == version@) ==> final(self).get(h, v) == old(self).get(h, v),
    {
        let i: usize = self.position(code_hash, version.as_str());
        let ghost before = self.entries@;
        let added = Artifact { code_hash, version, bytes };
        proof {
            lemma_index_of_bounds(before, code_hash, version@, 0);
        }
        if i < self.entries.len() {
            self.entries.set(i, added);
            proof {
                let after = self.entries@;
                assert forall|h: u64, v: Seq<char>| true implies index_of(after, h, v, 0)
                    == index_of(before, h, v, 0) by {
                    lemma_index_of_same_keys(before, after, h, v, 0);
                }
                assert forall|h: u64, v: Seq<char>| !(h == code_hash && v == version@) implies held(
                    after,
                    h,
                    v,
                ) == held(before, h, v) by {
                    lemma_index_of_bounds(before, h, v, 0);
                }
            }
        } else {
            self.entries.push(added);
            proof {
                let after = self.entries@;
                assert forall|h: u64, v: Seq<char>| !(h == code_hash && v == version@) implies held(
                    after,
                    h,
                    v,
                ) == held(before, h, v) by {
                    lemma_index_of_push(before, added, h, v, 0);
                    lemma_index_of_bounds(before, h, v, 0);
                }
                lemma_index_of_push(before, added, code_hash, version@, 0);
            }
        }
    }

    /// Drops every artifact that was compiled under another version than
    /// `current`; what is held under `current` stays.
    pub fn prune(&mut self, current: &str)
        ensures
            forall|h: u64, v: Seq<char>|
                final(self).get(h, v) == if v == current@ {
                    old(self).get(h, v)
                } else {
                    None
                },
    {
        let mut kept: Vec<Artifact> = Vec::new();
        let ghost before = self.entries@;
        assert(kept@ + self.entries@ =~= before);
        while self.entries.len() > 0
            invariant
                forall|h: u64| held(kept@ + self.entries@, h, current@) == held(before, h, current@),
                forall|k: int| 0 <= k < kept@.len() ==> (#[trigger] kept@[k]).version@ == current@,
            decreases self.entries@.len(),
        {
            let ghost rest_before = self.entries@;
            let ghost kept_before = kept@;
            let entry: Artifact = self.entries.remove(0);
            let keep: bool = is_compatible(entry.version.as_str(), current);
            if keep {
                kept.push(entry);
            }
            proof {
                let one = seq![entry];
                assert(rest_before =~= one + self.entries@);
                assert(kept_before + rest_before =~= (kept_before + one) + self.entries@);
                if keep {
                    assert(kept@ =~= kept_before + one);
                } else {
                    assert forall|h: u64| held(kept@ + self.entries@, h, current@) == held(
                        before,
                        h,
                        current@,
                    ) by {
                        lemma_held_other_version(one, h, current@, entry.version@);
                        lemma_held_concat(one, self.entries@, h, current@);
                        lemma_held_concat(kept_before, rest_before, h, current@);
                        lemma_held_concat(kept_before, self.entries@, h, current@);
                    }
                }
            }
        }
        proof {
            assert(kept@ + self.entries@ =~= kept@);
            assert forall|h: u64, v: Seq<char>| v != current@ implies held(kept@, h, v).is_none() by {
                lemma_held_other_version(kept@, h, v, current@);
            }
        }
        self.entries = kept;
    }
}

/// What two lists hold together: what the first holds, and what the
/// second holds where the first holds nothing.
proof fn lemma_held_concat(a: Seq<Artifact>, b: Seq<Artifact>, code_hash: u64, version: Seq<char>)
    ensures
        held(a + b, code_hash, version) == if held(a, code_hash, version).is_some() {
            held(a, code_hash, version)
        } else {
            held(b, code_hash, version)
        },
{
    lemma_index_of_concat(a, b, code_hash, version, 0);
    lemma_index_of_bounds(a, code_hash, version, 0);
    lemma_index_of_bounds(b, code_hash, version, 0);
    let i = index_of(a, code_hash, version, 0);
    if i < a.len() {
        assert((a + b)[i] == a[i]);
    } else {
        let j = index_of(b, code_hash, version, 0);
        if j < b.len() {
            assert((a + b)[a.len() + j] == b[j]);
        }
    }
}

proof fn lemma_index_of_concat(
    a: Seq<Artifact>,
    b: Seq<Artifact>,
    code_hash: u64,
    version: Seq<char>,
    from: int,
)
    requires
        0 <= from <= a.len(),
    ensures
        index_of(a + b, code_hash, version, from) == if index_of(a, code_hash, version, from)
            < a.len() {
            index_of(a, code_hash, version, from)
        } else {
            a.len() + index_of(b, code_hash, version, 0)
        },
    decreases a.len() - from,
{
    if from < a.len() {
        assert((a + b)[from] == a[from]);
        if !(a[from].code_hash == code_hash && a[from].version@ == version) {
            lemma_index_of_concat(a, b, code_hash, version, from + 1);
        }
    } else {
        lemma_index_of_shift(a, b, code_hash, version, 0);
    }
}

proof fn lemma_index_of_shift(
    a: Seq<Artifact>,
    b: Seq<Artifact>,
    code_hash: u64,
    version: Seq<char>,
    from: int,
)
    requires
        0 <= from <= b.len(),
    ensures
        index_of(a + b, code_hash, version, a.len() + from) == a.len() + index_of(
            b,
            code_hash,
            version,
            from,
        ),
    decreases b.len() - from,
{
    if from < b.len() {
        assert((a + b)[a.len() + from] == b[from]);
        if !(b[from].code_hash == code_hash && b[from].version@ == version) {
            lemma_index_of_shift(a, b, code_hash, version, from + 1);
        }
    }
}

/// A list whose entries are all of one version holds nothing under
/// another.
proof fn lemma_held_other_version(
    entries: Seq<Artifact>,
    code_hash: u64,
    version: Seq<char>,
    only: Seq<char>,
)
    requires
        forall|k: int| 0 <= k < entries.len() ==> (#[trigger] entries[k]).version@ == only,
        version != only,
    ensures
        held(entries, code_hash, version).is_none(),
{
    lemma_index_of_bounds(entries, code_hash, version, 0);
}

} // verus!
