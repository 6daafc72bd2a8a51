//! The logical version that tags compiled artifacts.
//!
//! An artifact is usable only under the logical version it was compiled
//! under: two versions are compatible exactly when they are equal.

use vstd::prelude::*;
use vstd::string::StringExecFns;

verus! {

/// Tag in front of the runtime's version.
pub const RUNTIME_PREFIX: &'static str = "wasmtime_v";

/// Tag in front of the node's version.
pub const NODE_PREFIX: &'static str = "polkadot_v";

/// Version of the node that this library is built into.
pub const NODE_VERSION: &'static str = "1.10.0";

/// The logical version for a runtime version and a node version:
/// `wasmtime_v<runtime>_polkadot_v<node>`.
pub open spec fn logical_version_of(runtime_version: Seq<char>, node_version: Seq<char>) -> Seq<
    char,
> {
    "wasmtime_v"@ + runtime_version + "_"@ + "polkadot_v"@ + node_version
}

/// Returns the logical version for the given runtime and node versions.
///
/// Both versions come from the top-level binary, which knows what it was
/// built from; nothing here is compiled in.
pub fn logical_version(runtime_version: &str, node_version: &str) -> (version: String)
    ensures
        version@ == logical_version_of(runtime_version@, node_version@),
{
    let mut version: String = String::from_str(RUNTIME_PREFIX);
    version.append(runtime_version);
    version.append("_");
    version.append(NODE_PREFIX);
    version.append(node_version);
    version
}

/// Returns the logical PVF version. This is the version used when
/// version-checking PVF artifacts and in the node-worker version check.
///
/// `runtime_version` is compiled in at the call site, in the top-level crate,
/// and passed down from there.
pub fn logical_node_version(runtime_version: &str) -> (version: String)
    ensures
        version@ == logical_version_of(runtime_version@, NODE_VERSION@),
{
    logical_version(runtime_version, NODE_VERSION)
}

/// Whether an artifact stored under `stored` may be used under `current`:
/// only where the two are the same version.
pub fn is_compatible(stored: &str, current: &str) -> (same: bool)
    ensures
        same == (stored@ == current@),
{
    let stored_owned: String = String::from_str(stored);
    let current_owned: String = String::from_str(current);
    stored_owned == current_owned
}

/// The logical version is made of its two inputs and nothing else: two
/// calls with the same versions return the same text.
pub proof fn lemma_same_versions_same_tag(
    first: String,
    second: String,
    runtime_version: Seq<char>,
    node_version: Seq<char>,
)
    requires
        first@ == logical_version_of(runtime_version, node_version),
        second@ == logical_version_of(runtime_version, node_version),
    ensures
        first@ == second@,
{
}

/// Under one node version, different runtime versions give different
/// logical versions.
pub proof fn lemma_runtime_version_distinguishes(
    runtime_a: Seq<char>,
    runtime_b: Seq<char>,
    node_version: Seq<char>,
)
    requires
        runtime_a != runtime_b,
    ensures
        logical_version_of(runtime_a, node_version) != logical_version_of(runtime_b, node_version),
{
    let a = logical_version_of(runtime_a, node_version);
    let b = logical_version_of(runtime_b, node_version);
    if a == b {
        let lead = "wasmtime_v"@.len() as int;
        assert(a.len() == b.len());
        assert(runtime_a.len() == runtime_b.len());
        assert(a.subrange(lead, lead + runtime_a.len()) =~= runtime_a);
        assert(b.subrange(lead, lead + runtime_b.len()) =~= runtime_b);
    }
}

/// Under one runtime version, different node versions give different
/// logical versions.
pub proof fn lemma_node_version_distinguishes(
    runtime_version: Seq<char>,
    node_a: Seq<char>,
    node_b: Seq<char>,
)
    requires
        node_a != node_b,
    ensures
        logical_version_of(runtime_version, node_a) != logical_version_of(runtime_version, node_b),
{
    let a = logical_version_of(runtime_version, node_a);
    let b = logical_version_of(runtime_version, node_b);
    if a == b {
        let lead = ("wasmtime_v"@ + runtime_version + "_"@ + "polkadot_v"@).len() as int;
        assert(a.skip(lead) =~= node_a);
        assert(b.skip(lead) =~= node_b);
    }
}

/// Whether `version` holds an underscore.
pub open spec fn has_underscore(version: Seq<char>) -> bool {
    exists|i: int| 0 <= i < version.len() && version[i] == '_'
}

/// Where no runtime version holds an underscore, as in `1.2.3`, two logical
/// versions are equal only if both the runtime versions and the node
/// versions are.
pub proof fn lemma_logical_version_injective(
    runtime_a: Seq<char>,
    node_a: Seq<char>,
    runtime_b: Seq<char>,
    node_b: Seq<char>,
)
    requires
        !has_underscore(runtime_a),
        !has_underscore(runtime_b),
        logical_version_of(runtime_a, node_a) == logical_version_of(runtime_b, node_b),
    ensures
        runtime_a == runtime_b,
        node_a == node_b,
{
    reveal_strlit("wasmtime_v");
    reveal_strlit("_");
    let a = logical_version_of(runtime_a, node_a);
    let b = logical_version_of(runtime_b, node_b);
    let lead = 10int;
    if runtime_a.len() < runtime_b.len() {
        assert(a[lead + runtime_a.len()] == '_');
        assert(b[lead + runtime_a.len()] == runtime_b[runtime_a.len() as int]);
        assert(false);
    }
    if runtime_b.len() < runtime_a.len() {
        assert(b[lead + runtime_b.len()] == '_');
        assert(a[lead + runtime_b.len()] == runtime_a[runtime_b.len() as int]);
        assert(false);
    }
    assert(a.subrange(lead, lead + runtime_a.len()) =~= runtime_a);
    assert(b.subrange(lead, lead + runtime_b.len()) =~= runtime_b);
    if node_a != node_b {
        lemma_node_version_distinguishes(runtime_a, node_a, node_b);
    }
}

} // verus!
