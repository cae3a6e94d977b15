//! Module-address resolution: a pure lookup of a symbolic module identifier
//! in a table of known modules. The table is a snapshot of ledger state that
//! the caller supplies, resolved once per build and passed down.

use vstd::prelude::*;
use crate::types::{BuildError, ObjectId};

verus! {

/// One known module: its symbolic identifier and its on-ledger object.
pub struct ModuleEntry {
    /// The symbolic module identifier, as raw bytes.
    pub ident: Vec<u8>,
    /// The object the identifier currently names on the ledger.
    pub id: ObjectId,
}

/// The table of module identifiers known at build time.
pub struct ModuleRegistry {
    /// Entries in lookup order; the first match wins.
    pub entries: Vec<ModuleEntry>,
}

impl ModuleRegistry {
    /// Every entry names a well-formed object.
    pub open spec fn wf(&self) -> bool {
        forall|i: int| 0 <= i < self.entries@.len() ==> (#[trigger] self.entries@[i]).id.wf()
    }
}

/// What resolution returns: the object identifier named by the first entry whose
/// identifier equals `ident`, if any.
pub open spec fn spec_resolve(entries: Seq<ModuleEntry>, ident: Seq<u8>) -> Option<Seq<u8>>
    decreases entries.len(),
{
    if entries.len() == 0 {
        None
    } else if entries[0].ident@ == ident {
        Some(entries[0].id@)
    } else {
        spec_resolve(entries.skip(1), ident)
    }
}

/// Byte-for-byte comparison of two byte vectors.
#[verifier::loop_isolation(false)]
fn bytes_eq(a: &Vec<u8>, b: &Vec<u8>) -> (r: bool)
    ensures
        r <==> a@ == b@,
{
    if a.len() != b.len() {
        return false;
    }
    let n = a.len();
    let mut i: usize = 0;
    while i < n
        invariant
            i <= n,
            forall|j: int| 0 <= j < i ==> a@[j] == b@[j],
        decreases n - i,
    {
        if a[i] != b[i] {
            return false;
        }
        i = i + 1;
    }
    proof {
        assert(a@ =~= b@);
    }
    true
}

/// Looks the module identifier up in the registry. Returns the first entry's
/// object exactly when the identifier is present, and `ModuleNotFound`
/// exactly when it is not. The result is a function of the registry and the
/// identifier alone.
#[verifier::loop_isolation(false)]
pub fn resolve_module(registry: &ModuleRegistry, ident: &Vec<u8>) -> (r: Result<
    ObjectId,
    BuildError,
>)
    requires
        registry.wf(),
    ensures
        (spec_resolve(registry.entries@, ident@) matches Some(idb) ==> (r matches Ok(o) && o@
            == idb && o.wf())),
        spec_resolve(registry.entries@, ident@) is None ==> r == Err::<ObjectId, BuildError>(
            BuildError::ModuleNotFound,
        ),
{
    let n = registry.entries.len();
    let mut i: usize = 0;
    proof {
        assert(registry.entries@.skip(0) =~= registry.entries@);
    }
    while i < n
        invariant
            i <= n,
            spec_resolve(registry.entries@, ident@) == spec_resolve(
                registry.entries@.skip(i as int),
                ident@,
            ),
        decreases n - i,
    {
        if bytes_eq(&registry.entries[i].ident, ident) {
            proof {
                assert(registry.entries@.skip(i as int)[0] == registry.entries@[i as int]);
            }
            return Ok(registry.entries[i].id.clone());
        }
        proof {
            assert(registry.entries@.skip(i as int).skip(1) =~= registry.entries@.skip(
                i as int + 1,
            ));
        }
        i = i + 1;
    }
    Err(BuildError::ModuleNotFound)
}

/// Idempotent resolution: looking the same identifier up in the same registry
/// state twice gives the same answer — resolution is a function of registry
/// state and identifier, with no other input.
pub proof fn lemma_resolution_idempotent(
    entries: Seq<ModuleEntry>,
    ident: Seq<u8>,
    r1: Option<Seq<u8>>,
    r2: Option<Seq<u8>>,
)
    requires
        r1 == spec_resolve(entries, ident),
        r2 == spec_resolve(entries, ident),
    ensures
        r1 == r2,
{
}

} // verus!
