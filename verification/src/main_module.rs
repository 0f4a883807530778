//! The entry-module resolver.

use vstd::prelude::*;
use crate::identity::ModuleIdentity;
use crate::permissions::Decision;
use crate::permissions::PermissionAuthority;

verus! {

/// What resolution returns, as a pure function of the identity and the
/// authority's standing decision: for a non-local scheme the string form of
/// the identity, with no check; for the local-file scheme the native path on
/// a grant, and the denial reason, unchanged, on a denial.
pub open spec fn resolution_of(identity: ModuleIdentity, decision: Decision) -> Result<
    Seq<char>,
    Seq<char>,
> {
    if identity.is_local() {
        match decision {
            Decision::Grant => Ok(identity.spec_native_path()),
            Decision::Deny { reason } => Err(reason@),
        }
    } else {
        Ok(identity.spec_serialized())
    }
}

/// The view of a resolver result: both sides as character sequences.
pub open spec fn resolution_view(r: Result<String, String>) -> Result<Seq<char>, Seq<char>> {
    match r {
        Ok(s) => Ok(s@),
        Err(e) => Err(e@),
    }
}

/// Resolve the entry-module identity.
///
/// A local-file identity is disclosed only after asking `authority` for a
/// blind read of its native path, tagged with the logical operation name and
/// the symbol the embedding script calls this through; a denial is forwarded
/// verbatim as the error. Any other identity is returned in string form with
/// the authority left untouched: it carries no local-filesystem disclosure
/// risk. The authority is consulted at most once per call — exactly once for
/// a local-file identity — and its standing decision is never changed, so
/// resolving again under the same decision returns the same value.
pub fn resolve_main_module(identity: &ModuleIdentity, authority: &mut PermissionAuthority) -> (r:
    Result<String, String>)
    ensures
        resolution_view(r) == resolution_of(*identity, old(authority).spec_decision()),
        final(authority).spec_decision() == old(authority).spec_decision(),
        !identity.is_local() ==> final(authority).spec_requests() == old(authority).spec_requests(),
        identity.is_local() ==> {
            &&& final(authority).spec_requests().len() == old(authority).spec_requests().len() + 1
            &&& forall|i: int|
                0 <= i < old(authority).spec_requests().len()
                    ==> final(authority).spec_requests()[i] == old(authority).spec_requests()[i]
            &&& final(authority).spec_requests().last().path@ == identity.spec_native_path()
            &&& final(authority).spec_requests().last().subject@ == "main_module"@
            &&& final(authority).spec_requests().last().symbol@ == "Deno.mainModule"@
        },
{
    match identity {
        ModuleIdentity::LocalFile { serialized: _, native_path } => {
            let checked = authority.check_read_blind(native_path, "main_module", "Deno.mainModule");
            match checked {
                Ok(()) => Ok(native_path.clone()),
                Err(reason) => Err(reason),
            }
        },
        ModuleIdentity::Remote { serialized } => Ok(serialized.clone()),
    }
}

} // verus!
