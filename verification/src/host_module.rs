//! The host module builder: assembles a synthetic module description with
//! one named, exported slot per declared capability, each slot carrying
//! its calling-convention signature and its trampoline. Names are unique
//! within a descriptor; declaring two capabilities under one name is an
//! error caught at construction, before any guest interaction.

use vstd::prelude::*;
use crate::abi::AbiWordKind;
use crate::system_api::Trampoline;

verus! {

/// The calling-convention signature of one capability: the word category
/// of each parameter in order, and of the result (`None` for no result).
pub struct CapabilitySignature {
    pub params: Vec<AbiWordKind>,
    pub ret: Option<AbiWordKind>,
}

impl CapabilitySignature {
    /// The signature agrees, arity and categories both, with the one the
    /// trampoline was generated for.
    pub open spec fn matches_trampoline(self, t: Trampoline) -> bool {
        self.params@ == t.params_spec() && self.ret == t.result_spec()
    }
}

/// One exported slot of the host module: a capability name, its
/// signature, and the trampoline the slot points at.
pub struct HostExport {
    pub name: String,
    pub sig: CapabilitySignature,
    pub trampoline: Trampoline,
}

/// A declaration error, caught while the host module is built.
#[derive(Debug)]
pub enum DeclError {
    /// A capability was declared under a name that is already taken; the
    /// conflicting name is carried.
    DuplicateName(String),
    /// A capability's declared signature does not agree with the
    /// trampoline generated for it; the capability's name is carried.
    SignatureMismatch(String),
}

/// Whether some export carries the name.
pub open spec fn has_export_name(exports: Seq<HostExport>, name: Seq<char>) -> bool {
    exists|i: int| 0 <= i < exports.len() && exports[i].name@ == name
}

/// All export names are pairwise distinct.
pub open spec fn export_names_unique(exports: Seq<HostExport>) -> bool {
    forall|i: int, j: int|
        0 <= i < j < exports.len() ==> exports[i].name@ != exports[j].name@
}

/// A synthetic module description: the exported slots, in declaration
/// order, with pairwise distinct names. Built once; not changed after.
pub struct HostModuleDescriptor {
    pub exports: Vec<HostExport>,
}

/// Builds a `HostModuleDescriptor` capability by capability, refusing a
/// duplicate name or a signature that its trampoline was not generated
/// for.
pub struct HostModuleBuilder {
    pub exports: Vec<HostExport>,
}

impl HostModuleBuilder {
    pub fn new() -> (b: HostModuleBuilder)
        ensures
            b.exports@ =~= Seq::<HostExport>::empty(),
    {
        HostModuleBuilder { exports: Vec::new() }
    }

    /// Whether a capability of this name is already declared.
    pub fn contains_name(&self, name: &String) -> (r: bool)
        ensures
            r == has_export_name(self.exports@, name@),
    {
        let n = self.exports.len();
        let mut i: usize = 0;
        while i < n
            invariant
                0 <= i <= n,
                n == self.exports@.len(),
                forall|j: int| 0 <= j < i ==> self.exports@[j].name@ != name@,
            decreases n - i,
        {
            if self.exports[i].name == *name {
                return true;
            }
            i = i + 1;
        }
        false
    }

    /// Declares one capability: its unique name, its signature, and the
    /// trampoline implementing it. Fails, reporting the name, on a
    /// duplicate name or on a signature the trampoline does not carry;
    /// the builder is unchanged on failure.
    pub fn add_capability(&mut self, name: String, sig: CapabilitySignature, trampoline: Trampoline) -> (r:
        Result<(), DeclError>)
        ensures
            match r {
                Ok(()) => {
                    &&& !has_export_name(old(self).exports@, name@)
                    &&& sig.matches_trampoline(trampoline)
                    &&& final(self).exports@ =~= old(self).exports@.push(
                        (HostExport { name, sig, trampoline }),
                    )
                },
                Err(DeclError::DuplicateName(n)) => {
                    &&& n@ == name@
                    &&& has_export_name(old(self).exports@, name@)
                    &&& final(self).exports@ == old(self).exports@
                },
                Err(DeclError::SignatureMismatch(n)) => {
                    &&& n@ == name@
                    &&& !has_export_name(old(self).exports@, name@)
                    &&& !sig.matches_trampoline(trampoline)
                    &&& final(self).exports@ == old(self).exports@
                },
            },
            export_names_unique(old(self).exports@) ==> export_names_unique(final(self).exports@),
    {
        if self.contains_name(&name) {
            return Err(DeclError::DuplicateName(name));
        }
        if !signature_matches(&sig, &trampoline) {
            return Err(DeclError::SignatureMismatch(name));
        }
        proof {
            if export_names_unique(self.exports@) {
                assert forall|i: int, j: int|
                    0 <= i < j < self.exports@.push(
                        (HostExport { name, sig, trampoline }),
                    ).len() implies self.exports@.push((HostExport { name, sig, trampoline }))[i].name@
                    != self.exports@.push((HostExport { name, sig, trampoline }))[j].name@ by {
                    if j < self.exports@.len() {
                    } else {
                        assert(self.exports@[i].name@ != name@);
                    }
                }
            }
        }
        self.exports.push(HostExport { name, sig, trampoline });
        Ok(())
    }

    /// Finishes construction; the descriptor carries the declared slots
    /// in declaration order.
    pub fn build(self) -> (d: HostModuleDescriptor)
        ensures
            d.exports@ == self.exports@,
    {
        HostModuleDescriptor { exports: self.exports }
    }
}

/// Whether two word-category sequences are equal.
pub fn kinds_eq(a: &Vec<AbiWordKind>, b: &Vec<AbiWordKind>) -> (r: bool)
    ensures
        r == (a@ == b@),
{
    if a.len() != b.len() {
        return false;
    }
    let n = a.len();
    let mut i: usize = 0;
    while i < n
        invariant
            0 <= i <= n,
            n == a@.len(),
            a@.len() == b@.len(),
            forall|j: int| 0 <= j < i ==> a@[j] == b@[j],
        decreases n - i,
    {
        if a[i] != b[i] {
            return false;
        }
        i = i + 1;
    }
    proof {
        assert(a@ =~= b@);
    }
    true
}

/// Whether a declared signature agrees with a trampoline's, arity and
/// word categories both.
pub fn signature_matches(sig: &CapabilitySignature, t: &Trampoline) -> (r: bool)
    ensures
        r == sig.matches_trampoline(*t),
{
    let t_params = t.params();
    if !kinds_eq(&sig.params, &t_params) {
        return false;
    }
    let t_ret = t.result();
    match (&sig.ret, &t_ret) {
        (Option::None, Option::None) => true,
        (Option::Some(a), Option::Some(b)) => *a == *b,
        _ => false,
    }
}

} // verus!
