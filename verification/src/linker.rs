//! The import resolver: matches a guest module's declared imports, each a
//! (namespace, name) pair, against the host module's exported slots. The
//! host module is offered to the resolver under a registration namespace;
//! matching is over a flat namespace of qualified keys, a namespace and a
//! name joined by an underscore — the import's key against each slot's
//! qualified name, exact and case-sensitive, with no wildcard and no
//! fallback. Resolution is all-or-nothing: one unresolved import fails
//! the whole linkage, reporting that import, and the resolved table keeps
//! the guest's declared import order.

use vstd::prelude::*;
use vstd::string::StringExecFns;
use crate::host_module::{HostExport, HostModuleDescriptor, has_export_name};
use crate::system_api::Trampoline;

verus! {

/// One import a guest module declares: a namespace and a name, read
/// before instantiation and not retained after resolution.
pub struct GuestImportRequest {
    pub namespace: String,
    pub name: String,
}

/// The qualified key of a (namespace, name) pair in the flat matching
/// namespace: the two joined by an underscore. Guest modules compiled
/// against this convention link by exactly this concatenation.
pub open spec fn qualified_spec(ns: Seq<char>, name: Seq<char>) -> Seq<char> {
    ns + "_"@ + name
}

/// Forms the qualified key of a (namespace, name) pair.
pub fn qualified_name(namespace: &String, name: &String) -> (r: String)
    ensures
        r@ == qualified_spec(namespace@, name@),
{
    let mut s = namespace.clone();
    s.append("_");
    s.append(name.as_str());
    s
}

/// The first exported slot whose qualified name under `host_ns` equals
/// `key`, or `None`. Export names are unique in a well-built descriptor,
/// so the first match is the only one.
pub open spec fn find_qualified(exports: Seq<HostExport>, host_ns: Seq<char>, key: Seq<char>) -> Option<
    HostExport,
>
    decreases exports.len(),
{
    if exports.len() == 0 {
        None
    } else if qualified_spec(host_ns, exports[0].name@) == key {
        Some(exports[0])
    } else {
        find_qualified(exports.drop_first(), host_ns, key)
    }
}

/// Whether some exported slot's qualified name under `host_ns` is `key`.
pub open spec fn has_qualified_export(
    exports: Seq<HostExport>,
    host_ns: Seq<char>,
    key: Seq<char>,
) -> bool {
    exists|i: int| 0 <= i < exports.len() && qualified_spec(host_ns, exports[i].name@) == key
}

/// Looks up an exported slot of the host module, registered under
/// `host_namespace`, by a qualified key.
pub fn lookup_export_slot<'a>(
    host: &'a HostModuleDescriptor,
    host_namespace: &String,
    key: &String,
) -> (r: Option<&'a HostExport>)
    ensures
        match r {
            Some(e) => find_qualified(host.exports@, host_namespace@, key@) == Some(*e),
            None => find_qualified(host.exports@, host_namespace@, key@) is None,
        },
{
    let n = host.exports.len();
    let mut i: usize = 0;
    proof {
        assert(host.exports@.skip(0) =~= host.exports@);
    }
    while i < n
        invariant
            0 <= i <= n,
            n == host.exports@.len(),
            find_qualified(host.exports@, host_namespace@, key@) == find_qualified(
                host.exports@.skip(i as int),
                host_namespace@,
                key@,
            ),
        decreases n - i,
    {
        proof {
            assert(host.exports@.skip(i as int)[0] == host.exports@[i as int]);
        }
        let slot_key = qualified_name(host_namespace, &host.exports[i].name);
        if slot_key == *key {
            return Some(&host.exports[i]);
        }
        proof {
            assert(host.exports@.skip(i as int).drop_first() =~= host.exports@.skip(i as int + 1));
        }
        i = i + 1;
    }
    proof {
        assert(host.exports@.skip(n as int) =~= Seq::<HostExport>::empty());
    }
    None
}

/// A qualified key is found exactly when some exported slot carries it:
/// first-match lookup misses nothing.
pub proof fn lemma_find_qualified_iff_has(exports: Seq<HostExport>, host_ns: Seq<char>, key: Seq<char>)
    ensures
        find_qualified(exports, host_ns, key) is Some <==> has_qualified_export(
            exports,
            host_ns,
            key,
        ),
    decreases exports.len(),
{
    if exports.len() == 0 {
    } else if qualified_spec(host_ns, exports[0].name@) == key {
        assert(qualified_spec(host_ns, exports[0].name@) == key);
    } else {
        lemma_find_qualified_iff_has(exports.drop_first(), host_ns, key);
        if has_qualified_export(exports.drop_first(), host_ns, key) {
            let i = choose|i: int|
                0 <= i < exports.drop_first().len() && qualified_spec(
                    host_ns,
                    exports.drop_first()[i].name@,
                ) == key;
            assert(qualified_spec(host_ns, exports[i + 1].name@) == key);
        }
        if has_qualified_export(exports, host_ns, key) {
            let i = choose|i: int|
                0 <= i < exports.len() && qualified_spec(host_ns, exports[i].name@) == key;
            if i > 0 {
                assert(qualified_spec(host_ns, exports.drop_first()[i - 1].name@) == key);
            }
        }
    }
}

/// Qualification with one namespace is injective in the slot name: two
/// slots collide on a qualified key only by carrying the same name.
pub proof fn lemma_qualified_injective(ns: Seq<char>, a: Seq<char>, b: Seq<char>)
    requires
        qualified_spec(ns, a) == qualified_spec(ns, b),
    ensures
        a == b,
{
    let p = ns + "_"@;
    assert((p + a).len() == (p + b).len());
    assert forall|k: int| 0 <= k < a.len() implies a[k] == b[k] by {
        assert((p + a)[p.len() + k] == a[k]);
        assert((p + b)[p.len() + k] == b[k]);
    }
    assert(a =~= b);
}

/// Resolution against a descriptor with pairwise distinct slot names is
/// free of ambiguity: a qualified key matches at most one slot, so the
/// first match is the only one.
pub proof fn lemma_resolution_deterministic(
    exports: Seq<HostExport>,
    host_ns: Seq<char>,
    i: int,
    j: int,
)
    requires
        crate::host_module::export_names_unique(exports),
        0 <= i < exports.len(),
        0 <= j < exports.len(),
        qualified_spec(host_ns, exports[i].name@) == qualified_spec(host_ns, exports[j].name@),
    ensures
        i == j,
{
    lemma_qualified_injective(host_ns, exports[i].name@, exports[j].name@);
}

/// Whether every import's qualified key has a matching slot in the host
/// module registered under `host_ns`.
pub open spec fn all_imports_resolvable(
    requests: Seq<GuestImportRequest>,
    host_ns: Seq<char>,
    exports: Seq<HostExport>,
) -> bool {
    forall|i: int|
        0 <= i < requests.len() ==> find_qualified(
            exports,
            host_ns,
            qualified_spec(requests[i].namespace@, requests[i].name@),
        ) is Some
}

/// Linkage is owed to succeed for a guest whose imports are a subset of
/// the declared capabilities: when every import names the host's
/// registration namespace and a capability some exported slot carries,
/// every import resolves.
pub proof fn lemma_linkage_total(
    requests: Seq<GuestImportRequest>,
    host_ns: Seq<char>,
    exports: Seq<HostExport>,
)
    requires
        forall|i: int|
            0 <= i < requests.len() ==> requests[i].namespace@ == host_ns && has_export_name(
                exports,
                requests[i].name@,
            ),
    ensures
        all_imports_resolvable(requests, host_ns, exports),
{
    assert forall|i: int|
        0 <= i < requests.len() implies find_qualified(
        exports,
        host_ns,
        qualified_spec(requests[i].namespace@, requests[i].name@),
    ) is Some by {
        let key = qualified_spec(requests[i].namespace@, requests[i].name@);
        let j = choose|j: int| 0 <= j < exports.len() && exports[j].name@ == requests[i].name@;
        assert(qualified_spec(host_ns, exports[j].name@) == key);
        lemma_find_qualified_iff_has(exports, host_ns, key);
    }
}

/// A linkage failure: an import with no matching host export, reported
/// with the offending namespace and name. No partial linkage is ever
/// produced.
#[derive(Debug)]
pub enum LinkError {
    UnresolvedImport { namespace: String, name: String },
}

/// Resolves a guest's declared imports against the host module
/// registered under `host_namespace`, producing the table of trampoline
/// addresses in the guest's import order. Succeeds exactly when every
/// import resolves; otherwise fails on the first unresolved import,
/// reporting its namespace and name — imports that do resolve never
/// appear as failures.
pub fn resolve_imports(
    requests: &Vec<GuestImportRequest>,
    host_namespace: &String,
    host: &HostModuleDescriptor,
) -> (r: Result<Vec<Trampoline>, LinkError>)
    ensures
        r is Ok <==> all_imports_resolvable(requests@, host_namespace@, host.exports@),
        match r {
            Ok(table) => {
                &&& table@.len() == requests@.len()
                &&& forall|i: int|
                    0 <= i < requests@.len() ==> (find_qualified(
                        host.exports@,
                        host_namespace@,
                        qualified_spec(requests@[i].namespace@, requests@[i].name@),
                    ) matches Some(e) && #[trigger] table@[i] == e.trampoline)
            },
            Err(LinkError::UnresolvedImport { namespace: ns, name: n }) => exists|i: int|
                0 <= i < requests@.len() && ns@ == requests@[i].namespace@ && n@
                    == requests@[i].name@ && find_qualified(
                    host.exports@,
                    host_namespace@,
                    qualified_spec(requests@[i].namespace@, requests@[i].name@),
                ) is None && (forall|j: int|
                    0 <= j < i ==> find_qualified(
                        host.exports@,
                        host_namespace@,
                        qualified_spec(requests@[j].namespace@, requests@[j].name@),
                    ) is Some),
        },
{
    let n = requests.len();
    let mut table: Vec<Trampoline> = Vec::new();
    let mut i: usize = 0;
    while i < n
        invariant
            0 <= i <= n,
            n == requests@.len(),
            table@.len() == i,
            forall|j: int|
                0 <= j < i ==> (find_qualified(
                    host.exports@,
                    host_namespace@,
                    qualified_spec(requests@[j].namespace@, requests@[j].name@),
                ) matches Some(e) && #[trigger] table@[j] == e.trampoline),
        decreases n - i,
    {
        let key = qualified_name(&requests[i].namespace, &requests[i].name);
        match lookup_export_slot(host, host_namespace, &key) {
            Some(e) => {
                table.push(e.trampoline);
            },
            None => {
                let ghost wi = i as int;
                let ns = requests[i].namespace.clone();
                let nm = requests[i].name.clone();
                proof {
                    assert forall|j: int| 0 <= j < wi implies find_qualified(
                        host.exports@,
                        host_namespace@,
                        qualified_spec(requests@[j].namespace@, requests@[j].name@),
                    ) is Some by {
                        assert((find_qualified(
                            host.exports@,
                            host_namespace@,
                            qualified_spec(requests@[j].namespace@, requests@[j].name@),
                        ) matches Some(e) && table@[j] == e.trampoline));
                    }
                    assert(0 <= wi < requests@.len() && ns@ == requests@[wi].namespace@ && nm@
                        == requests@[wi].name@ && find_qualified(
                        host.exports@,
                        host_namespace@,
                        qualified_spec(requests@[wi].namespace@, requests@[wi].name@),
                    ) is None && (forall|j: int|
                        0 <= j < wi ==> find_qualified(
                            host.exports@,
                            host_namespace@,
                            qualified_spec(requests@[j].namespace@, requests@[j].name@),
                        ) is Some));
                }
                return Err(LinkError::UnresolvedImport { namespace: ns, name: nm });
            },
        }
        i = i + 1;
    }
    proof {
        assert forall|k: int| 0 <= k < requests@.len() implies find_qualified(
            host.exports@,
            host_namespace@,
            qualified_spec(requests@[k].namespace@, requests@[k].name@),
        ) is Some by {
            assert((find_qualified(
                host.exports@,
                host_namespace@,
                qualified_spec(requests@[k].namespace@, requests@[k].name@),
            ) matches Some(e) && table@[k] == e.trampoline));
        }
    }
    Ok(table)
}

/// One candidate export set offered to the resolver: a host module and
/// the namespace it is registered under.
pub struct RegisteredModule {
    pub namespace: String,
    pub module: HostModuleDescriptor,
}

/// The first slot matching `key` across the candidate sets, taken in
/// the embedder's candidate order: the first matching set wins, and
/// within a set the first matching slot.
pub open spec fn find_among(candidates: Seq<RegisteredModule>, key: Seq<char>) -> Option<
    HostExport,
>
    decreases candidates.len(),
{
    if candidates.len() == 0 {
        None
    } else {
        match find_qualified(candidates[0].module.exports@, candidates[0].namespace@, key) {
            Some(e) => Some(e),
            None => find_among(candidates.drop_first(), key),
        }
    }
}

/// Looks a qualified key up across the candidate sets, first matching
/// set first.
pub fn lookup_among<'a>(candidates: &'a Vec<RegisteredModule>, key: &String) -> (r: Option<
    &'a HostExport,
>)
    ensures
        match r {
            Some(e) => find_among(candidates@, key@) == Some(*e),
            None => find_among(candidates@, key@) is None,
        },
{
    let n = candidates.len();
    let mut i: usize = 0;
    proof {
        assert(candidates@.skip(0) =~= candidates@);
    }
    while i < n
        invariant
            0 <= i <= n,
            n == candidates@.len(),
            find_among(candidates@, key@) == find_among(candidates@.skip(i as int), key@),
        decreases n - i,
    {
        proof {
            assert(candidates@.skip(i as int)[0] == candidates@[i as int]);
        }
        match lookup_export_slot(&candidates[i].module, &candidates[i].namespace, key) {
            Some(e) => {
                return Some(e);
            },
            None => {},
        }
        proof {
            assert(candidates@.skip(i as int).drop_first() =~= candidates@.skip(i as int + 1));
        }
        i = i + 1;
    }
    proof {
        assert(candidates@.skip(n as int) =~= Seq::<RegisteredModule>::empty());
    }
    None
}

/// Whether every import's qualified key matches some candidate set.
pub open spec fn all_imports_resolvable_among(
    requests: Seq<GuestImportRequest>,
    candidates: Seq<RegisteredModule>,
) -> bool {
    forall|i: int|
        0 <= i < requests.len() ==> find_among(
            candidates,
            qualified_spec(requests[i].namespace@, requests[i].name@),
        ) is Some
}

/// Resolves a guest's declared imports against several candidate export
/// sets, in the embedder's candidate order: a request that several sets
/// could satisfy takes the first matching set. As with a single set,
/// resolution is all-or-nothing and keeps the guest's import order.
pub fn resolve_imports_among(
    requests: &Vec<GuestImportRequest>,
    candidates: &Vec<RegisteredModule>,
) -> (r: Result<Vec<Trampoline>, LinkError>)
    ensures
        r is Ok <==> all_imports_resolvable_among(requests@, candidates@),
        match r {
            Ok(table) => {
                &&& table@.len() == requests@.len()
                &&& forall|i: int|
                    0 <= i < requests@.len() ==> (find_among(
                        candidates@,
                        qualified_spec(requests@[i].namespace@, requests@[i].name@),
                    ) matches Some(e) && #[trigger] table@[i] == e.trampoline)
            },
            Err(LinkError::UnresolvedImport { namespace: ns, name: n }) => exists|i: int|
                0 <= i < requests@.len() && ns@ == requests@[i].namespace@ && n@
                    == requests@[i].name@ && find_among(
                    candidates@,
                    qualified_spec(requests@[i].namespace@, requests@[i].name@),
                ) is None,
        },
{
    let n = requests.len();
    let mut table: Vec<Trampoline> = Vec::new();
    let mut i: usize = 0;
    while i < n
        invariant
            0 <= i <= n,
            n == requests@.len(),
            table@.len() == i,
            forall|j: int|
                0 <= j < i ==> (find_among(
                    candidates@,
                    qualified_spec(requests@[j].namespace@, requests@[j].name@),
                ) matches Some(e) && #[trigger] table@[j] == e.trampoline),
        decreases n - i,
    {
        let key = qualified_name(&requests[i].namespace, &requests[i].name);
        match lookup_among(candidates, &key) {
            Some(e) => {
                table.push(e.trampoline);
            },
            None => {
                let ghost wi = i as int;
                let ns = requests[i].namespace.clone();
                let nm = requests[i].name.clone();
                proof {
                    assert(0 <= wi < requests@.len() && ns@ == requests@[wi].namespace@ && nm@
                        == requests@[wi].name@ && find_among(
                        candidates@,
                        qualified_spec(requests@[wi].namespace@, requests@[wi].name@),
                    ) is None);
                }
                return Err(LinkError::UnresolvedImport { namespace: ns, name: nm });
            },
        }
        i = i + 1;
    }
    proof {
        assert forall|k: int| 0 <= k < requests@.len() implies find_among(
            candidates@,
            qualified_spec(requests@[k].namespace@, requests@[k].name@),
        ) is Some by {
            assert((find_among(
                candidates@,
                qualified_spec(requests@[k].namespace@, requests@[k].name@),
            ) matches Some(e) && table@[k] == e.trampoline));
        }
    }
    Ok(table)
}

} // verus!
