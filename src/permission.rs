use vstd::prelude::*;

use crate::error::Error;

verus! {

/// The capabilities that a permission grants.
#[derive(Debug, Clone, Copy, PartialEq, Eq, Structural)]
pub enum PermissionName {
    /// Administer the whole project.
    Administrate,
    /// Edit one sequence.
    EditSeq,
    /// Edit one section of a sequence.
    EditSeqSec,
}

/// The capability called `name`, if any is.
pub open spec fn named_permission(name: Seq<char>) -> Option<PermissionName> {
    if name == "Administrate"@ {
        Some(PermissionName::Administrate)
    } else if name == "EditSeq"@ {
        Some(PermissionName::EditSeq)
    } else if name == "EditSeqSec"@ {
        Some(PermissionName::EditSeqSec)
    } else {
        None
    }
}

impl PermissionName {
    /// Reads a capability from its name; an unknown name fails with
    /// `InvalidPermissionName`.
    pub fn from_name(name: &str) -> (r: Result<PermissionName, Error>)
        ensures
            r is Ok <==> named_permission(name@) is Some,
            r matches Ok(p) ==> named_permission(name@) == Some(p),
            r matches Err(e) ==> e matches Error::InvalidPermissionName(n) && n@ == name@,
    {
        let given = String::from_str(name);
        if given == String::from_str("Administrate") {
            Ok(PermissionName::Administrate)
        } else if given == String::from_str("EditSeq") {
            Ok(PermissionName::EditSeq)
        } else if given == String::from_str("EditSeqSec") {
            Ok(PermissionName::EditSeqSec)
        } else {
            Err(Error::InvalidPermissionName(given))
        }
    }
}

/// How far a permission reaches within its project.
#[derive(Debug, Clone, Copy, PartialEq, Eq, Structural)]
pub enum PermissionScope {
    Project,
    Sequence(u32),
    Section(u32, u32),
}

/// A grant of one capability to one user, within a scope of a project.
#[derive(Debug, Clone, Copy, PartialEq, Eq, Structural)]
pub struct Permission {
    pub uid: u32,
    pub name: PermissionName,
    pub scope: PermissionScope,
}

/// Whether a request for `name` must name a sequence or a section.
pub open spec fn needs_scope(name: PermissionName) -> bool {
    name != PermissionName::Administrate
}

/// Whether the scope arguments of a request are incomplete: a needed scope
/// with neither id, or a section without its sequence.
pub open spec fn arg_missing(name: PermissionName, seqid: Option<u32>, secid: Option<u32>) -> bool {
    (needs_scope(name) && seqid is None && secid is None) || (secid is Some && seqid is None)
}

/// Whether a grant of `scope` applies to a request for `seqid` / `secid`.
pub open spec fn covers(scope: PermissionScope, seqid: Option<u32>, secid: Option<u32>) -> bool {
    match scope {
        PermissionScope::Project => true,
        PermissionScope::Sequence(s) => seqid == Some(s),
        PermissionScope::Section(s, c) => seqid == Some(s) && secid == Some(c),
    }
}

/// How specific a scope is: a section over a sequence over the project.
pub open spec fn specificity(scope: PermissionScope) -> nat {
    match scope {
        PermissionScope::Project => 0,
        PermissionScope::Sequence(_) => 1,
        PermissionScope::Section(_, _) => 2,
    }
}

/// Whether `grant` gives `uid` the capability `name` for the request.
pub open spec fn grant_applies(
    grant: Permission,
    name: PermissionName,
    uid: u32,
    seqid: Option<u32>,
    secid: Option<u32>,
) -> bool {
    grant.uid == uid && grant.name == name && covers(grant.scope, seqid, secid)
}

/// Whether some grant of `grants` applies to the request.
pub open spec fn authorized(
    grants: Seq<Permission>,
    name: PermissionName,
    uid: u32,
    seqid: Option<u32>,
    secid: Option<u32>,
) -> bool {
    exists|i: int| 0 <= i < grants.len() && grant_applies(#[trigger] grants[i], name, uid, seqid, secid)
}

/// The outcome of resolving a request against `grants`.
pub open spec fn resolution(
    grants: Seq<Permission>,
    name: PermissionName,
    uid: u32,
    seqid: Option<u32>,
    secid: Option<u32>,
) -> Result<(), Error> {
    if arg_missing(name, seqid, secid) {
        Err(Error::MissingPermissionArg)
    } else if authorized(grants, name, uid, seqid, secid) {
        Ok(())
    } else {
        Err(Error::UnauthorizedAction)
    }
}

/// The numeric rank of `scope`, as `specificity` states it.
fn scope_rank(scope: PermissionScope) -> (r: u8)
    ensures
        r as nat == specificity(scope),
{
    match scope {
        PermissionScope::Project => 0,
        PermissionScope::Sequence(_) => 1,
        PermissionScope::Section(_, _) => 2,
    }
}

/// Whether a grant of `scope` applies to a request for `seqid` / `secid`.
pub fn scope_covers(scope: PermissionScope, seqid: Option<u32>, secid: Option<u32>) -> (r: bool)
    ensures
        r == covers(scope, seqid, secid),
{
    match scope {
        PermissionScope::Project => true,
        PermissionScope::Sequence(s) => match seqid {
            Some(q) => q == s,
            None => false,
        },
        PermissionScope::Section(s, c) => match (seqid, secid) {
            (Some(q), Some(d)) => q == s && d == c,
            _ => false,
        },
    }
}

/// The most specific grant of `grants` that gives `uid` the capability
/// `name` for the request, if any applies.
pub fn most_specific_grant(
    grants: &Vec<Permission>,
    name: PermissionName,
    uid: u32,
    seqid: Option<u32>,
    secid: Option<u32>,
) -> (r: Option<Permission>)
    ensures
        r is Some <==> authorized(grants@, name, uid, seqid, secid),
        r matches Some(g) ==> grants@.contains(g) && grant_applies(g, name, uid, seqid, secid),
        r matches Some(g) ==> forall|i: int|
            0 <= i < grants.len() && grant_applies(#[trigger] grants@[i], name, uid, seqid, secid)
                ==> specificity(grants@[i].scope) <= specificity(g.scope),
{
    let mut best: Option<Permission> = None;
    let mut i: usize = 0;
    while i < grants.len()
        invariant
            0 <= i <= grants.len(),
            best is None <==> !(exists|j: int|
                0 <= j < i && grant_applies(#[trigger] grants@[j], name, uid, seqid, secid)),
            best matches Some(g) ==> grants@.contains(g) && grant_applies(
                g,
                name,
                uid,
                seqid,
                secid,
            ),
            best matches Some(g) ==> forall|j: int|
                0 <= j < i && grant_applies(#[trigger] grants@[j], name, uid, seqid, secid)
                    ==> specificity(grants@[j].scope) <= specificity(g.scope),
        decreases grants.len() - i,
    {
        let g = grants[i];
        if g.uid == uid && g.name == name && scope_covers(g.scope, seqid, secid) {
            let better = match best {
                None => true,
                Some(b) => scope_rank(g.scope) > scope_rank(b.scope),
            };
            if better {
                best = Some(g);
            }
            assert(grant_applies(grants@[i as int], name, uid, seqid, secid));
        } else {
            assert(!grant_applies(grants@[i as int], name, uid, seqid, secid));
        }
        i = i + 1;
    }
    best
}

/// Decides whether `uid` may act with capability `name` on the project, or
/// on the sequence `seqid` and section `secid` of it, from the grants that
/// the user holds there.
pub fn resolve_permission(
    grants: &Vec<Permission>,
    name: PermissionName,
    uid: u32,
    seqid: Option<u32>,
    secid: Option<u32>,
) -> (r: Result<(), Error>)
    ensures
        r == resolution(grants@, name, uid, seqid, secid),
{
    let scope_needed = match name {
        PermissionName::Administrate => false,
        _ => true,
    };
    if (scope_needed && seqid.is_none() && secid.is_none()) || (secid.is_some()
        && seqid.is_none()) {
        return Err(Error::MissingPermissionArg);
    }
    match most_specific_grant(grants, name, uid, seqid, secid) {
        Some(_) => Ok(()),
        None => Err(Error::UnauthorizedAction),
    }
}

/// A project-wide grant authorizes every complete request for its
/// capability, whatever sequence and section it names.
pub proof fn lemma_project_grant_authorizes_all(
    grants: Seq<Permission>,
    name: PermissionName,
    uid: u32,
    seqid: Option<u32>,
    secid: Option<u32>,
)
    requires
        grants.contains(Permission { uid, name, scope: PermissionScope::Project }),
        !arg_missing(name, seqid, secid),
    ensures
        resolution(grants, name, uid, seqid, secid) == Ok::<(), Error>(()),
{
    let i = choose|i: int|
        0 <= i < grants.len() && grants[i] == (Permission {
            uid,
            name,
            scope: PermissionScope::Project,
        });
    assert(grant_applies(grants[i], name, uid, seqid, secid));
}

/// A grant for sequence `s` authorizes requests for `s`, whatever section of
/// it they name.
pub proof fn lemma_sequence_grant_authorizes_its_sections(
    grants: Seq<Permission>,
    name: PermissionName,
    uid: u32,
    s: u32,
    secid: Option<u32>,
)
    requires
        grants.contains(Permission { uid, name, scope: PermissionScope::Sequence(s) }),
    ensures
        resolution(grants, name, uid, Some(s), secid) == Ok::<(), Error>(()),
{
    let i = choose|i: int|
        0 <= i < grants.len() && grants[i] == (Permission {
            uid,
            name,
            scope: PermissionScope::Sequence(s),
        });
    assert(grant_applies(grants[i], name, uid, Some(s), secid));
}

/// Where the user's only grants for a capability are for sequence `s`, a
/// request for another sequence `t` is unauthorized.
pub proof fn lemma_sequence_grant_rejects_other_sequence(
    grants: Seq<Permission>,
    name: PermissionName,
    uid: u32,
    s: u32,
    t: u32,
    secid: Option<u32>,
)
    requires
        s != t,
        forall|i: int|
            0 <= i < grants.len() && (#[trigger] grants[i]).uid == uid && grants[i].name == name
                ==> grants[i].scope == PermissionScope::Sequence(s),
    ensures
        resolution(grants, name, uid, Some(t), secid) == Err::<(), Error>(
            Error::UnauthorizedAction,
        ),
{
}

/// A request that needs a scope but names neither a sequence nor a section
/// fails for want of an argument, whatever grants exist.
pub proof fn lemma_missing_scope_fails(grants: Seq<Permission>, name: PermissionName, uid: u32)
    requires
        needs_scope(name),
    ensures
        resolution(grants, name, uid, None, None) == Err::<(), Error>(Error::MissingPermissionArg),
{
}

} // verus!
