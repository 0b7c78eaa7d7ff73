use proton_cli::permission::{
    most_specific_grant, resolve_permission, Permission, PermissionName, PermissionScope,
};
use proton_cli::Error;

fn grant(uid: u32, name: PermissionName, scope: PermissionScope) -> Permission {
    Permission { uid, name, scope }
}

#[test]
fn project_grant_authorizes_any_scope() {
    let grants = vec![grant(2, PermissionName::EditSeq, PermissionScope::Project)];
    assert!(resolve_permission(&grants, PermissionName::EditSeq, 2, Some(1), None).is_ok());
    assert!(resolve_permission(&grants, PermissionName::EditSeq, 2, Some(9), Some(4)).is_ok());
}

#[test]
fn sequence_grant_authorizes_only_its_sequence() {
    let grants = vec![grant(2, PermissionName::EditSeq, PermissionScope::Sequence(5))];
    assert!(resolve_permission(&grants, PermissionName::EditSeq, 2, Some(5), None).is_ok());
    assert!(resolve_permission(&grants, PermissionName::EditSeq, 2, Some(5), Some(3)).is_ok());
    assert!(matches!(
        resolve_permission(&grants, PermissionName::EditSeq, 2, Some(6), None),
        Err(Error::UnauthorizedAction)
    ));
}

#[test]
fn section_grant_needs_matching_section() {
    let grants = vec![grant(2, PermissionName::EditSeqSec, PermissionScope::Section(5, 1))];
    assert!(resolve_permission(&grants, PermissionName::EditSeqSec, 2, Some(5), Some(1)).is_ok());
    assert!(matches!(
        resolve_permission(&grants, PermissionName::EditSeqSec, 2, Some(5), Some(2)),
        Err(Error::UnauthorizedAction)
    ));
}

#[test]
fn missing_scope_arguments_fail_first() {
    let grants = vec![grant(2, PermissionName::EditSeq, PermissionScope::Project)];
    assert!(matches!(
        resolve_permission(&grants, PermissionName::EditSeq, 2, None, None),
        Err(Error::MissingPermissionArg)
    ));
    assert!(matches!(
        resolve_permission(&grants, PermissionName::EditSeq, 2, None, Some(1)),
        Err(Error::MissingPermissionArg)
    ));
}

#[test]
fn administrate_needs_no_scope() {
    let grants = vec![grant(1, PermissionName::Administrate, PermissionScope::Project)];
    assert!(resolve_permission(&grants, PermissionName::Administrate, 1, None, None).is_ok());
    assert!(matches!(
        resolve_permission(&grants, PermissionName::Administrate, 2, None, None),
        Err(Error::UnauthorizedAction)
    ));
}

#[test]
fn grants_of_other_users_or_capabilities_do_not_apply() {
    let grants = vec![
        grant(3, PermissionName::EditSeq, PermissionScope::Project),
        grant(2, PermissionName::Administrate, PermissionScope::Project),
    ];
    assert!(matches!(
        resolve_permission(&grants, PermissionName::EditSeq, 2, Some(1), None),
        Err(Error::UnauthorizedAction)
    ));
}

#[test]
fn most_specific_grant_wins() {
    let grants = vec![
        grant(2, PermissionName::EditSeqSec, PermissionScope::Project),
        grant(2, PermissionName::EditSeqSec, PermissionScope::Section(5, 1)),
        grant(2, PermissionName::EditSeqSec, PermissionScope::Sequence(5)),
    ];
    let g = most_specific_grant(&grants, PermissionName::EditSeqSec, 2, Some(5), Some(1)).unwrap();
    assert_eq!(g.scope, PermissionScope::Section(5, 1));
    let g = most_specific_grant(&grants, PermissionName::EditSeqSec, 2, Some(5), Some(2)).unwrap();
    assert_eq!(g.scope, PermissionScope::Sequence(5));
    let g = most_specific_grant(&grants, PermissionName::EditSeqSec, 2, Some(6), None).unwrap();
    assert_eq!(g.scope, PermissionScope::Project);
    assert!(most_specific_grant(&grants, PermissionName::EditSeq, 2, Some(5), None).is_none());
}

#[test]
fn permission_names_are_read() {
    assert_eq!(PermissionName::from_name("Administrate").unwrap(), PermissionName::Administrate);
    assert_eq!(PermissionName::from_name("EditSeq").unwrap(), PermissionName::EditSeq);
    assert_eq!(PermissionName::from_name("EditSeqSec").unwrap(), PermissionName::EditSeqSec);
    assert!(matches!(
        PermissionName::from_name("editseq"),
        Err(Error::InvalidPermissionName(n)) if n == "editseq"
    ));
}
