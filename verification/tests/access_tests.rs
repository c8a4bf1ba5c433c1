use rustic::access_control::accept_ownership;
use rustic::access_control::access_init;
use rustic::access_control::grant_admin;
use rustic::access_control::is_admin;
use rustic::access_control::is_owner;
use rustic::access_control::only_admin;
use rustic::access_control::only_owner;
use rustic::access_control::owner;
use rustic::access_control::owner_and_pending_owner;
use rustic::access_control::pending_owner;
use rustic::access_control::renounce_admin;
use rustic::access_control::renounce_ownership;
use rustic::access_control::revoke_admin;
use rustic::access_control::transfer_ownership;
use rustic::access_control::transfer_ownership_immediate;
use rustic::access_control::AccessError;
use rustic::identity::Identity;
use rustic::testing::MOCK_USER_0;
use rustic::testing::MOCK_USER_1;
use rustic::testing::MOCK_USER_2;

fn user(text: &str) -> Identity {
    Identity::from_text(text).unwrap()
}

#[test]
fn test_ownable() {
    let caller = user(MOCK_USER_0);
    let ac = access_init(caller);
    assert!(only_owner(&ac, &caller).is_ok());
    assert!(owner(&ac) == Identity::from_text(MOCK_USER_0));
    let caller = user(MOCK_USER_1);
    assert!(only_owner(&ac, &caller).is_err());
}

#[test]
fn test_ownable_transfer_ownership() {
    let caller = user(MOCK_USER_0);
    let mut ac = access_init(caller);
    assert!(only_owner(&ac, &caller).is_ok());
    assert!(owner(&ac) == Identity::from_text(MOCK_USER_0));
    transfer_ownership(&mut ac, &caller, Some(user(MOCK_USER_1))).unwrap();
    assert!(owner(&ac) == Identity::from_text(MOCK_USER_0));
    let caller = user(MOCK_USER_1);
    assert!(only_owner(&ac, &caller).is_err());
    accept_ownership(&mut ac, &caller).unwrap();
    assert!(only_owner(&ac, &caller).is_ok());
    assert!(owner(&ac) == Identity::from_text(MOCK_USER_1));
    let caller = user(MOCK_USER_0);
    assert!(only_owner(&ac, &caller).is_err());
}

#[test]
#[should_panic(expected = "No pending owner")]
fn test_ownable_transfer_ownership_to_none() {
    let caller = user(MOCK_USER_0);
    let mut ac = access_init(caller);
    assert!(only_owner(&ac, &caller).is_ok());
    transfer_ownership(&mut ac, &caller, None).unwrap();
    let caller = user(MOCK_USER_1);
    if let Err(e) = accept_ownership(&mut ac, &caller) {
        panic!("{}", e.message());
    }
}

#[test]
fn test_ownable_transfer_ownership_to_self() {
    let caller = user(MOCK_USER_0);
    let mut ac = access_init(caller);
    assert!(only_owner(&ac, &caller).is_ok());
    transfer_ownership(&mut ac, &caller, Some(user(MOCK_USER_0))).unwrap();
    assert!(only_owner(&ac, &caller).is_ok());
    accept_ownership(&mut ac, &caller).unwrap();
    assert!(only_owner(&ac, &caller).is_ok());
}

#[test]
fn test_admin() {
    let caller = user(MOCK_USER_0);
    let ac = access_init(caller);
    assert!(only_admin(&ac, &caller).is_ok());
    assert!(is_admin(&ac, &user(MOCK_USER_0)));
    assert!(!is_admin(&ac, &user(MOCK_USER_1)));
    let caller = user(MOCK_USER_1);
    assert!(only_admin(&ac, &caller).is_err());
}

#[test]
fn test_grant_admin() {
    let caller = user(MOCK_USER_0);
    let mut ac = access_init(caller);
    assert!(!is_admin(&ac, &user(MOCK_USER_1)));
    grant_admin(&mut ac, &caller, user(MOCK_USER_1)).unwrap();
    assert!(is_admin(&ac, &user(MOCK_USER_1)));
    let caller = user(MOCK_USER_1);
    assert!(only_admin(&ac, &caller).is_ok());
}

#[test]
fn test_revoke_admin() {
    let caller = user(MOCK_USER_0);
    let mut ac = access_init(caller);
    assert!(is_admin(&ac, &user(MOCK_USER_0)));
    revoke_admin(&mut ac, &caller, user(MOCK_USER_0)).unwrap();
    assert!(!is_admin(&ac, &user(MOCK_USER_0)));
    let caller = user(MOCK_USER_0);
    assert!(only_admin(&ac, &caller).is_err());
}

#[test]
fn test_renounce_admin() {
    let caller = user(MOCK_USER_0);
    let mut ac = access_init(caller);
    grant_admin(&mut ac, &caller, user(MOCK_USER_1)).unwrap();
    assert!(is_admin(&ac, &user(MOCK_USER_1)));
    let caller = user(MOCK_USER_1);
    assert!(only_admin(&ac, &caller).is_ok());
    renounce_admin(&mut ac, &caller).unwrap();
    assert!(!is_admin(&ac, &user(MOCK_USER_1)));
}

#[test]
fn init_makes_only_the_given_identity_owner() {
    let a = user(MOCK_USER_0);
    let b = user(MOCK_USER_1);
    let ac = access_init(a);
    assert!(is_owner(&ac, &a));
    assert!(!is_owner(&ac, &b));
    assert_eq!(owner_and_pending_owner(&ac), (Some(a), None));
    assert_eq!(only_owner(&ac, &b), Err("Caller is not the owner".to_string()));
    assert_eq!(only_admin(&ac, &b), Err("Caller is not an admin".to_string()));
}

#[test]
fn transfer_by_non_owner_is_refused() {
    let a = user(MOCK_USER_0);
    let b = user(MOCK_USER_1);
    let mut ac = access_init(a);
    assert_eq!(transfer_ownership(&mut ac, &b, Some(b)), Err(AccessError::NotOwner));
    assert_eq!(transfer_ownership_immediate(&mut ac, &b, Some(b)), Err(AccessError::NotOwner));
    assert_eq!(renounce_ownership(&mut ac, &b), Err(AccessError::NotOwner));
    assert_eq!(owner_and_pending_owner(&ac), (Some(a), None));
}

#[test]
fn transfer_to_anonymous_is_refused() {
    let a = user(MOCK_USER_0);
    let mut ac = access_init(a);
    let anonymous = Identity::anonymous();
    assert_eq!(transfer_ownership(&mut ac, &a, Some(anonymous)), Err(AccessError::AnonymousOwner));
    assert_eq!(
        transfer_ownership_immediate(&mut ac, &a, Some(anonymous)),
        Err(AccessError::AnonymousOwner)
    );
    assert_eq!(owner_and_pending_owner(&ac), (Some(a), None));
    assert_eq!(
        AccessError::AnonymousOwner.message(),
        "Cannot transfer ownership to the anonymous principal"
    );
}

#[test]
fn accept_by_another_identity_is_refused() {
    let a = user(MOCK_USER_0);
    let b = user(MOCK_USER_1);
    let c = user(MOCK_USER_2);
    let mut ac = access_init(a);
    transfer_ownership(&mut ac, &a, Some(b)).unwrap();
    assert_eq!(pending_owner(&ac), Some(b));
    assert_eq!(accept_ownership(&mut ac, &c), Err(AccessError::NotPendingOwner));
    assert_eq!(accept_ownership(&mut ac, &a), Err(AccessError::NotPendingOwner));
    assert_eq!(owner_and_pending_owner(&ac), (Some(a), Some(b)));
    assert_eq!(accept_ownership(&mut ac, &b), Ok(()));
    assert_eq!(owner_and_pending_owner(&ac), (Some(b), None));
    assert_eq!(
        AccessError::NotPendingOwner.message(),
        "Only pending owner can accept ownership"
    );
}

#[test]
fn cancelled_transfer_cannot_be_accepted() {
    let a = user(MOCK_USER_0);
    let b = user(MOCK_USER_1);
    let mut ac = access_init(a);
    transfer_ownership(&mut ac, &a, Some(b)).unwrap();
    transfer_ownership(&mut ac, &a, None).unwrap();
    assert_eq!(accept_ownership(&mut ac, &b), Err(AccessError::NoPendingOwner));
    assert_eq!(accept_ownership(&mut ac, &a), Err(AccessError::NoPendingOwner));
    assert_eq!(AccessError::NoPendingOwner.message(), "No pending owner");
    assert_eq!(owner(&ac), Some(a));
}

#[test]
fn immediate_transfer_sets_owner_and_clears_pending() {
    let a = user(MOCK_USER_0);
    let b = user(MOCK_USER_1);
    let c = user(MOCK_USER_2);
    let mut ac = access_init(a);
    transfer_ownership(&mut ac, &a, Some(b)).unwrap();
    transfer_ownership_immediate(&mut ac, &a, Some(c)).unwrap();
    assert_eq!(owner_and_pending_owner(&ac), (Some(c), None));
    assert_eq!(accept_ownership(&mut ac, &b), Err(AccessError::NoPendingOwner));
    transfer_ownership_immediate(&mut ac, &c, None).unwrap();
    assert_eq!(owner_and_pending_owner(&ac), (None, None));
}

#[test]
fn renouncement_is_final() {
    let a = user(MOCK_USER_0);
    let b = user(MOCK_USER_1);
    let mut ac = access_init(a);
    transfer_ownership(&mut ac, &a, Some(b)).unwrap();
    renounce_ownership(&mut ac, &a).unwrap();
    assert_eq!(owner_and_pending_owner(&ac), (None, None));
    for caller in [a, b, Identity::anonymous()] {
        assert_eq!(transfer_ownership(&mut ac, &caller, Some(b)), Err(AccessError::NotOwner));
        assert_eq!(
            transfer_ownership_immediate(&mut ac, &caller, Some(b)),
            Err(AccessError::NotOwner)
        );
        assert_eq!(renounce_ownership(&mut ac, &caller), Err(AccessError::NotOwner));
        assert_eq!(grant_admin(&mut ac, &caller, b), Err(AccessError::NotOwner));
        assert_eq!(revoke_admin(&mut ac, &caller, a), Err(AccessError::NotOwner));
        assert_eq!(accept_ownership(&mut ac, &caller), Err(AccessError::NoPendingOwner));
        assert!(!is_owner(&ac, &caller));
    }
    assert_eq!(owner(&ac), None);
    assert!(is_admin(&ac, &a));
}

#[test]
fn grant_admin_twice_lists_once() {
    let a = user(MOCK_USER_0);
    let b = user(MOCK_USER_1);
    let mut ac = access_init(a);
    assert_eq!(grant_admin(&mut ac, &a, b), Ok(()));
    assert_eq!(ac.admins(), vec![a, b]);
    assert_eq!(grant_admin(&mut ac, &a, b), Ok(()));
    assert_eq!(ac.admins(), vec![a, b]);
    assert_eq!(grant_admin(&mut ac, &a, a), Ok(()));
    assert_eq!(ac.admins(), vec![a, b]);
    assert_eq!(revoke_admin(&mut ac, &a, b), Ok(()));
    assert_eq!(ac.admins(), vec![a]);
    assert_eq!(revoke_admin(&mut ac, &a, b), Ok(()));
    assert_eq!(ac.admins(), vec![a]);
}

#[test]
fn admins_cannot_manage_the_admin_set() {
    let a = user(MOCK_USER_0);
    let b = user(MOCK_USER_1);
    let c = user(MOCK_USER_2);
    let mut ac = access_init(a);
    grant_admin(&mut ac, &a, b).unwrap();
    assert_eq!(grant_admin(&mut ac, &b, c), Err(AccessError::NotOwner));
    assert_eq!(revoke_admin(&mut ac, &b, a), Err(AccessError::NotOwner));
    assert_eq!(renounce_admin(&mut ac, &c), Err(AccessError::NotAdmin));
    assert_eq!(ac.admins(), vec![a, b]);
    assert_eq!(grant_admin(&mut ac, &a, Identity::anonymous()), Err(AccessError::AnonymousAdmin));
    assert_eq!(
        AccessError::AnonymousAdmin.message(),
        "Cannot grant admin to the anonymous principal"
    );
    assert!(AccessError::NotOwner.is_authorization());
    assert!(AccessError::NotAdmin.is_authorization());
    assert!(AccessError::NotPendingOwner.is_authorization());
    assert!(!AccessError::NoPendingOwner.is_authorization());
    assert!(!AccessError::AnonymousOwner.is_authorization());
    assert!(!AccessError::AnonymousAdmin.is_authorization());
}

#[test]
fn record_is_rebuilt_from_its_parts() {
    let a = user(MOCK_USER_0);
    let b = user(MOCK_USER_1);
    let c = user(MOCK_USER_2);
    let mut matrix = [0u32; 32];
    matrix[31] = 5;
    let ac = rustic::access_control::AccessControl::from_parts(
        Some(a),
        Some(b),
        vec![b, a, b, c, a],
        matrix,
    );
    assert_eq!(owner_and_pending_owner(&ac), (Some(a), Some(b)));
    assert_eq!(ac.admins(), vec![b, a, c]);
    assert_eq!(ac.admins_of_role(), matrix);
    let empty = rustic::access_control::AccessControl::from_parts(None, None, vec![], [0u32; 32]);
    assert_eq!(owner_and_pending_owner(&empty), (None, None));
    assert!(empty.admins().is_empty());
}
