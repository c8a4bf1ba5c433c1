use candid::Principal;
use rustic::identity::Identity;
use rustic::testing::MOCK_CANISTER_0;
use rustic::testing::MOCK_USER_0;
use rustic::testing::MOCK_USER_1;

#[test]
fn anonymous_identity_is_the_byte_four() {
    let anonymous = Identity::anonymous();
    assert_eq!(anonymous.as_slice(), &[4u8]);
    assert_eq!(anonymous.as_slice(), Principal::anonymous().as_slice());
    assert!(anonymous.is_anonymous());
    assert!(!Identity::from_slice(&[]).unwrap().is_anonymous());
    assert!(!Identity::from_slice(&[4, 0]).unwrap().is_anonymous());
    assert!(Identity::from_slice(&[4]).unwrap().is_anonymous());
}

#[test]
fn identity_from_text_agrees_with_the_principal() {
    for text in [MOCK_USER_0, MOCK_USER_1, MOCK_CANISTER_0, "aaaaa-aa", "2vxsx-fae"] {
        let id = Identity::from_text(text).unwrap();
        let principal = Principal::from_text(text).unwrap();
        assert_eq!(id.as_slice(), principal.as_slice());
    }
    assert_eq!(Identity::from_text("aaaaa-aa").unwrap().as_slice(), &[] as &[u8]);
    assert_eq!(Identity::from_text("2vxsx-fae"), Some(Identity::anonymous()));
    assert_eq!(
        Identity::from_text(MOCK_CANISTER_0).unwrap().as_slice(),
        &[0, 0, 0, 0, 0, 48, 0, 57, 1, 1]
    );
    assert_eq!(Identity::from_text("not a principal"), None);
    assert_eq!(Identity::from_text(""), None);
    assert_eq!(Identity::from_text("a4gq6-oaaaa-aaaab-qaa4q-caj"), None);
}

#[test]
fn identity_from_slice_takes_up_to_29_bytes() {
    let long = [7u8; 30];
    assert_eq!(Identity::from_slice(&long), None);
    let full = Identity::from_slice(&long[..29]).unwrap();
    assert_eq!(full.as_slice(), &long[..29]);
    let empty = Identity::from_slice(&[]).unwrap();
    assert_eq!(empty.as_slice().len(), 0);
    assert!(full != empty);
    assert!(Identity::from_slice(&[1, 2, 3]) == Identity::from_slice(&[1, 2, 3]));
    assert!(Identity::from_slice(&[1, 2, 3]) != Identity::from_slice(&[1, 2, 3, 0]));
    assert!(Identity::from_slice(&[1, 2, 3]) != Identity::from_slice(&[1, 2, 4]));
}
