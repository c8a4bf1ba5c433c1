use rustic::access_control::access_init;
use rustic::access_control::grant_roles;
use rustic::identity::Identity;
use rustic::memory_map::open_stores;
use rustic::memory_map::MemoryMap;
use rustic::memory_map::MANAGED_PAGE_END;
use rustic::memory_map::MIN_MANAGED_PAGES;
use rustic::reentrancy_guard::is_guarded;
use rustic::reentrancy_guard::ReentrancyGuard;
use rustic::testing::MOCK_USER_0;
use rustic::testing::MOCK_USER_1;

fn user(text: &str) -> Identity {
    Identity::from_text(text).unwrap()
}

#[test]
fn test_reentrancy_guard_non_reentrant() {
    let (_roles, mut tickets) = MemoryMap::init(0).open();
    let _guard = ReentrancyGuard::new(&mut tickets, Identity::anonymous()).unwrap();
}

#[test]
fn guard_refuses_reentry() {
    let (_roles, mut tickets) = MemoryMap::init(0).open();
    let a = user(MOCK_USER_0);
    let guard = ReentrancyGuard::new(&mut tickets, a).unwrap();
    assert_eq!(guard.caller(), a);
    assert!(is_guarded(&tickets, &a));
    match ReentrancyGuard::new(&mut tickets, a) {
        Ok(_) => panic!("a second guard was handed out"),
        Err(e) => assert_eq!(e, "ReentrancyGuard: reentrant call"),
    }
    assert!(is_guarded(&tickets, &a));
    guard.release(&mut tickets);
    assert!(!is_guarded(&tickets, &a));
}

#[test]
fn guard_can_be_acquired_again_after_release() {
    let (_roles, mut tickets) = MemoryMap::init(0).open();
    let a = user(MOCK_USER_0);
    let guard = ReentrancyGuard::new(&mut tickets, a).unwrap();
    guard.release(&mut tickets);
    let guard = ReentrancyGuard::new(&mut tickets, a).unwrap();
    assert!(ReentrancyGuard::new(&mut tickets, a).is_err());
    guard.release(&mut tickets);
    assert!(ReentrancyGuard::new(&mut tickets, a).is_ok());
}

#[test]
fn guards_of_different_callers_coexist() {
    let (_roles, mut tickets) = MemoryMap::init(0).open();
    let a = user(MOCK_USER_0);
    let b = user(MOCK_USER_1);
    let guard_a = ReentrancyGuard::new(&mut tickets, a).unwrap();
    let guard_b = ReentrancyGuard::new(&mut tickets, b).unwrap();
    assert!(is_guarded(&tickets, &a));
    assert!(is_guarded(&tickets, &b));
    guard_a.release(&mut tickets);
    assert!(!is_guarded(&tickets, &a));
    assert!(is_guarded(&tickets, &b));
    assert!(ReentrancyGuard::new(&mut tickets, b).is_err());
    guard_b.release(&mut tickets);
    assert!(!is_guarded(&tickets, &b));
}

#[test]
fn stores_of_one_region_do_not_mix() {
    let (mut roles, mut tickets) = MemoryMap::init(1).open();
    let a = user(MOCK_USER_0);
    let ac = access_init(a);
    grant_roles(&ac, &mut roles, &a, vec![1], &a);
    assert!(!is_guarded(&tickets, &a));
    let guard = ReentrancyGuard::new(&mut tickets, a).unwrap();
    assert_eq!(rustic::access_control::get_user_roles(&roles, &a), 2);
    guard.release(&mut tickets);
    assert_eq!(rustic::access_control::get_user_roles(&roles, &a), 2);
}

#[test]
fn region_must_have_room_for_both_stores() {
    assert_eq!(MIN_MANAGED_PAGES, 1 + 2 * 128);
    assert!(open_stores(MANAGED_PAGE_END).is_none());
    assert!(open_stores(u64::MAX).is_none());
    assert!(open_stores(MANAGED_PAGE_END - 1).is_none());
    assert!(open_stores(MANAGED_PAGE_END - MIN_MANAGED_PAGES + 1).is_none());
    let (roles, mut tickets) = open_stores(2).unwrap();
    let a = user(MOCK_USER_0);
    assert_eq!(rustic::access_control::get_user_roles(&roles, &a), 0);
    let guard = ReentrancyGuard::new(&mut tickets, a).unwrap();
    assert!(is_guarded(&tickets, &a));
    guard.release(&mut tickets);
}
