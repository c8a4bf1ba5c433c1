use rustic::identity::Identity;
use rustic::lifecycle::canister_lifecycle_init;
use rustic::lifecycle::get_version;
use rustic::lifecycle::get_version_text;
use rustic::lifecycle::lifecycle_on_upgrade;
use rustic::lifecycle::CanisterLifecycle;
use rustic::rustic_init;
use rustic::rustic_post_upgrade;
use rustic::testing::MockData;
use rustic::testing::mock_time;
use rustic::testing::mock_version;
use rustic::testing::set_mock_caller;
use rustic::testing::set_mock_version;

#[test]
fn test_version_patch_bump() {
    let mut env = MockData::new().unwrap();
    set_mock_caller(&mut env, Identity::from_text("a4gq6-oaaaa-aaaab-qaa4q-cai").unwrap());
    let clock = 1_700_000_000_000_000_000u64;
    let mut lifecycle = canister_lifecycle_init(mock_time(&env, clock), mock_version(&env));
    assert!(get_version_text(&lifecycle).contains("v0.0.0,ic_v0,mem_v0,"));
    lifecycle_on_upgrade(&mut lifecycle, mock_time(&env, clock), mock_version(&env), false, false, false);
    assert!(get_version_text(&lifecycle).contains("v0.0.1,ic_v0,mem_v0,"));
    lifecycle_on_upgrade(&mut lifecycle, mock_time(&env, clock), mock_version(&env), false, false, false);
    assert!(get_version_text(&lifecycle).contains("v0.0.2,ic_v0,mem_v0,"));
    lifecycle_on_upgrade(&mut lifecycle, mock_time(&env, clock), mock_version(&env), true, false, true);
    assert!(get_version_text(&lifecycle).contains("v0.1.0,ic_v0,mem_v1,"));
    set_mock_version(&mut env, 5);
    lifecycle_on_upgrade(&mut lifecycle, mock_time(&env, clock), mock_version(&env), true, false, true);
    assert!(get_version_text(&lifecycle).contains("v0.2.0,ic_v5,mem_v2,"));
    lifecycle_on_upgrade(&mut lifecycle, mock_time(&env, clock), mock_version(&env), true, true, true);
    assert!(get_version_text(&lifecycle).contains("v1.0.0,ic_v5,mem_v3,"));
    lifecycle_on_upgrade(&mut lifecycle, mock_time(&env, clock), mock_version(&env), true, false, true);
    assert!(get_version_text(&lifecycle).contains("v1.1.0,ic_v5,mem_v4,"));
    lifecycle_on_upgrade(&mut lifecycle, mock_time(&env, clock), mock_version(&env), true, false, false);
    assert!(get_version_text(&lifecycle).contains("v1.1.1,ic_v5,mem_v5,"));
}

#[test]
fn version_text_is_exact() {
    let lifecycle = CanisterLifecycle::from_parts(3, 0, 1, 15, 1_700_000_000_000_000_005, 24);
    assert_eq!(get_version_text(&lifecycle), "v0.1.15,ic_v24,mem_v3,1700000000.5");
    assert_eq!(lifecycle.to_text(), "v0.1.15,ic_v24,mem_v3,1700000000.5");
    let lifecycle = CanisterLifecycle::from_parts(
        65535,
        65535,
        10,
        100,
        u64::MAX,
        u64::MAX,
    );
    assert_eq!(
        get_version_text(&lifecycle),
        "v65535.10.100,ic_v18446744073709551615,mem_v65535,18446744073.709551615"
    );
    assert_eq!(
        get_version_text(&CanisterLifecycle::default()),
        "v0.0.0,ic_v0,mem_v0,0.0"
    );
    assert_eq!(
        get_version_text(&canister_lifecycle_init(999_999_999, 7)),
        "v0.0.0,ic_v7,mem_v0,0.999999999"
    );
    assert_eq!(
        get_version_text(&canister_lifecycle_init(1_000_000_000, 10)),
        "v0.0.0,ic_v10,mem_v0,1.0"
    );
}

#[test]
fn upgrade_bumps_and_resets() {
    let mut lifecycle = CanisterLifecycle::from_parts(1, 2, 3, 4, 5, 6);
    assert!(lifecycle.upgrade_fits(true, true, true));
    lifecycle_on_upgrade(&mut lifecycle, 50, 60, false, false, false);
    let v = get_version(&lifecycle);
    assert_eq!(
        (
            v.stable_memory_version(),
            v.version_major(),
            v.version_minor(),
            v.version_patch(),
            v.last_upgraded(),
            v.ic_canister_version()
        ),
        (1, 2, 3, 5, 50, 60)
    );
    lifecycle_on_upgrade(&mut lifecycle, 51, 61, true, false, true);
    assert_eq!(get_version_text(&lifecycle), "v2.4.0,ic_v61,mem_v2,0.51");
    lifecycle_on_upgrade(&mut lifecycle, 52, 62, false, true, false);
    assert_eq!(get_version_text(&lifecycle), "v3.0.0,ic_v62,mem_v2,0.52");
    lifecycle_on_upgrade(&mut lifecycle, 53, 63, false, true, true);
    assert_eq!(get_version_text(&lifecycle), "v4.0.0,ic_v63,mem_v2,0.53");
}

#[test]
fn upgrade_fits_until_a_counter_is_full() {
    let full_patch = CanisterLifecycle::from_parts(0, 0, 0, u16::MAX, 0, 0);
    assert!(!full_patch.upgrade_fits(false, false, false));
    assert!(!full_patch.upgrade_fits(false, true, true));
    let full_minor = CanisterLifecycle::from_parts(0, 0, u16::MAX, 0, 0, 0);
    assert!(full_minor.upgrade_fits(true, true, false));
    assert!(!full_minor.upgrade_fits(false, false, true));
    assert!(!full_minor.upgrade_fits(false, true, true));
    let full_major = CanisterLifecycle::from_parts(0, u16::MAX, 0, 0, 0, 0);
    assert!(full_major.upgrade_fits(true, false, true));
    assert!(!full_major.upgrade_fits(false, true, false));
    let full_memory = CanisterLifecycle::from_parts(u16::MAX, 0, 0, 0, 0, 0);
    assert!(full_memory.upgrade_fits(false, true, true));
    assert!(!full_memory.upgrade_fits(true, false, false));
    let mut nearly = CanisterLifecycle::from_parts(u16::MAX - 1, 0, 0, u16::MAX - 1, 0, 0);
    assert!(nearly.upgrade_fits(true, false, false));
    lifecycle_on_upgrade(&mut nearly, 0, 0, true, false, false);
    assert_eq!(nearly.stable_memory_version(), u16::MAX);
    assert_eq!(nearly.version_patch(), u16::MAX);
}

#[test]
fn service_setup_and_upgrade() {
    let caller = Identity::from_text("a4gq6-oaaaa-aaaab-qaa4q-cai").unwrap();
    let mut service = rustic_init(caller, 1024, 77, 3);
    assert!(!rustic::pausable::is_paused(&service.flags));
    assert_eq!(rustic::global_flags::get_config_user_page_end(&service.flags), 1024);
    assert_eq!(rustic::access_control::owner(&service.access), Some(caller));
    assert_eq!(service.access.admins(), vec![caller]);
    assert_eq!(get_version_text(&service.lifecycle), "v0.0.0,ic_v3,mem_v0,0.77");
    rustic_post_upgrade(&mut service, 2_000_000_001, 4, false, true, false);
    assert_eq!(get_version_text(&service.lifecycle), "v1.0.0,ic_v4,mem_v0,2.1");
    assert_eq!(rustic::access_control::owner(&service.access), Some(caller));
}
