use presale_launcher::error::ErrorCode;
use presale_launcher::pubkey::Pubkey;
use presale_launcher::state::{Launcher, Launchpad, PresaleState};

fn key(n: u8) -> Pubkey {
    Pubkey { bytes: [n; 32] }
}

#[test]
fn key_eq_compares_every_byte() {
    let a = key(7);
    let mut last = [7u8; 32];
    last[31] = 8;
    let b = Pubkey { bytes: last };
    let mut first = [7u8; 32];
    first[0] = 0;
    let c = Pubkey { bytes: first };
    assert!(a.key_eq(&key(7)));
    assert!(!a.key_eq(&b));
    assert!(!a.key_eq(&c));
    assert!(!b.key_eq(&c));
}

#[test]
fn launcher_initialize_sets_both_keys() {
    let mut l = Launcher { fee_pool: key(0), admin: key(0) };
    assert_eq!(l.initialize(key(1), key(2)), Ok(()));
    assert_eq!(l.fee_pool, key(1));
    assert_eq!(l.admin, key(2));
}

#[test]
fn launcher_check_admin() {
    let l = Launcher { fee_pool: key(1), admin: key(2) };
    assert_eq!(l.check_admin(key(2)), Ok(()));
    assert_eq!(l.check_admin(key(1)), Err(ErrorCode::InvalidAdmin));
    assert_eq!(l.check_admin(key(3)), Err(ErrorCode::InvalidAdmin));
}

#[test]
fn launcher_setters_touch_one_field() {
    let mut l = Launcher { fee_pool: key(1), admin: key(2) };
    assert_eq!(l.set_admin(key(5)), Ok(()));
    assert_eq!(l, Launcher { fee_pool: key(1), admin: key(5) });
    assert_eq!(l.set_fee_pool(key(6)), Ok(()));
    assert_eq!(l, Launcher { fee_pool: key(6), admin: key(5) });
}

#[test]
fn launcher_len() {
    assert_eq!(Launcher::LEN, 64);
    assert_eq!(Launchpad::LEN, 65);
}

#[test]
fn launchpad_owner_check_accepts_only_the_owner() {
    let lp = Launchpad { owner: key(1), mint: key(2), presale_state: PresaleState::Open };
    assert_eq!(lp.check_launchpad_owner(key(1)), Ok(()));
    assert_eq!(lp.check_launchpad_owner(key(2)), Err(ErrorCode::InvalidLaunchpadOwner));
    assert_eq!(lp.check_launchpad_owner(key(3)), Err(ErrorCode::InvalidLaunchpadOwner));
}

#[test]
fn launchpad_started_only_in_progress() {
    let mut lp = Launchpad { owner: key(1), mint: key(2), presale_state: PresaleState::Open };
    assert_eq!(lp.check_launchpad_started(), Err(ErrorCode::LaunchpadNotInProgress));
    lp.presale_state = PresaleState::InProgress;
    assert_eq!(lp.check_launchpad_started(), Ok(()));
    lp.presale_state = PresaleState::Completed;
    assert_eq!(lp.check_launchpad_started(), Err(ErrorCode::LaunchpadNotInProgress));
}

#[test]
fn launchpad_lifecycle() {
    let mut lp = Launchpad { owner: key(0), mint: key(0), presale_state: PresaleState::Completed };
    assert_eq!(lp.initialize_launchpad(key(1), key(2)), Ok(()));
    assert_eq!(lp, Launchpad { owner: key(1), mint: key(2), presale_state: PresaleState::Open });
    assert_eq!(lp.start_presale(), Ok(()));
    assert_eq!(lp.presale_state, PresaleState::InProgress);
    assert_eq!(lp.complete_presale(), Ok(()));
    assert_eq!(lp, Launchpad { owner: key(1), mint: key(2), presale_state: PresaleState::Completed });
    // Starting again is not refused by the launchpad itself.
    assert_eq!(lp.start_presale(), Ok(()));
    assert_eq!(lp.presale_state, PresaleState::InProgress);
}
