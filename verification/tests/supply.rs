use token_faucet::supply::{check_supply_cap, SupplyGuard};

const CAP: u64 = 210_000_000_000_000_000;

#[test]
fn guard_is_open_below_the_cap() {
    assert_eq!(check_supply_cap(0, CAP, false, false), SupplyGuard::Open);
    assert_eq!(check_supply_cap(CAP - 1, CAP, false, false), SupplyGuard::Open);
    assert_eq!(check_supply_cap(CAP - 1, CAP, true, false), SupplyGuard::Open);
}

#[test]
fn guard_closes_at_the_cap() {
    assert_eq!(check_supply_cap(CAP, CAP, false, false), SupplyGuard::Capped { revoke: false });
    assert_eq!(check_supply_cap(CAP + 1, CAP, false, false), SupplyGuard::Capped { revoke: false });
    assert_eq!(check_supply_cap(u64::MAX, CAP, false, false), SupplyGuard::Capped { revoke: false });
}

#[test]
fn guard_revokes_the_first_time_the_cap_is_seen() {
    assert_eq!(check_supply_cap(CAP, CAP, true, false), SupplyGuard::Capped { revoke: true });
    assert_eq!(check_supply_cap(CAP, CAP, true, true), SupplyGuard::Capped { revoke: false });
}

#[test]
fn guard_stays_closed_once_revoked() {
    assert_eq!(check_supply_cap(0, CAP, true, true), SupplyGuard::Capped { revoke: false });
    assert_eq!(check_supply_cap(CAP - 1, CAP, true, true), SupplyGuard::Capped { revoke: false });
}

#[test]
fn guard_without_revocation_looks_at_the_supply_alone() {
    assert_eq!(check_supply_cap(0, CAP, false, true), SupplyGuard::Open);
    assert_eq!(check_supply_cap(CAP, CAP, false, true), SupplyGuard::Capped { revoke: false });
}

#[test]
fn guard_with_a_zero_cap_is_always_closed() {
    assert_eq!(check_supply_cap(0, 0, false, false), SupplyGuard::Capped { revoke: false });
}
