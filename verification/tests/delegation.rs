use puzzle_contracts::assoc::AssocMap;
use puzzle_contracts::delegation::{DelegationContract, DelegationError};

const TOKEN: u64 = 50;
const U1: u64 = 1;
const U2: u64 = 2;
const U3: u64 = 3;
const U4: u64 = 4;

fn book(entries: &[(u64, i128)]) -> AssocMap<i128> {
    let mut m = AssocMap::new();
    for (a, b) in entries {
        m.insert(*a, *b);
    }
    m
}

#[test]
fn test_delegation_flow() {
    let mut c = DelegationContract::initialize(TOKEN);
    let b = book(&[(U1, 1000), (U2, 2000), (U3, 3000), (U4, 4000)]);
    assert_eq!(c.get_voting_power(U1, &b), 1000);

    c.delegate(U1, U2, 0).unwrap();
    assert_eq!(c.get_voting_power(U1, &b), 0);
    assert_eq!(c.get_voting_power(U2, &b), 3000);
    let chain1 = c.get_delegator_chain(U1);
    assert_eq!(chain1.len(), 2);
    assert_eq!(chain1[0], U1);
    assert_eq!(chain1[1], U2);

    c.delegate(U2, U3, 0).unwrap();
    assert_eq!(c.get_voting_power(U2, &b), 0);
    assert_eq!(c.get_voting_power(U3, &b), 6000);

    c.delegate(U3, U4, 0).unwrap();
    assert_eq!(c.get_voting_power(U3, &b), 0);
    // Three hops: u4 <- u3 <- u2 <- u1.
    assert_eq!(c.get_voting_power(U4, &b), 10000);
    assert_eq!(c.get_delegator_chain(U1).len(), 4);
}

#[test]
#[should_panic]
fn test_circular_delegation() {
    let mut c = DelegationContract::initialize(TOKEN);
    c.delegate(U1, U2, 0).unwrap();
    c.delegate(U2, U3, 0).unwrap();
    c.delegate(U3, U1, 0).unwrap();
}

#[test]
fn test_revoke_delegation() {
    let mut c = DelegationContract::initialize(TOKEN);
    let b = book(&[(U1, 1000), (U2, 2000)]);
    c.delegate(U1, U2, 0).unwrap();
    assert_eq!(c.get_voting_power(U1, &b), 0);
    assert_eq!(c.get_voting_power(U2, &b), 3000);
    c.revoke_delegation(U1);
    assert_eq!(c.get_voting_power(U1, &b), 1000);
    assert_eq!(c.get_voting_power(U2, &b), 2000);
    assert!(c.get_delegators(U2).is_empty());
    assert!(!c.get_delegation(U1).unwrap().active);
}

#[test]
fn delegation_errors_and_redelegation() {
    let mut c = DelegationContract::initialize(TOKEN);
    assert_eq!(c.delegate(U1, U1, 0), Err(DelegationError::CannotDelegateToSelf));
    c.delegate(U1, U2, 5).unwrap();
    assert_eq!(c.delegate(U2, U1, 6), Err(DelegationError::CircularDelegation));
    // Moving the delegation takes U1 out of U2's list.
    c.delegate(U1, U3, 7).unwrap();
    assert!(c.get_delegators(U2).is_empty());
    assert_eq!(c.get_delegators(U3), vec![U1]);
    let d = c.get_delegation(U1).unwrap();
    assert_eq!(d.delegatee, U3);
    assert_eq!(d.delegated_at, 7);
    let mut accts = c.accounts();
    accts.sort();
    assert_eq!(accts, vec![U1]);
    assert_eq!(c.get_token_address(), TOKEN);
}

#[test]
fn power_stops_after_three_levels() {
    let mut c = DelegationContract::initialize(TOKEN);
    let b = book(&[(1, 1), (2, 10), (3, 100), (4, 1000), (5, 10000)]);
    c.delegate(1, 2, 0).unwrap();
    c.delegate(2, 3, 0).unwrap();
    c.delegate(3, 4, 0).unwrap();
    c.delegate(4, 5, 0).unwrap();
    // 5 sees 4, 3 and 2; account 1 is four levels down.
    assert_eq!(c.get_voting_power(5, &b), 11110);
}
