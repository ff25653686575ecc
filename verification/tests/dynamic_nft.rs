use puzzle_contracts::dynamic_nft::{DynamicNftContract, DynamicNftError, HistoryEntry, MintEvent};

const ADMIN: u64 = 1;
const USER: u64 = 2;
const VERIFIER: u64 = 3;
const RANDOM: u64 = 4;

fn s(x: &str) -> String {
    x.to_string()
}

fn setup() -> DynamicNftContract {
    DynamicNftContract::initialize(ADMIN)
}

#[test]
fn mint_and_get() {
    let mut c = setup();
    let (token, ev) = c.mint(USER, USER, s("meta_v1"), s("traitA"), 100);
    assert_eq!(token, 1);
    assert_eq!(ev, MintEvent { owner: USER, token_id: 1 });
    let nft = c.get_nft(token).unwrap();
    assert_eq!(nft.owner, USER);
    assert_eq!(nft.level, 1);
    // No history on a fresh mint.
    assert_eq!(c.get_history(token).unwrap().len(), 0);
}

#[test]
fn time_evolution_changes_level() {
    let mut c = setup();
    let (token, _) = c.mint(USER, USER, s("meta_v1"), s("traitA"), 100);
    // Not ready yet.
    assert_eq!(c.evolve_time(USER, token, 10, 100), Err(DynamicNftError::NotReadyForTimeEvolution));
    c.evolve_time(USER, token, 50, 200).unwrap();
    assert_eq!(c.get_nft(token).unwrap().level, 2);
    let history = c.get_history(token).unwrap();
    assert_eq!(history.len(), 1);
    assert_eq!(history[0].label(), "time_evolved");
    // The clock restarted at 200.
    assert_eq!(c.evolve_time(USER, token, 50, 249), Err(DynamicNftError::NotReadyForTimeEvolution));
    c.evolve_time(USER, token, 50, 250).unwrap();
    assert_eq!(c.get_nft(token).unwrap().level, 3);
}

#[test]
fn fuse_two_tokens() {
    let mut c = setup();
    let (a, _) = c.mint(USER, USER, s("a"), s("A"), 100);
    let (b, _) = c.mint(USER, USER, s("b"), s("B"), 100);
    let (fused, ev) = c.fuse(USER, a, b, 100).unwrap();
    assert_eq!(fused, 3);
    assert_eq!(ev.token_id, 3);
    assert!(c.get_nft(a).is_none());
    assert!(c.get_nft(b).is_none());
    let nft = c.get_nft(fused).unwrap();
    assert_eq!(nft.level, 2);
    assert_eq!(nft.rarity, 2);
    assert_eq!(nft.traits, "A");
    let history = c.get_history(fused).unwrap();
    assert_eq!(history.len(), 1);
    assert_eq!(history[0].label(), "fused");
}

#[test]
fn evolve_milestone_by_admin() {
    let mut c = setup();
    let (token, _) = c.mint(USER, USER, s("meta"), s("trait1"), 100);
    let before = c.get_nft(token).unwrap();
    assert_eq!(before.level, 1);
    assert_eq!(before.rarity, 1);
    c.evolve_milestone(ADMIN, token, 2, 1, None).unwrap();
    let after = c.get_nft(token).unwrap();
    assert_eq!(after.level, 3);
    assert_eq!(after.rarity, 2);
    let history = c.get_history(token).unwrap();
    assert_eq!(history.len(), 1);
    assert_eq!(history[0].label(), "evolved_milestone");
}

#[test]
fn downgrade_by_verifier() {
    let mut c = setup();
    c.add_verifier(ADMIN, VERIFIER).unwrap();
    let (token, _) = c.mint(USER, USER, s("meta"), s("trait1"), 100);
    c.evolve_milestone(ADMIN, token, 3, 0, None).unwrap();
    assert_eq!(c.get_nft(token).unwrap().level, 4);
    c.downgrade(VERIFIER, token, 2).unwrap();
    assert_eq!(c.get_nft(token).unwrap().level, 2);
    let history = c.get_history(token).unwrap();
    assert!(history.iter().any(|e| e.label() == "downgraded"));
    // Levels do not go below zero.
    c.downgrade(VERIFIER, token, 10).unwrap();
    assert_eq!(c.get_nft(token).unwrap().level, 0);
}

#[test]
#[should_panic]
fn evolve_milestone_requires_admin_or_verifier() {
    let mut c = setup();
    let (token, _) = c.mint(USER, USER, s("meta"), s("trait1"), 100);
    c.evolve_milestone(RANDOM, token, 1, 0, None).unwrap();
}

#[test]
#[should_panic]
fn fuse_requires_owner() {
    let mut c = setup();
    let (a, _) = c.mint(USER, USER, s("a"), s("A"), 100);
    let (b, _) = c.mint(USER, USER, s("b"), s("B"), 100);
    c.fuse(RANDOM, a, b, 100).unwrap();
}

#[test]
fn remove_verifier() {
    let mut c = setup();
    c.add_verifier(ADMIN, VERIFIER).unwrap();
    c.remove_verifier(ADMIN, VERIFIER).unwrap();
    let (token, _) = c.mint(USER, USER, s("meta"), s("trait1"), 100);
    assert_eq!(c.evolve_milestone(VERIFIER, token, 1, 0, None), Err(DynamicNftError::Unauthorized));
    assert_eq!(c.add_verifier(USER, VERIFIER), Err(DynamicNftError::Unauthorized));
}

#[test]
fn new_traits_and_saturation() {
    let mut c = setup();
    let (token, _) = c.mint(USER, USER, s("meta"), s("old"), 0);
    c.evolve_milestone(ADMIN, token, u32::MAX, 0, Some(s("new"))).unwrap();
    let n = c.get_nft(token).unwrap();
    assert_eq!(n.level, u32::MAX);
    assert_eq!(n.traits, "new");
    assert_eq!(c.evolve_milestone(ADMIN, 99, 1, 1, None), Err(DynamicNftError::TokenNotFound));
    let (other, _) = c.mint(USER, RANDOM, s("m"), s("t"), 0);
    assert_eq!(c.fuse(USER, token, other, 0), Err(DynamicNftError::OwnersMustMatch));
    assert_eq!(HistoryEntry::Downgraded.label(), "downgraded");
}
