use puzzle_contracts::assoc::AssocMap;
use puzzle_contracts::nft_composability::{ComposeError, NftComposabilityContract, TraitSelection};

const ADMIN: u64 = 1;
const OWNER: u64 = 2;
const OTHER: u64 = 3;
const COLOR: u64 = 100;
const WEAPON: u64 = 101;
const RED: u64 = 200;
const BLUE: u64 = 201;
const SWORD: u64 = 300;
const BOW: u64 = 301;

fn traits(pairs: &[(u64, u64)]) -> AssocMap<u64> {
    let mut m = AssocMap::new();
    for (k, v) in pairs {
        m.insert(*k, *v);
    }
    m
}

fn setup(required: Vec<u64>) -> NftComposabilityContract {
    let mut c = NftComposabilityContract::initialize(ADMIN);
    c.register_traits(required);
    c
}

#[test]
fn test_nft_composability_flow() {
    let mut c = setup(vec![COLOR, WEAPON]);
    let token1 = c.mint_base(OWNER, traits(&[(COLOR, RED), (WEAPON, SWORD)]), 0).unwrap();
    let token2 = c.mint_base(OWNER, traits(&[(COLOR, BLUE), (WEAPON, BOW)]), 0).unwrap();
    // Color from 1, weapon from 2.
    let sels = vec![TraitSelection { trait_key: COLOR, source: 1 }, TraitSelection { trait_key: WEAPON, source: 2 }];
    let merged_id = c.merge(OWNER, token1, token2, sels, 5).unwrap();
    assert!(c.get_nft(token1).unwrap().is_burned);
    let merged = c.get_nft(merged_id).unwrap();
    assert!(!merged.is_burned);
    assert_eq!(merged.parent_a, token1);
    assert_eq!(merged.parent_b, token2);
    assert_eq!(merged.inherited_traits.get(COLOR), Some(&RED));
    assert_eq!(merged.inherited_traits.get(WEAPON), Some(&BOW));
    let lineage = c.get_lineage(merged_id);
    assert!(lineage.contains(&merged_id));
    assert!(lineage.contains(&token1));
    assert!(lineage.contains(&token2));
    assert_eq!(lineage, vec![merged_id, token1, token2]);
}

#[test]
#[should_panic]
fn test_missing_trait_selection() {
    let mut c = setup(vec![COLOR, WEAPON]);
    let t = traits(&[(COLOR, RED), (WEAPON, SWORD)]);
    let t1 = c.mint_base(OWNER, t, 0).unwrap();
    let t2 = c.mint_base(OWNER, traits(&[(COLOR, RED), (WEAPON, SWORD)]), 0).unwrap();
    // Only one trait selected.
    c.merge(OWNER, t1, t2, vec![TraitSelection { trait_key: COLOR, source: 1 }], 0).unwrap();
}

#[test]
#[should_panic]
fn test_double_merge_burned() {
    let mut c = setup(vec![COLOR]);
    let t1 = c.mint_base(OWNER, traits(&[(COLOR, RED)]), 0).unwrap();
    let t2 = c.mint_base(OWNER, traits(&[(COLOR, RED)]), 0).unwrap();
    let t3 = c.mint_base(OWNER, traits(&[(COLOR, RED)]), 0).unwrap();
    let sel = vec![TraitSelection { trait_key: COLOR, source: 1 }];
    c.merge(OWNER, t1, t2, sel.clone(), 0).unwrap();
    // t1 is burned now.
    c.merge(OWNER, t1, t3, sel, 0).unwrap();
}

#[test]
fn merge_errors() {
    let mut c = setup(vec![COLOR, WEAPON]);
    assert_eq!(c.mint_base(OWNER, traits(&[(COLOR, RED)]), 0), Err(ComposeError::MissingRequiredTrait));
    let t1 = c.mint_base(OWNER, traits(&[(COLOR, RED), (WEAPON, SWORD)]), 0).unwrap();
    let t2 = c.mint_base(OWNER, traits(&[(COLOR, BLUE), (WEAPON, BOW)]), 0).unwrap();
    let t3 = c.mint_base(OTHER, traits(&[(COLOR, BLUE), (WEAPON, BOW)]), 0).unwrap();
    let ok = vec![TraitSelection { trait_key: COLOR, source: 1 }, TraitSelection { trait_key: WEAPON, source: 2 }];
    assert_eq!(c.merge(OWNER, t1, t1, ok.clone(), 0), Err(ComposeError::IdenticalTokens));
    assert_eq!(c.merge(OWNER, 9, t1, ok.clone(), 0), Err(ComposeError::TokenANotFound));
    assert_eq!(c.merge(OWNER, t1, 9, ok.clone(), 0), Err(ComposeError::TokenBNotFound));
    assert_eq!(c.merge(OWNER, t1, t3, ok.clone(), 0), Err(ComposeError::NotOwnerOfBoth));
    let bad_source = vec![TraitSelection { trait_key: COLOR, source: 3 }];
    assert_eq!(c.merge(OWNER, t1, t2, bad_source, 0), Err(ComposeError::InvalidSource));
    let lacking = vec![TraitSelection { trait_key: 999, source: 1 }];
    assert_eq!(c.merge(OWNER, t1, t2, lacking, 0), Err(ComposeError::ParentLacksTrait));
    assert_eq!(c.merge(OWNER, t1, t2, vec![TraitSelection { trait_key: COLOR, source: 2 }], 0),
        Err(ComposeError::SelectionsMissingRequiredTrait));
    // Failed merges leave the parents alive.
    assert!(!c.get_nft(t1).unwrap().is_burned);
    assert_eq!(c.get_required_traits(), vec![COLOR, WEAPON]);
    assert_eq!(c.get_admin(), ADMIN);
}

#[test]
fn lineage_of_grandchild() {
    let mut c = setup(vec![COLOR]);
    let t1 = c.mint_base(OWNER, traits(&[(COLOR, RED)]), 0).unwrap();
    let t2 = c.mint_base(OWNER, traits(&[(COLOR, BLUE)]), 0).unwrap();
    let t3 = c.mint_base(OWNER, traits(&[(COLOR, RED)]), 0).unwrap();
    let sel = vec![TraitSelection { trait_key: COLOR, source: 1 }];
    let c1 = c.merge(OWNER, t1, t2, sel.clone(), 0).unwrap();
    let c2 = c.merge(OWNER, t3, c1, sel, 0).unwrap();
    assert_eq!(c.get_lineage(c2), vec![c2, t3, c1, t1, t2]);
    assert_eq!(c.get_lineage(t1), vec![t1]);
    assert!(c.get_lineage(0).is_empty());
    assert_eq!(c.get_nft(c2).unwrap().inherited_traits.get(COLOR), Some(&RED));
}
