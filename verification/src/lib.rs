use vstd::prelude::*;

pub mod assoc;
pub mod seqs;
pub mod completion_certificate;
pub mod gamification_rewards;
pub mod multisig_treasury;
pub mod battle_pass;
pub mod charity_donation;
pub mod flash_loan;
pub mod nft_leasing;
pub mod nft_wrapper;
pub mod mentorship;
pub mod hint_marketplace;
pub mod anti_bot;
pub mod anti_bot_spec;
pub mod fractional_nft;
pub mod puzzle_bounty;
pub mod prize_pool;
pub mod player_sponsorship;
pub mod achievement_nft;
pub mod dynamic_nft;
pub mod nft_composability;
pub mod delegation;
pub mod token;

verus! {
}
