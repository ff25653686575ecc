# puzzle_contracts

Verified logic of a family of Soroban game contracts: completion
certificates, gamification rewards, a multisig treasury, battle passes,
charity donations, flash loans, NFT leasing and wrapping, mentorship
sessions, a hint marketplace, anti-bot checks, fractional NFTs, puzzle
bounties, prize pools, player sponsorships, achievement and dynamic NFTs,
composable NFTs and vote delegation.

Each contract is a module of `src/` holding its state as plain values
(accounts are `u64` ids), with contracts stated over a mathematical view of
that state. Operations that would move tokens or NFTs, or ask another
contract a question, hand back an action or take the answer as an argument;
`app/` carries these out against the Soroban host. Laws that span several
calls are public proof functions named `law_*`.
