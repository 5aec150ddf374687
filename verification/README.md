# dapp_programs

The verified core of five Solana programs built with Anchor: an NFT
marketplace (initialize, list, delist, purchase), NFT staking (configuration,
user accounts, staking), a token escrow (make, take), an AMM pool
configuration, and a ticketing program's treasury withdrawal.

- `src/` is the library, verified with Verus. Each instruction is a function
  from the accounts it reads to the account data it writes and the calls
  (lamport and token transfers, approvals, freezes, closes) it asks the
  runtime to make, each naming the program it goes to. The account
  constraints of each instruction (signers, program ids, seeds and bumps of
  program derived addresses, associated token accounts, NFT metadata and
  master edition addresses, `has_one`, `constraint = ..`, and that an
  account the instruction creates is not in use yet) are checked, in the
  framework's order, by verified functions that call anchor_lang's
  `Pubkey::create_program_address` and `Pubkey::try_find_program_address`.
  The accounts an instruction creates (`init`, `init_if_needed`) come back
  as creation calls too: the system account with its space, owner, payer
  and rent, the mint with its decimals and authority, or the associated
  token account.
- `app/` is the on-chain glue: it reads accounts into the library's values,
  runs the checks and decisions, performs the creations and the
  cross-program calls with anchor_lang and anchor_spl, and writes account
  data back. It has one handler per instruction, and decodes the
  instructions that the programs' `#[program]` modules declare.
- `tests/` runs the library with the real derivation of program addresses.
