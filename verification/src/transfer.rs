//! The calls into other programs that an instruction asks the runtime to make.
//! The library decides them; the surrounding program performs them as
//! cross-program invocations, in the order given, each to the program it
//! names.
use vstd::prelude::*;
use crate::address::Address;

verus! {

/// Signer seeds of a signed call, as the views of their byte strings.
pub open spec fn seeds_view(seeds: Option<Vec<Vec<u8>>>) -> Option<Seq<Seq<u8>>> {
    match seeds {
        Some(s) => Some(s.deep_view()),
        None => None,
    }
}

/// A transfer of lamports by the system program `program`'s `transfer`,
/// signed by a program derived address when `signer_seeds` holds its seeds.
pub struct LamportTransfer {
    pub program: Address,
    pub from: Address,
    pub to: Address,
    pub lamports: u64,
    pub signer_seeds: Option<Vec<Vec<u8>>>,
}

pub struct LamportTransferView {
    pub program: Seq<u8>,
    pub from: Seq<u8>,
    pub to: Seq<u8>,
    pub lamports: u64,
    pub signer_seeds: Option<Seq<Seq<u8>>>,
}

impl View for LamportTransfer {
    type V = LamportTransferView;

    open spec fn view(&self) -> LamportTransferView {
        LamportTransferView {
            program: self.program@,
            from: self.from@,
            to: self.to@,
            lamports: self.lamports,
            signer_seeds: seeds_view(self.signer_seeds),
        }
    }
}

/// A token transfer by the token program `program`'s `transfer_checked`,
/// which moves `amount` base units of `mint` (declared with `decimals`) from
/// the token account `from` to the token account `to` under `authority`.
pub struct TokenTransfer {
    pub program: Address,
    pub from: Address,
    pub mint: Address,
    pub to: Address,
    pub authority: Address,
    pub amount: u64,
    pub decimals: u8,
    pub signer_seeds: Option<Vec<Vec<u8>>>,
}

pub struct TokenTransferView {
    pub program: Seq<u8>,
    pub from: Seq<u8>,
    pub mint: Seq<u8>,
    pub to: Seq<u8>,
    pub authority: Seq<u8>,
    pub amount: u64,
    pub decimals: u8,
    pub signer_seeds: Option<Seq<Seq<u8>>>,
}

impl View for TokenTransfer {
    type V = TokenTransferView;

    open spec fn view(&self) -> TokenTransferView {
        TokenTransferView {
            program: self.program@,
            from: self.from@,
            mint: self.mint@,
            to: self.to@,
            authority: self.authority@,
            amount: self.amount,
            decimals: self.decimals,
            signer_seeds: seeds_view(self.signer_seeds),
        }
    }
}

/// The token program `program`'s `approve`: lets `delegate` move up to
/// `amount` base units out of the token account `to`, on the word of its
/// owner `authority`.
pub struct Approve {
    pub program: Address,
    pub to: Address,
    pub delegate: Address,
    pub authority: Address,
    pub amount: u64,
}

pub struct ApproveView {
    pub program: Seq<u8>,
    pub to: Seq<u8>,
    pub delegate: Seq<u8>,
    pub authority: Seq<u8>,
    pub amount: u64,
}

impl View for Approve {
    type V = ApproveView;

    open spec fn view(&self) -> ApproveView {
        ApproveView {
            program: self.program@,
            to: self.to@,
            delegate: self.delegate@,
            authority: self.authority@,
            amount: self.amount,
        }
    }
}

/// The token metadata program `program`'s `freeze_delegated_account`: the
/// delegate of `token_account` freezes it through `token_program`, signed
/// with `signer_seeds`.
pub struct FreezeDelegated {
    pub program: Address,
    pub delegate: Address,
    pub token_account: Address,
    pub edition: Address,
    pub mint: Address,
    pub token_program: Address,
    pub signer_seeds: Vec<Vec<u8>>,
}

pub struct FreezeDelegatedView {
    pub program: Seq<u8>,
    pub delegate: Seq<u8>,
    pub token_account: Seq<u8>,
    pub edition: Seq<u8>,
    pub mint: Seq<u8>,
    pub token_program: Seq<u8>,
    pub signer_seeds: Seq<Seq<u8>>,
}

impl View for FreezeDelegated {
    type V = FreezeDelegatedView;

    open spec fn view(&self) -> FreezeDelegatedView {
        FreezeDelegatedView {
            program: self.program@,
            delegate: self.delegate@,
            token_account: self.token_account@,
            edition: self.edition@,
            mint: self.mint@,
            token_program: self.token_program@,
            signer_seeds: self.signer_seeds.deep_view(),
        }
    }
}

/// The token program `program`'s `close_account`: closes the token account
/// `account`, paying its lamports to `destination`, on the word of
/// `authority`.
pub struct CloseAccount {
    pub program: Address,
    pub account: Address,
    pub destination: Address,
    pub authority: Address,
    pub signer_seeds: Option<Vec<Vec<u8>>>,
}

pub struct CloseAccountView {
    pub program: Seq<u8>,
    pub account: Seq<u8>,
    pub destination: Seq<u8>,
    pub authority: Seq<u8>,
    pub signer_seeds: Option<Seq<Seq<u8>>>,
}

impl View for CloseAccount {
    type V = CloseAccountView;

    open spec fn view(&self) -> CloseAccountView {
        CloseAccountView {
            program: self.program@,
            account: self.account@,
            destination: self.destination@,
            authority: self.authority@,
            signer_seeds: seeds_view(self.signer_seeds),
        }
    }
}

/// The closing of one of the program's own accounts (`close = destination`):
/// its lamports go to `destination` and its data is cleared.
pub struct CloseProgramAccount {
    pub account: Address,
    pub destination: Address,
}

pub struct CloseProgramAccountView {
    pub account: Seq<u8>,
    pub destination: Seq<u8>,
}

impl View for CloseProgramAccount {
    type V = CloseProgramAccountView;

    open spec fn view(&self) -> CloseProgramAccountView {
        CloseProgramAccountView { account: self.account@, destination: self.destination@ }
    }
}

} // verus!
