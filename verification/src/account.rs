//! What a processor sees of the ledger, and what it asks the ledger to do.

use vstd::prelude::*;
use crate::address::Address;

verus! {

/// An account as it stands when an instruction arrives.
#[derive(Clone, Debug, PartialEq, Eq)]
pub struct AccountSnapshot {
    pub key: Address,
    /// The program that owns the account.
    pub owner: Address,
    /// Whether the account signed the transaction.
    pub is_signer: bool,
    pub lamports: u64,
    pub data: Vec<u8>,
}

/// What the ledger tells beyond the accounts: the time, and the balance
/// that exempts an account of each width from rent.
#[derive(Clone, Copy, Debug, PartialEq, Eq)]
pub struct Environment {
    pub now: i64,
    pub rent_squad: u64,
    pub rent_mint: u64,
    pub rent_token_account: u64,
    pub rent_proposal: u64,
    pub rent_receipt: u64,
}

/// The program-derived address that signs an action, by the seeds it is
/// derived from, with its bump seed.
#[derive(Clone, Copy, Debug, PartialEq, Eq)]
pub enum Signer {
    /// No derived address signs.
    Nobody,
    /// The squad's own address.
    Squad { bump: u8 },
    /// The mint of the squad's governance token.
    Mint { bump: u8 },
    /// The squad's treasury.
    Treasury { bump: u8 },
    /// A member's equity account.
    Equity { member: Address, bump: u8 },
    /// The proposal with this index.
    Proposal { index: u32, bump: u8 },
    /// A voter's receipt.
    Receipt { voter: Address, bump: u8 },
    /// The treasury's wrapped-native account.
    WrappedNative { bump: u8 },
}

/// One thing that the ledger is asked to do.
#[derive(Clone, Copy, Debug, PartialEq, Eq)]
pub enum Action {
    /// Move native currency.
    Transfer { from: Address, to: Address, lamports: u64, signer: Signer },
    /// Give an account its space.
    Allocate { account: Address, space: u64, signer: Signer },
    /// Hand an account to a program.
    Assign { account: Address, owner: Address, signer: Signer },
    /// Create an account with a balance, a space and an owner.
    CreateAccount {
        payer: Address,
        account: Address,
        lamports: u64,
        space: u64,
        owner: Address,
        signer: Signer,
    },
    /// Make an account a mint without decimals, under an authority.
    InitializeMint { mint: Address, authority: Address, signer: Signer },
    /// Make an account a token account of a mint, for an owner.
    InitializeTokenAccount { account: Address, mint: Address, owner: Address, signer: Signer },
    /// Mint tokens to an account.
    MintTo { mint: Address, account: Address, authority: Address, amount: u64, signer: Signer },
    /// Burn tokens of an account.
    Burn { account: Address, mint: Address, authority: Address, amount: u64, signer: Signer },
    /// Close a token account and send its balance on.
    CloseTokenAccount { account: Address, destination: Address, authority: Address, signer: Signer },
    /// Move tokens.
    TokenTransfer {
        source: Address,
        destination: Address,
        authority: Address,
        amount: u64,
        signer: Signer,
    },
    /// Create the associated token account of a wallet for a mint.
    CreateAssociatedTokenAccount { payer: Address, wallet: Address, mint: Address },
    /// Invoke the swap instruction that comes with the actions.
    InvokeSwap { signer: Signer },
}

/// The balance that an account needs: what exempts it from rent, and one
/// lamport at least.
pub open spec fn needed_balance(rent_exempt: u64) -> u64 {
    if rent_exempt == 0 {
        1
    } else {
        rent_exempt
    }
}

/// How an account comes to exist under a program with a given space. An
/// account that nobody funded is created in one step. One that holds
/// lamports already cannot be created: it is topped up to the balance it
/// needs, then given its space, then handed to its owner.
pub open spec fn provision_plan(
    payer: Address,
    account: Address,
    held: u64,
    rent_exempt: u64,
    space: u64,
    owner: Address,
    signer: Signer,
) -> Seq<Action> {
    if held == 0 {
        seq![
            Action::CreateAccount {
                payer,
                account,
                lamports: needed_balance(rent_exempt),
                space,
                owner,
                signer,
            },
        ]
    } else if needed_balance(rent_exempt) > held {
        seq![
            Action::Transfer {
                from: payer,
                to: account,
                lamports: (needed_balance(rent_exempt) - held) as u64,
                signer: Signer::Nobody,
            },
            Action::Allocate { account, space, signer },
            Action::Assign { account, owner, signer },
        ]
    } else {
        seq![Action::Allocate { account, space, signer }, Action::Assign { account, owner, signer }]
    }
}

/// Appends the actions that bring an account into existence.
pub fn provision(
    actions: &mut Vec<Action>,
    payer: &Address,
    account: &Address,
    held: u64,
    rent_exempt: u64,
    space: u64,
    owner: &Address,
    signer: Signer,
)
    ensures
        final(actions)@ == old(actions)@ + provision_plan(
            *payer,
            *account,
            held,
            rent_exempt,
            space,
            *owner,
            signer,
        ),
{
    let needed: u64 = if rent_exempt == 0 {
        1
    } else {
        rent_exempt
    };
    if held == 0 {
        actions.push(
            Action::CreateAccount {
                payer: *payer,
                account: *account,
                lamports: needed,
                space,
                owner: *owner,
                signer,
            },
        );
    } else {
        if needed > held {
            actions.push(
                Action::Transfer {
                    from: *payer,
                    to: *account,
                    lamports: needed - held,
                    signer: Signer::Nobody,
                },
            );
        }
        actions.push(Action::Allocate { account: *account, space, signer });
        actions.push(Action::Assign { account: *account, owner: *owner, signer });
    }
    assert(actions@ =~= old(actions)@ + provision_plan(
        *payer,
        *account,
        held,
        rent_exempt,
        space,
        *owner,
        signer,
    ));
}

} // verus!
