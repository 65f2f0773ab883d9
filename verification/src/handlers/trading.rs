//! Switching between the paper account and the live account.
use vstd::prelude::*;
use crate::account_type::{AccountType, AccountTypeState};

verus! {

/// What follows a switch of account kind.
#[derive(Debug, Clone, Copy, PartialEq, Eq, Structural)]
pub enum AccountSwitch {
    /// Nothing more (the paper account was selected).
    Stay,
    /// The live account was selected and the provider has its key and secret: fetch the
    /// account's balances.
    FetchAccountInfo,
    /// The live account was selected but the provider lacks its key or secret.
    ConfigureProvider,
}

/// The other account kind.
pub open spec fn other_kind(k: AccountType) -> AccountType {
    match k {
        AccountType::Demo => AccountType::Real,
        AccountType::Real => AccountType::Demo,
    }
}

/// Switches between the paper and the live account. Moving to the live account asks
/// for its balances when the provider has credentials (`has_credentials`), and for
/// them otherwise.
pub fn toggle_account_type(state: &mut AccountTypeState, has_credentials: bool) -> (next: AccountSwitch)
    ensures
        final(state).account_type == other_kind(old(state).account_type),
        next == if old(state).account_type == AccountType::Demo {
            if has_credentials { AccountSwitch::FetchAccountInfo } else { AccountSwitch::ConfigureProvider }
        } else {
            AccountSwitch::Stay
        },
{
    let was_demo = state.is_demo();
    let new_type = if was_demo { AccountType::Real } else { AccountType::Demo };
    state.set_account_type(new_type);
    if was_demo && state.is_real() {
        if has_credentials {
            AccountSwitch::FetchAccountInfo
        } else {
            AccountSwitch::ConfigureProvider
        }
    } else {
        AccountSwitch::Stay
    }
}

/// Switching the account kind twice selects the kind it started from.
pub proof fn law_toggle_account_twice(k: AccountType)
    ensures
        other_kind(other_kind(k)) == k,
{
}

} // verus!
