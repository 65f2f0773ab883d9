//! Account kind (paper trading versus live trading) and its state.
use vstd::prelude::*;

verus! {

/// Kind of trading account.
#[derive(Debug, Clone, Copy, PartialEq, Eq, Structural)]
pub enum AccountType {
    /// Paper account: simulated orders, nothing is sent to the exchange.
    Demo,
    /// Live account bound to the active provider.
    Real,
}

/// Which account kind is currently selected.
#[derive(Debug, Clone)]
pub struct AccountTypeState {
    pub account_type: AccountType,
}

impl AccountTypeState {
    /// A fresh state starts on the paper account, for safety.
    pub fn new() -> (s: Self)
        ensures
            s.account_type == AccountType::Demo,
    {
        AccountTypeState { account_type: AccountType::Demo }
    }

    /// Selects the account kind.
    pub fn set_account_type(&mut self, account_type: AccountType)
        ensures
            final(self).account_type == account_type,
    {
        self.account_type = account_type;
    }

    /// Whether the paper account is selected.
    pub fn is_demo(&self) -> (b: bool)
        ensures
            b == (self.account_type == AccountType::Demo),
    {
        self.account_type == AccountType::Demo
    }

    /// Whether the live account is selected.
    pub fn is_real(&self) -> (b: bool)
        ensures
            b == (self.account_type == AccountType::Real),
    {
        self.account_type == AccountType::Real
    }
}

impl Default for AccountTypeState {
    /// The paper account.
    fn default() -> (s: Self)
        ensures
            s.account_type == AccountType::Demo,
    {
        AccountTypeState::new()
    }
}

} // verus!
