//! Accounts of a browser extension, as far as the game shows them.
use vstd::prelude::*;
use crate::support::SupportedParachainRuntime;

verus! {

/// How far the choice of an account is.
pub enum AccountStatus {
    Unset,
    /// The browser extension has been asked for its accounts.
    Requesting,
    /// The player is to choose one of the accounts.
    Selection(Vec<Account>),
    /// An account has been chosen.
    Selected,
    /// The result given is being signed.
    Signing(String),
}

/// The account the game knows of.
pub struct AccountState {
    /// How far the choice of an account is.
    pub status: AccountStatus,
    /// The account chosen.
    pub account: Option<Account>,
    /// The parachain on which results are kept.
    pub runtime: SupportedParachainRuntime,
}

impl AccountState {
    /// The state before any account is known.
    pub fn new(runtime: SupportedParachainRuntime) -> (state: Self)
        ensures
            state.status is Unset,
            state.account is None,
            state.runtime == runtime,
    {
        Self { status: AccountStatus::Unset, account: None, runtime }
    }

    /// Whether nothing has been done about an account yet.
    pub fn is_none(&self) -> (b: bool)
        ensures
            b == (self.status is Unset),
    {
        match &self.status {
            AccountStatus::Unset => true,
            _ => false,
        }
    }

    /// Whether an account has been chosen and can sign.
    pub fn is_available(&self) -> (b: bool)
        ensures
            b == (self.status is Selected),
    {
        match &self.status {
            AccountStatus::Selected => true,
            _ => false,
        }
    }
}

/// How the signing of a result ended.
#[derive(Debug, Clone, Copy, PartialEq, Eq, Structural)]
pub enum SigningStatus {
    Succeeded,
    Failed,
}

/// An account as a browser extension lists it.
#[derive(Debug, PartialEq, Eq)]
pub struct Account {
    /// Name of the account.
    pub name: String,
    /// Name of the browser extension.
    pub source: String,
    /// The kind of signature, "sr25519" or "ed25519".
    pub ty: String,
    /// The address in SS58 format.
    pub address: String,
}

/// An account as a mathematical value.
pub struct AccountView {
    pub name: Seq<char>,
    pub source: Seq<char>,
    pub ty: Seq<char>,
    pub address: Seq<char>,
}

impl View for Account {
    type V = AccountView;

    open spec fn view(&self) -> AccountView {
        AccountView {
            name: self.name@,
            source: self.source@,
            ty: self.ty@,
            address: self.address@,
        }
    }
}

impl Clone for Account {
    fn clone(&self) -> (copy: Self)
        ensures
            copy@ == self@,
    {
        Account {
            name: self.name.clone(),
            source: self.source.clone(),
            ty: self.ty.clone(),
            address: self.address.clone(),
        }
    }
}

} // verus!
