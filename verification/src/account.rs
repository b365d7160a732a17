//! The accounts that the host hands to an invocation, and what the
//! invocation asks of the host in return.

use vstd::prelude::*;
use crate::address::Address;
use crate::authority::{Authority, AuthorityView};
use crate::system::{Instruction, InstructionView};

verus! {

/// What the escrow reads of one account.
#[derive(Debug, Clone, PartialEq, Eq)]
pub struct Account {
    /// The address of the account.
    pub key: Address,
    /// Whether the account has signed the transaction. The host verifies the
    /// signatures.
    pub is_signer: bool,
    /// The balance of the account in native token units.
    pub lamports: u64,
    /// The data stored in the account.
    pub data: Vec<u8>,
}

/// The mathematical value of an `Account`.
pub struct AccountView {
    pub key: Seq<u8>,
    pub is_signer: bool,
    pub lamports: u64,
    pub data: Seq<u8>,
}

impl View for Account {
    type V = AccountView;

    open spec fn view(&self) -> AccountView {
        AccountView {
            key: self.key@,
            is_signer: self.is_signer,
            lamports: self.lamports,
            data: self.data@,
        }
    }
}

/// The values of the accounts in a list.
pub open spec fn views(accounts: Seq<Account>) -> Seq<AccountView> {
    accounts.map_values(|account: Account| account@)
}

/// A request to the host to execute an instruction on behalf of the escrow.
#[derive(Debug, Clone, PartialEq, Eq)]
pub struct Invocation {
    /// The instruction to execute.
    pub instruction: Instruction,
    /// The accounts handed to the host with the instruction, by their
    /// positions in the list of accounts that the escrow was invoked with.
    pub accounts: Vec<usize>,
    /// `None` where the source of the funds has signed the transaction
    /// itself; else the authority under which the host countersigns.
    pub authority: Option<Authority>,
    /// Whether a failure of the instruction aborts the invocation of the
    /// escrow.
    pub abort_on_failure: bool,
}

/// The mathematical value of an `Invocation`.
pub struct InvocationView {
    pub instruction: InstructionView,
    pub accounts: Seq<usize>,
    pub authority: Option<AuthorityView>,
    pub abort_on_failure: bool,
}

impl View for Invocation {
    type V = InvocationView;

    open spec fn view(&self) -> InvocationView {
        InvocationView {
            instruction: self.instruction@,
            accounts: self.accounts@,
            authority: match self.authority {
                Some(authority) => Some(authority@),
                None => None,
            },
            abort_on_failure: self.abort_on_failure,
        }
    }
}

impl Invocation {
    /// Decides how the invocation of the escrow goes on once the host has
    /// executed the instruction: a failure is handed on where it aborts, and
    /// passed over where it does not.
    pub fn settle<E>(&self, executed: Result<(), E>) -> (r: Result<(), E>)
        ensures
            self.abort_on_failure ==> r == executed,
            !self.abort_on_failure ==> r is Ok,
    {
        if self.abort_on_failure {
            executed
        } else {
            Ok(())
        }
    }
}

/// New contents for the data of an account.
#[derive(Debug, Clone, PartialEq, Eq)]
pub struct Store {
    /// The position of the account in the list of accounts.
    pub account: usize,
    /// The bytes to store.
    pub data: Vec<u8>,
}

/// The mathematical value of a `Store`.
pub struct StoreView {
    pub account: usize,
    pub data: Seq<u8>,
}

impl View for Store {
    type V = StoreView;

    open spec fn view(&self) -> StoreView {
        StoreView { account: self.account, data: self.data@ }
    }
}

/// What a successful invocation of the escrow asks of the host: first to
/// store the record, then to execute the instructions in their order.
#[derive(Debug, Clone, PartialEq, Eq)]
pub struct Outcome {
    pub store: Option<Store>,
    pub invocations: Vec<Invocation>,
}

/// The mathematical value of an `Outcome`.
pub struct OutcomeView {
    pub store: Option<StoreView>,
    pub invocations: Seq<InvocationView>,
}

impl View for Outcome {
    type V = OutcomeView;

    open spec fn view(&self) -> OutcomeView {
        OutcomeView {
            store: match self.store {
                Some(store) => Some(store@),
                None => None,
            },
            invocations: self.invocations@.map_values(|invocation: Invocation| invocation@),
        }
    }
}

/// Relates what a handler returns to what it is specified to return.
pub open spec fn yields(
    r: Result<Outcome, crate::error::ProgramError>,
    expected: Result<OutcomeView, crate::error::ProgramError>,
) -> bool {
    match r {
        Ok(outcome) => expected == Ok::<OutcomeView, crate::error::ProgramError>(outcome@),
        Err(e) => expected == Err::<OutcomeView, crate::error::ProgramError>(e),
    }
}

} // verus!
