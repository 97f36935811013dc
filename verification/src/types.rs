use vstd::prelude::*;

verus! {

/// The value held by the weather oracle; replaced wholesale on each `set`.
#[derive(Clone, Copy, Debug, PartialEq, Eq, Structural)]
pub enum Weather {
    Rainy,
    Sunny,
}

/// Why an entry point rejected a call. Any rejection aborts the whole
/// transaction on the host; nothing is partially applied.
#[derive(Clone, Copy, Debug, PartialEq, Eq, Structural)]
pub enum Error {
    /// The parameter bytes are malformed, truncated, or carry an invalid tag.
    ParameterDecodeError,
    /// The sender failed an identity check.
    Unauthorized,
    /// The state machine refuses the call in its current phase.
    InvalidState,
    /// Any other contract-detected violation.
    Reject,
}

/// The number of bytes in an account address.
pub const ACCOUNT_ADDRESS_LEN: usize = 32;

/// A ledger account identifier: a fixed-width byte array.
#[derive(Clone, Debug, PartialEq, Eq)]
pub struct AccountAddress(pub Vec<u8>);

impl View for AccountAddress {
    type V = Seq<u8>;

    open spec fn view(&self) -> Seq<u8> {
        self.0@
    }
}

impl AccountAddress {
    /// A well-formed address holds exactly `ACCOUNT_ADDRESS_LEN` bytes.
    pub open spec fn wf(&self) -> bool {
        self@.len() == ACCOUNT_ADDRESS_LEN
    }

    /// Copies the address, byte for byte.
    pub fn duplicate(&self) -> (r: AccountAddress)
        ensures
            r@ == self@,
    {
        let mut bytes: Vec<u8> = Vec::new();
        let mut i: usize = 0;
        while i < self.0.len()
            invariant
                i <= self.0@.len(),
                bytes@ == self.0@.subrange(0, i as int),
            decreases self.0@.len() - i,
        {
            bytes.push(self.0[i]);
            i += 1;
            proof {
                assert(bytes@ =~= self.0@.subrange(0, i as int));
            }
        }
        proof {
            assert(bytes@ =~= self.0@);
        }
        AccountAddress(bytes)
    }
}

/// A ledger contract identifier.
#[derive(Clone, Copy, Debug, PartialEq, Eq, Structural)]
pub struct ContractAddress {
    pub index: u64,
    pub subindex: u64,
}

/// The immediate caller of an entry point: a plain account or a contract.
#[derive(Clone, Debug, PartialEq, Eq)]
pub enum Address {
    Account(AccountAddress),
    Contract(ContractAddress),
}

/// Spec-level model of an `Address`.
pub enum AddressV {
    Account(Seq<u8>),
    Contract(ContractAddress),
}

impl View for Address {
    type V = AddressV;

    open spec fn view(&self) -> AddressV {
        match self {
            Address::Account(a) => AddressV::Account(a@),
            Address::Contract(c) => AddressV::Contract(*c),
        }
    }
}

/// An amount of currency, in the host ledger's base unit.
pub type Amount = u64;

/// A request the entry point hands back for the host to perform.
#[derive(Clone, Debug, PartialEq, Eq)]
pub enum Action {
    /// Invoke `receive_name` on the contract `to`, attaching `amount` and
    /// the serialized `parameter` bytes.
    Send { to: ContractAddress, receive_name: Vec<u8>, amount: Amount, parameter: Vec<u8> },
    /// Transfer `amount` to the account `to`.
    SimpleTransfer { to: AccountAddress, amount: Amount },
    /// Do nothing; accept the call.
    Accept,
}

/// Spec-level model of an `Action`.
pub enum ActionV {
    Send { to: ContractAddress, receive_name: Seq<u8>, amount: Amount, parameter: Seq<u8> },
    SimpleTransfer { to: Seq<u8>, amount: Amount },
    Accept,
}

impl View for Action {
    type V = ActionV;

    open spec fn view(&self) -> ActionV {
        match self {
            Action::Send { to, receive_name, amount, parameter } => ActionV::Send {
                to: *to,
                receive_name: receive_name@,
                amount: *amount,
                parameter: parameter@,
            },
            Action::SimpleTransfer { to, amount } => ActionV::SimpleTransfer {
                to: to@,
                amount: *amount,
            },
            Action::Accept => ActionV::Accept,
        }
    }
}

/// The view of an entry point's result, for stating outcomes in contracts.
pub open spec fn outcome_view(r: Result<Action, Error>) -> Result<ActionV, Error> {
    match r {
        Ok(a) => Ok(a@),
        Err(e) => Err(e),
    }
}

} // verus!
