//! The weather oracle: one mutable weather value behind an owner-only
//! setter and a contract-only getter. The getter does not return the
//! value; it answers by requesting one nested call back into the sending
//! contract, at the entry point the caller's parameter names, carrying the
//! current weather and no value.

use vstd::prelude::*;

verus! {

use crate::codec::{
    decode_receive_name, decode_weather, encode_weather, lemma_weather_roundtrip,
    spec_decode_receive_name, spec_decode_weather, spec_encode_weather,
};
use crate::types::{
    outcome_view, AccountAddress, Action, ActionV, Address, AddressV, ContractAddress, Error,
    Weather,
};

/// The outcome of `weather_init`: the stored value, or a rejection of a
/// payload that does not decode to a weather value.
pub open spec fn spec_weather_init(params: Seq<u8>) -> Result<Weather, Error> {
    match spec_decode_weather(params) {
        Some(w) => Ok(w),
        None => Err(Error::ParameterDecodeError),
    }
}

/// The outcome of `weather_set` and the value stored afterwards. Only the
/// owning account may set; anyone else is turned away with the stored
/// value untouched.
pub open spec fn spec_weather_set(
    owner: Seq<u8>,
    sender: AddressV,
    params: Seq<u8>,
    st: Weather,
) -> (Result<ActionV, Error>, Weather) {
    match sender {
        AddressV::Account(a) => if a == owner {
            match spec_decode_weather(params) {
                Some(w) => (Ok(ActionV::Accept), w),
                None => (Err(Error::ParameterDecodeError), st),
            }
        } else {
            (Err(Error::Unauthorized), st)
        },
        AddressV::Contract(_) => (Err(Error::Unauthorized), st),
    }
}

/// The outcome of `weather_get`: for a contract sender with a valid
/// callback descriptor, exactly one nested call back to the sender at the
/// named entry point, carrying the encoded weather and zero value.
pub open spec fn spec_weather_get(sender: AddressV, params: Seq<u8>, st: Weather) -> Result<
    ActionV,
    Error,
> {
    match sender {
        AddressV::Account(_) => Err(Error::Unauthorized),
        AddressV::Contract(c) => match spec_decode_receive_name(params) {
            Some(name) => Ok(
                ActionV::Send {
                    to: c,
                    receive_name: name,
                    amount: 0,
                    parameter: spec_encode_weather(st),
                },
            ),
            None => Err(Error::ParameterDecodeError),
        },
    }
}

/// Compares two account addresses byte for byte.
pub fn account_eq(a: &AccountAddress, b: &AccountAddress) -> (r: bool)
    ensures
        r == (a@ == b@),
{
    if a.0.len() != b.0.len() {
        return false;
    }
    let mut i: usize = 0;
    while i < a.0.len()
        invariant
            i <= a.0@.len(),
            a.0@.len() == b.0@.len(),
            forall|j: int| 0 <= j < i ==> a.0@[j] == b.0@[j],
        decreases a.0@.len() - i,
    {
        if a.0[i] != b.0[i] {
            return false;
        }
        i += 1;
    }
    proof {
        assert(a@ =~= b@);
    }
    true
}

/// Creates the oracle's state from the init parameter: the initial
/// weather, decoded or rejected.
pub fn weather_init(params: &[u8]) -> (r: Result<Weather, Error>)
    ensures
        r == spec_weather_init(params@),
{
    decode_weather(params)
}

/// Overwrites the stored weather with the value the parameter carries.
/// Only the account that owns the contract may call; any other sender
/// fails Unauthorized and the stored value is unchanged. No history is
/// kept.
pub fn weather_set(
    owner: &AccountAddress,
    sender: &Address,
    params: &[u8],
    state: &mut Weather,
) -> (r: Result<Action, Error>)
    ensures
        ({
            let (sr, sw) = spec_weather_set(owner@, sender@, params@, *old(state));
            &&& outcome_view(r) == sr
            &&& *final(state) == sw
        }),
{
    match sender {
        Address::Account(a) => {
            if account_eq(a, owner) {
                match decode_weather(params) {
                    Ok(w) => {
                        *state = w;
                        Ok(Action::Accept)
                    },
                    Err(e) => Err(e),
                }
            } else {
                Err(Error::Unauthorized)
            }
        },
        Address::Contract(_) => Err(Error::Unauthorized),
    }
}

/// Answers the current weather. Only a contract may call, since a plain
/// account has no entry point to call back into; the parameter names the
/// callback. The oracle does not check that the name exists on the
/// sender: it trusts the descriptor and the callee's own state guard.
pub fn weather_get(sender: &Address, params: &[u8], state: &Weather) -> (r: Result<Action, Error>)
    ensures
        outcome_view(r) == spec_weather_get(sender@, params@, *state),
{
    match sender {
        Address::Account(_) => Err(Error::Unauthorized),
        Address::Contract(c) => {
            match decode_receive_name(params) {
                Ok(name) => Ok(
                    Action::Send {
                        to: *c,
                        receive_name: name,
                        amount: 0,
                        parameter: encode_weather(state),
                    },
                ),
                Err(e) => Err(e),
            }
        },
    }
}

/// Law: a plain account can never read the weather: `get` from any
/// account sender fails Unauthorized, whatever the parameter and the
/// stored value.
pub proof fn lemma_get_from_account_unauthorized(sender: AddressV, params: Seq<u8>, st: Weather)
    requires
        sender is Account,
    ensures
        spec_weather_get(sender, params, st) == Err::<ActionV, Error>(Error::Unauthorized),
{
}

/// Law: any contract sender with a well-formed callback descriptor is
/// answered with exactly one nested call back into itself, at the named
/// entry point, carrying the current weather and zero value.
pub proof fn lemma_get_from_contract(c: ContractAddress, params: Seq<u8>, st: Weather)
    requires
        spec_decode_receive_name(params) is Some,
    ensures
        spec_weather_get(AddressV::Contract(c), params, st) == Ok::<ActionV, Error>(
            ActionV::Send {
                to: c,
                receive_name: spec_decode_receive_name(params).unwrap(),
                amount: 0,
                parameter: spec_encode_weather(st),
            },
        ),
{
}

/// Law: a non-owner can never change the weather: `set` fails
/// Unauthorized and leaves the stored value unchanged.
pub proof fn lemma_set_by_non_owner_unauthorized(
    owner: Seq<u8>,
    sender: AddressV,
    params: Seq<u8>,
    st: Weather,
)
    requires
        !(sender matches AddressV::Account(a) && a == owner),
    ensures
        spec_weather_set(owner, sender, params, st) == (
            Err::<ActionV, Error>(Error::Unauthorized),
            st,
        ),
{
}

/// Law: a `set` by the owner with a well-formed parameter always
/// succeeds, and a `get` that follows hands out exactly the new value:
/// the payload of the nested call is the encoding of what was set, and it
/// decodes back to it.
pub proof fn lemma_set_then_get(
    owner: Seq<u8>,
    set_params: Seq<u8>,
    c: ContractAddress,
    get_params: Seq<u8>,
    st: Weather,
)
    requires
        spec_decode_weather(set_params) is Some,
        spec_decode_receive_name(get_params) is Some,
    ensures
        ({
            let (sr, new_w) = spec_weather_set(owner, AddressV::Account(owner), set_params, st);
            &&& sr == Ok::<ActionV, Error>(ActionV::Accept)
            &&& new_w == spec_decode_weather(set_params).unwrap()
            &&& spec_weather_get(AddressV::Contract(c), get_params, new_w) == Ok::<
                ActionV,
                Error,
            >(
                ActionV::Send {
                    to: c,
                    receive_name: spec_decode_receive_name(get_params).unwrap(),
                    amount: 0,
                    parameter: spec_encode_weather(new_w),
                },
            )
            &&& spec_decode_weather(spec_encode_weather(new_w)) == Some(new_w)
        }),
{
    let (sr, new_w) = spec_weather_set(owner, AddressV::Account(owner), set_params, st);
    lemma_weather_roundtrip(new_w);
}

} // verus!
