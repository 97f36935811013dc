//! The icecream vendor: a two-phase state machine around an escrowed
//! payment. `buy_icecream` records whom the icecream is for, moves the
//! machine to waiting, and asks the oracle for the weather, naming
//! `receive_weather` as the callback; `receive_weather` settles the
//! escrow on the answer and arms the machine again. The waiting phase is
//! a reentrancy guard: within the one atomic transaction it rejects any
//! unexpected second invocation of either entry point, whether from a
//! buggy host or a malicious oracle.
//!
//! The escrow is not a field of the state: it is whatever balance the
//! vendor contract holds at settlement time, created by the payment
//! attached to `buy_icecream` and drained by the transfer issued in
//! `receive_weather`.

use vstd::prelude::*;

verus! {

use crate::codec::{
    decode_account_address, decode_contract_address, decode_weather, lemma_receive_name_roundtrip,
    lemma_weather_roundtrip, spec_decode_account_address, spec_decode_contract_address,
    spec_decode_receive_name, spec_decode_weather, spec_encode_receive_name, spec_encode_weather,
    valid_name_byte, valid_receive_name,
};
use crate::oracle::spec_weather_get;
use crate::types::{
    outcome_view, AccountAddress, Action, ActionV, AddressV, Amount, ContractAddress, Error,
    Weather, ACCOUNT_ADDRESS_LEN,
};

/// The vendor's phase: ready for a purchase, or waiting for the oracle's
/// callback with the account the icecream is for recorded.
#[derive(Clone, Debug, PartialEq, Eq)]
pub enum StateMachine {
    ReadyToBuy,
    WaitingForWeather { icecream_vendor: AccountAddress },
}

/// The vendor's state: the oracle it queries, and the phase.
#[derive(Clone, Debug, PartialEq, Eq)]
pub struct State {
    pub weather_service: ContractAddress,
    pub current_state: StateMachine,
}

/// Spec-level model of the phase.
pub enum PhaseV {
    ReadyToBuy,
    WaitingForWeather { icecream_vendor: Seq<u8> },
}

/// Spec-level model of the vendor's state.
pub struct StateV {
    pub weather_service: ContractAddress,
    pub current_state: PhaseV,
}

impl View for StateMachine {
    type V = PhaseV;

    open spec fn view(&self) -> PhaseV {
        match self {
            StateMachine::ReadyToBuy => PhaseV::ReadyToBuy,
            StateMachine::WaitingForWeather { icecream_vendor } => PhaseV::WaitingForWeather {
                icecream_vendor: icecream_vendor@,
            },
        }
    }
}

impl View for State {
    type V = StateV;

    open spec fn view(&self) -> StateV {
        StateV { weather_service: self.weather_service, current_state: self.current_state@ }
    }
}

impl StateV {
    /// The state's invariant: while waiting, the recorded account is a
    /// full-width address.
    pub open spec fn wf(&self) -> bool {
        match self.current_state {
            PhaseV::ReadyToBuy => true,
            PhaseV::WaitingForWeather { icecream_vendor } => icecream_vendor.len()
                == ACCOUNT_ADDRESS_LEN,
        }
    }
}

/// The entry point of the oracle the vendor queries.
pub open spec fn weather_get_name() -> Seq<u8> {
    seq![0x77, 0x65, 0x61, 0x74, 0x68, 0x65, 0x72, 0x2e, 0x67, 0x65, 0x74]
}

/// The vendor's own callback entry point, named in the oracle request.
pub open spec fn receive_weather_name() -> Seq<u8> {
    seq![
        0x69,
        0x63,
        0x65,
        0x63,
        0x72,
        0x65,
        0x61,
        0x6d,
        0x2e,
        0x72,
        0x65,
        0x63,
        0x65,
        0x69,
        0x76,
        0x65,
        0x5f,
        0x77,
        0x65,
        0x61,
        0x74,
        0x68,
        0x65,
        0x72,
    ]
}

/// Law: the callback name the vendor hands the oracle is a valid
/// entry-point name, so the oracle's decoding accepts it.
pub proof fn lemma_receive_weather_name_valid()
    ensures
        valid_receive_name(receive_weather_name()),
{
    let s = receive_weather_name();
    assert(s.len() == 24);
    assert(s[8] == 0x2eu8);
    assert(forall|i: int| 0 <= i < s.len() ==> valid_name_byte(#[trigger] s[i]));
}

/// The state a fresh vendor starts in.
pub open spec fn spec_initial_state(weather_service: ContractAddress) -> StateV {
    StateV { weather_service, current_state: PhaseV::ReadyToBuy }
}

/// The outcome of `contract_init`: a ready state pointing at the oracle
/// the parameter names, or a rejection of a malformed payload.
pub open spec fn spec_contract_init(params: Seq<u8>) -> Result<StateV, Error> {
    match spec_decode_contract_address(params) {
        Some(ws) => Ok(spec_initial_state(ws)),
        None => Err(Error::ParameterDecodeError),
    }
}

/// The outcome of `buy_icecream` and the state afterwards. Valid only
/// while ready: the machine records the account the parameter names and
/// issues one oracle request whose payload is the vendor's callback
/// descriptor; the request itself carries no value. In any other phase,
/// or on a malformed parameter, nothing changes.
pub open spec fn spec_buy_icecream(params: Seq<u8>, st: StateV) -> (Result<ActionV, Error>, StateV) {
    match st.current_state {
        PhaseV::ReadyToBuy => match spec_decode_account_address(params) {
            Some(v) => (
                Ok(
                    ActionV::Send {
                        to: st.weather_service,
                        receive_name: weather_get_name(),
                        amount: 0,
                        parameter: spec_encode_receive_name(receive_weather_name()),
                    },
                ),
                StateV {
                    weather_service: st.weather_service,
                    current_state: PhaseV::WaitingForWeather { icecream_vendor: v },
                },
            ),
            None => (Err(Error::ParameterDecodeError), st),
        },
        PhaseV::WaitingForWeather { .. } => (Err(Error::InvalidState), st),
    }
}

/// The outcome of `receive_weather` and the state afterwards. Valid only
/// while waiting: on Rainy the whole balance goes back to the
/// transaction's original invoker, on Sunny it goes to the recorded
/// account, and the machine is ready again. While ready, the callback is
/// unsolicited and fails InvalidState; a malformed payload changes
/// nothing.
pub open spec fn spec_receive_weather(
    invoker: Seq<u8>,
    self_balance: Amount,
    params: Seq<u8>,
    st: StateV,
) -> (Result<ActionV, Error>, StateV) {
    match st.current_state {
        PhaseV::ReadyToBuy => (Err(Error::InvalidState), st),
        PhaseV::WaitingForWeather { icecream_vendor } => match spec_decode_weather(params) {
            Some(Weather::Rainy) => (
                Ok(ActionV::SimpleTransfer { to: invoker, amount: self_balance }),
                spec_initial_state(st.weather_service),
            ),
            Some(Weather::Sunny) => (
                Ok(ActionV::SimpleTransfer { to: icecream_vendor, amount: self_balance }),
                spec_initial_state(st.weather_service),
            ),
            None => (Err(Error::ParameterDecodeError), st),
        },
    }
}

/// Builds the oracle entry-point name for the request.
fn weather_get_name_vec() -> (r: Vec<u8>)
    ensures
        r@ == weather_get_name(),
{
    let mut v: Vec<u8> = Vec::new();
    v.push(0x77);
    v.push(0x65);
    v.push(0x61);
    v.push(0x74);
    v.push(0x68);
    v.push(0x65);
    v.push(0x72);
    v.push(0x2e);
    v.push(0x67);
    v.push(0x65);
    v.push(0x74);
    proof {
        assert(v@ =~= weather_get_name());
    }
    v
}

/// Builds the request payload: the vendor's callback descriptor in its
/// wire form, two length bytes then the name.
fn receive_weather_param_vec() -> (r: Vec<u8>)
    ensures
        r@ == spec_encode_receive_name(receive_weather_name()),
{
    let mut v: Vec<u8> = Vec::new();
    v.push(24);
    v.push(0);
    v.push(0x69);
    v.push(0x63);
    v.push(0x65);
    v.push(0x63);
    v.push(0x72);
    v.push(0x65);
    v.push(0x61);
    v.push(0x6d);
    v.push(0x2e);
    v.push(0x72);
    v.push(0x65);
    v.push(0x63);
    v.push(0x65);
    v.push(0x69);
    v.push(0x76);
    v.push(0x65);
    v.push(0x5f);
    v.push(0x77);
    v.push(0x65);
    v.push(0x61);
    v.push(0x74);
    v.push(0x68);
    v.push(0x65);
    v.push(0x72);
    proof {
        assert(v@ =~= spec_encode_receive_name(receive_weather_name()));
    }
    v
}

/// Creates the vendor's state from the init parameter: the oracle's
/// address, with the machine ready to buy.
pub fn contract_init(params: &[u8]) -> (r: Result<State, Error>)
    ensures
        match spec_contract_init(params@) {
            Ok(sv) => r matches Ok(st) && st@ == sv,
            Err(e) => r == Err::<State, Error>(e),
        },
{
    match decode_contract_address(params) {
        Ok(weather_service) => Ok(
            State { weather_service, current_state: StateMachine::ReadyToBuy },
        ),
        Err(e) => Err(e),
    }
}

/// Escrows the attached payment and asks the oracle for the weather. The
/// parameter names the account the icecream is bought for; the payment
/// itself stays in the vendor's balance, and the oracle request carries
/// no value. Valid only while ready to buy: at most one outstanding
/// request, no queuing.
pub fn contract_buy_icecream(_amount: Amount, params: &[u8], state: &mut State) -> (r: Result<
    Action,
    Error,
>)
    ensures
        ({
            let (sr, sst) = spec_buy_icecream(params@, old(state)@);
            &&& outcome_view(r) == sr
            &&& final(state)@ == sst
        }),
{
    match &state.current_state {
        StateMachine::WaitingForWeather { .. } => Err(Error::InvalidState),
        StateMachine::ReadyToBuy => {
            match decode_account_address(params) {
                Ok(v) => {
                    let to = state.weather_service;
                    state.current_state = StateMachine::WaitingForWeather { icecream_vendor: v };
                    Ok(
                        Action::Send {
                            to,
                            receive_name: weather_get_name_vec(),
                            amount: 0,
                            parameter: receive_weather_param_vec(),
                        },
                    )
                },
                Err(e) => Err(e),
            }
        },
    }
}

/// Settles the escrow on the oracle's answer. On Rainy the whole current
/// balance is refunded to the transaction's original invoker; on Sunny it
/// is paid to the recorded account; either way the machine is ready for
/// the next purchase. Valid only while waiting for weather: an
/// unsolicited or duplicate callback fails InvalidState.
pub fn contract_receive_weather(
    invoker: &AccountAddress,
    self_balance: Amount,
    params: &[u8],
    state: &mut State,
) -> (r: Result<Action, Error>)
    ensures
        ({
            let (sr, sst) = spec_receive_weather(invoker@, self_balance, params@, old(state)@);
            &&& outcome_view(r) == sr
            &&& final(state)@ == sst
        }),
{
    match &state.current_state {
        StateMachine::ReadyToBuy => Err(Error::InvalidState),
        StateMachine::WaitingForWeather { icecream_vendor } => {
            match decode_weather(params) {
                Ok(w) => {
                    let to = match w {
                        Weather::Rainy => invoker.duplicate(),
                        Weather::Sunny => icecream_vendor.duplicate(),
                    };
                    state.current_state = StateMachine::ReadyToBuy;
                    Ok(Action::SimpleTransfer { to, amount: self_balance })
                },
                Err(e) => Err(e),
            }
        },
    }
}

/// Law: while waiting for weather, a purchase attempt always fails
/// InvalidState and the state is unchanged; no action, and so no balance
/// movement, is requested.
pub proof fn lemma_buy_while_waiting(params: Seq<u8>, st: StateV)
    requires
        st.current_state is WaitingForWeather,
    ensures
        spec_buy_icecream(params, st) == (Err::<ActionV, Error>(Error::InvalidState), st),
{
}

/// Law: while ready to buy, a purchase naming a full-width account always
/// moves the machine to waiting for exactly that account, and issues
/// exactly one oracle request whose payload decodes to the vendor's
/// `receive_weather` callback.
pub proof fn lemma_buy_while_ready(params: Seq<u8>, st: StateV)
    requires
        st.current_state is ReadyToBuy,
        spec_decode_account_address(params) is Some,
    ensures
        ({
            let (r, st2) = spec_buy_icecream(params, st);
            &&& r == Ok::<ActionV, Error>(
                ActionV::Send {
                    to: st.weather_service,
                    receive_name: weather_get_name(),
                    amount: 0,
                    parameter: spec_encode_receive_name(receive_weather_name()),
                },
            )
            &&& st2 == StateV {
                weather_service: st.weather_service,
                current_state: PhaseV::WaitingForWeather {
                    icecream_vendor: spec_decode_account_address(params).unwrap(),
                },
            }
            &&& spec_decode_receive_name(spec_encode_receive_name(receive_weather_name()))
                == Some(receive_weather_name())
        }),
{
    lemma_receive_weather_name_valid();
    lemma_receive_name_roundtrip(receive_weather_name());
}

/// Law: while ready to buy, the weather callback is unsolicited: it
/// always fails InvalidState and the state is unchanged.
pub proof fn lemma_receive_while_ready(
    invoker: Seq<u8>,
    self_balance: Amount,
    params: Seq<u8>,
    st: StateV,
)
    requires
        st.current_state is ReadyToBuy,
    ensures
        spec_receive_weather(invoker, self_balance, params, st) == (
            Err::<ActionV, Error>(Error::InvalidState),
            st,
        ),
{
}

/// Law: a settled vendor is as good as a fresh one. Whenever
/// `receive_weather` succeeds, the state afterwards is exactly the
/// initial state for the same oracle, so any later purchase behaves as on
/// a freshly initialized contract.
pub proof fn lemma_settlement_resets(
    invoker: Seq<u8>,
    self_balance: Amount,
    params: Seq<u8>,
    st: StateV,
    later_params: Seq<u8>,
)
    requires
        spec_receive_weather(invoker, self_balance, params, st).0 is Ok,
    ensures
        spec_receive_weather(invoker, self_balance, params, st).1 == spec_initial_state(
            st.weather_service,
        ),
        spec_buy_icecream(
            later_params,
            spec_receive_weather(invoker, self_balance, params, st).1,
        ) == spec_buy_icecream(later_params, spec_initial_state(st.weather_service)),
{
}

/// Law: the whole purchase chain, for either weather. From a ready
/// vendor, `buy_icecream` issues one oracle request; the oracle, called
/// by the vendor contract with that request's payload, answers with one
/// nested call into the vendor's `receive_weather` carrying its current
/// weather; and that callback pays the whole balance to the recorded
/// account on Sunny, refunds it to the original invoker on Rainy, and
/// leaves the machine ready to buy again.
pub proof fn lemma_purchase_chain(
    st: StateV,
    buy_params: Seq<u8>,
    vendor_contract: ContractAddress,
    w: Weather,
    invoker: Seq<u8>,
    self_balance: Amount,
)
    requires
        st.current_state is ReadyToBuy,
        spec_decode_account_address(buy_params) is Some,
    ensures
        ({
            let v = spec_decode_account_address(buy_params).unwrap();
            let (buy_r, waiting) = spec_buy_icecream(buy_params, st);
            let request = spec_encode_receive_name(receive_weather_name());
            let get_r = spec_weather_get(AddressV::Contract(vendor_contract), request, w);
            let answer = spec_encode_weather(w);
            let (settle_r, settled) = spec_receive_weather(invoker, self_balance, answer, waiting);
            &&& buy_r == Ok::<ActionV, Error>(
                ActionV::Send {
                    to: st.weather_service,
                    receive_name: weather_get_name(),
                    amount: 0,
                    parameter: request,
                },
            )
            &&& waiting.current_state == PhaseV::WaitingForWeather { icecream_vendor: v }
            &&& get_r == Ok::<ActionV, Error>(
                ActionV::Send {
                    to: vendor_contract,
                    receive_name: receive_weather_name(),
                    amount: 0,
                    parameter: answer,
                },
            )
            &&& settle_r == Ok::<ActionV, Error>(
                ActionV::SimpleTransfer {
                    to: if w is Rainy {
                        invoker
                    } else {
                        v
                    },
                    amount: self_balance,
                },
            )
            &&& settled == spec_initial_state(st.weather_service)
        }),
{
    lemma_receive_weather_name_valid();
    lemma_receive_name_roundtrip(receive_weather_name());
    lemma_weather_roundtrip(w);
}

/// Law: both vendor transitions keep the state's invariant: the recorded
/// account, when there is one, is always a full-width address.
pub proof fn lemma_transitions_preserve_wf(
    invoker: Seq<u8>,
    self_balance: Amount,
    params: Seq<u8>,
    st: StateV,
)
    requires
        st.wf(),
    ensures
        spec_buy_icecream(params, st).1.wf(),
        spec_receive_weather(invoker, self_balance, params, st).1.wf(),
{
}

} // verus!
