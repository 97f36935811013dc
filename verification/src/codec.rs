//! The wire format of the entry points' parameters: enum values as tag
//! bytes, integers little-endian, addresses as fixed-width byte arrays,
//! entry-point names length-prefixed. Decoding reads a prefix of the
//! payload and rejects malformed, truncated or invalid-tag bytes; trailing
//! bytes are ignored, as the host's parameter cursor leaves them unread.

use vstd::prelude::*;

verus! {

use crate::types::{AccountAddress, ContractAddress, Error, Weather, ACCOUNT_ADDRESS_LEN};

/// The tag byte of a weather value on the wire.
pub open spec fn weather_tag(w: Weather) -> u8 {
    match w {
        Weather::Rainy => 0,
        Weather::Sunny => 1,
    }
}

/// The wire form of a weather value: its tag byte alone.
pub open spec fn spec_encode_weather(w: Weather) -> Seq<u8> {
    seq![weather_tag(w)]
}

/// The weather value read from the head of a payload, if the head is a
/// valid tag byte.
pub open spec fn spec_decode_weather(s: Seq<u8>) -> Option<Weather> {
    if s.len() >= 1 && s[0] == 0 {
        Some(Weather::Rainy)
    } else if s.len() >= 1 && s[0] == 1 {
        Some(Weather::Sunny)
    } else {
        None
    }
}

/// The value of two little-endian bytes.
pub open spec fn spec_u16_le(s: Seq<u8>) -> int
    recommends
        s.len() == 2,
{
    s[0] + 0x100 * s[1]
}

/// The value of eight little-endian bytes.
pub open spec fn spec_u64_le(s: Seq<u8>) -> int
    recommends
        s.len() == 8,
{
    s[0] + 0x100 * s[1] + 0x1_0000 * s[2] + 0x100_0000 * s[3] + 0x1_0000_0000 * s[4]
        + 0x100_0000_0000 * s[5] + 0x1_0000_0000_0000 * s[6] + 0x100_0000_0000_0000 * s[7]
}

/// The contract address read from the head of a payload: an index and a
/// subindex, eight little-endian bytes each.
pub open spec fn spec_decode_contract_address(s: Seq<u8>) -> Option<ContractAddress> {
    if s.len() >= 16 {
        Some(
            ContractAddress {
                index: spec_u64_le(s.subrange(0, 8)) as u64,
                subindex: spec_u64_le(s.subrange(8, 16)) as u64,
            },
        )
    } else {
        None
    }
}

/// The account address read from the head of a payload: its fixed width
/// of raw bytes.
pub open spec fn spec_decode_account_address(s: Seq<u8>) -> Option<Seq<u8>> {
    if s.len() >= ACCOUNT_ADDRESS_LEN {
        Some(s.subrange(0, ACCOUNT_ADDRESS_LEN as int))
    } else {
        None
    }
}

/// A byte an entry-point name may hold: printable ASCII other than space,
/// which is exactly the ASCII alphanumeric and punctuation characters.
pub open spec fn valid_name_byte(b: u8) -> bool {
    0x21 <= b && b <= 0x7e
}

/// The longest entry-point name, in bytes.
pub const MAX_NAME_LEN: usize = 100;

/// A valid entry-point name: bounded in length, every byte printable
/// non-space ASCII, with at least one dot separating the contract's name
/// from the function's.
pub open spec fn valid_receive_name(s: Seq<u8>) -> bool {
    &&& s.len() <= MAX_NAME_LEN
    &&& forall|i: int| 0 <= i < s.len() ==> valid_name_byte(#[trigger] s[i])
    &&& exists|i: int| 0 <= i < s.len() && #[trigger] s[i] == 0x2eu8
}

/// The wire form of an entry-point name: two little-endian length bytes,
/// then the name itself.
pub open spec fn spec_encode_receive_name(name: Seq<u8>) -> Seq<u8>
    recommends
        name.len() <= MAX_NAME_LEN,
{
    seq![(name.len() % 0x100) as u8, ((name.len() / 0x100) % 0x100) as u8] + name
}

/// The entry-point name read from the head of a payload, if its bytes form
/// a valid name.
pub open spec fn spec_decode_receive_name(s: Seq<u8>) -> Option<Seq<u8>> {
    if s.len() >= 2 {
        let n = spec_u16_le(s.subrange(0, 2));
        if n + 2 <= s.len() {
            let name = s.subrange(2, n + 2);
            if valid_receive_name(name) {
                Some(name)
            } else {
                None
            }
        } else {
            None
        }
    } else {
        None
    }
}

/// Law: a weather value encoded for the wire decodes back to itself.
pub proof fn lemma_weather_roundtrip(w: Weather)
    ensures
        spec_decode_weather(spec_encode_weather(w)) == Some(w),
{
}

/// Law: a valid entry-point name encoded for the wire decodes back to
/// itself.
pub proof fn lemma_receive_name_roundtrip(name: Seq<u8>)
    requires
        valid_receive_name(name),
    ensures
        spec_decode_receive_name(spec_encode_receive_name(name)) == Some(name),
{
    let enc = spec_encode_receive_name(name);
    assert(enc.subrange(0, 2) =~= seq![
        (name.len() % 0x100) as u8,
        ((name.len() / 0x100) % 0x100) as u8,
    ]);
    assert(spec_u16_le(enc.subrange(0, 2)) == name.len());
    assert(enc.subrange(2, 2 + name.len() as int) =~= name);
}

/// Decodes a weather value from a parameter payload.
pub fn decode_weather(params: &[u8]) -> (r: Result<Weather, Error>)
    ensures
        r == match spec_decode_weather(params@) {
            Some(w) => Ok::<Weather, Error>(w),
            None => Err::<Weather, Error>(Error::ParameterDecodeError),
        },
{
    if params.len() >= 1 {
        let b = params[0];
        if b == 0 {
            Ok(Weather::Rainy)
        } else if b == 1 {
            Ok(Weather::Sunny)
        } else {
            Err(Error::ParameterDecodeError)
        }
    } else {
        Err(Error::ParameterDecodeError)
    }
}

/// Encodes a weather value for the wire.
pub fn encode_weather(w: &Weather) -> (r: Vec<u8>)
    ensures
        r@ == spec_encode_weather(*w),
{
    let mut v: Vec<u8> = Vec::new();
    match w {
        Weather::Rainy => v.push(0),
        Weather::Sunny => v.push(1),
    }
    proof {
        assert(v@ =~= spec_encode_weather(*w));
    }
    v
}

/// Reads eight little-endian bytes starting at `off`.
fn read_u64_le(params: &[u8], off: usize) -> (r: u64)
    requires
        off + 8 <= params@.len(),
    ensures
        r == spec_u64_le(params@.subrange(off as int, off as int + 8)),
{
    (params[off] as u64) + 0x100 * (params[off + 1] as u64) + 0x1_0000 * (params[off + 2] as u64)
        + 0x100_0000 * (params[off + 3] as u64) + 0x1_0000_0000 * (params[off + 4] as u64)
        + 0x100_0000_0000 * (params[off + 5] as u64) + 0x1_0000_0000_0000 * (params[off + 6] as u64)
        + 0x100_0000_0000_0000 * (params[off + 7] as u64)
}

/// Reads two little-endian bytes starting at `off`.
fn read_u16_le(params: &[u8], off: usize) -> (r: u16)
    requires
        off + 2 <= params@.len(),
    ensures
        r == spec_u16_le(params@.subrange(off as int, off as int + 2)),
{
    (params[off] as u16) + 0x100 * (params[off + 1] as u16)
}

/// Decodes a contract address from a parameter payload.
pub fn decode_contract_address(params: &[u8]) -> (r: Result<ContractAddress, Error>)
    ensures
        r == match spec_decode_contract_address(params@) {
            Some(c) => Ok::<ContractAddress, Error>(c),
            None => Err::<ContractAddress, Error>(Error::ParameterDecodeError),
        },
{
    if params.len() >= 16 {
        let index = read_u64_le(params, 0);
        let subindex = read_u64_le(params, 8);
        Ok(ContractAddress { index, subindex })
    } else {
        Err(Error::ParameterDecodeError)
    }
}

/// Decodes an account address from a parameter payload.
pub fn decode_account_address(params: &[u8]) -> (r: Result<AccountAddress, Error>)
    ensures
        match spec_decode_account_address(params@) {
            Some(a) => r matches Ok(acc) && acc@ == a && acc.wf(),
            None => r == Err::<AccountAddress, Error>(Error::ParameterDecodeError),
        },
{
    if params.len() >= ACCOUNT_ADDRESS_LEN {
        let mut bytes: Vec<u8> = Vec::new();
        let mut i: usize = 0;
        while i < ACCOUNT_ADDRESS_LEN
            invariant
                i <= ACCOUNT_ADDRESS_LEN,
                params@.len() >= ACCOUNT_ADDRESS_LEN,
                bytes@ == params@.subrange(0, i as int),
            decreases ACCOUNT_ADDRESS_LEN - i,
        {
            bytes.push(params[i]);
            i += 1;
            proof {
                assert(bytes@ =~= params@.subrange(0, i as int));
            }
        }
        Ok(AccountAddress(bytes))
    } else {
        Err(Error::ParameterDecodeError)
    }
}

/// Decodes a length-prefixed entry-point name from a parameter payload,
/// rejecting a name that is truncated, too long, holds a byte no name may
/// hold, or lacks the dot separator.
pub fn decode_receive_name(params: &[u8]) -> (r: Result<Vec<u8>, Error>)
    ensures
        match spec_decode_receive_name(params@) {
            Some(n) => r matches Ok(v) && v@ == n,
            None => r == Err::<Vec<u8>, Error>(Error::ParameterDecodeError),
        },
{
    if params.len() < 2 {
        return Err(Error::ParameterDecodeError);
    }
    let n = read_u16_le(params, 0) as usize;
    if n > params.len() - 2 {
        return Err(Error::ParameterDecodeError);
    }
    if n > MAX_NAME_LEN {
        return Err(Error::ParameterDecodeError);
    }
    let ghost name_seq = params@.subrange(2, spec_u16_le(params@.subrange(0, 2)) + 2);
    proof {
        assert(name_seq =~= params@.subrange(2, 2 + n as int));
        assert(name_seq.len() == n);
    }
    let mut name: Vec<u8> = Vec::new();
    let mut has_dot = false;
    let mut i: usize = 0;
    while i < n
        invariant
            i <= n,
            n <= MAX_NAME_LEN,
            n + 2 <= params@.len(),
            name_seq == params@.subrange(2, spec_u16_le(params@.subrange(0, 2)) + 2),
            name_seq == params@.subrange(2, 2 + n as int),
            name@ == name_seq.subrange(0, i as int),
            has_dot == exists|j: int| 0 <= j < i && #[trigger] name_seq[j] == 0x2eu8,
            forall|j: int| 0 <= j < i ==> valid_name_byte(#[trigger] name_seq[j]),
        decreases n - i,
    {
        let b = params[2 + i];
        proof {
            assert(name_seq[i as int] == params@[2 + i as int]);
        }
        if !(0x21 <= b && b <= 0x7e) {
            proof {
                assert(!valid_name_byte(name_seq[i as int]));
                assert(!valid_receive_name(name_seq));
            }
            return Err(Error::ParameterDecodeError);
        }
        if b == 0x2e {
            has_dot = true;
        }
        name.push(b);
        i += 1;
        proof {
            assert(name@ =~= name_seq.subrange(0, i as int));
        }
    }
    if !has_dot {
        proof {
            assert(!valid_receive_name(name_seq)) by {
                if exists|j: int| 0 <= j < name_seq.len() && #[trigger] name_seq[j] == 0x2eu8 {
                    let j = choose|j: int|
                        0 <= j < name_seq.len() && #[trigger] name_seq[j] == 0x2eu8;
                    assert(0 <= j < i && name_seq[j] == 0x2eu8);
                }
            }
        }
        return Err(Error::ParameterDecodeError);
    }
    proof {
        assert(name@ =~= name_seq);
        assert(valid_receive_name(name_seq));
    }
    Ok(name)
}

} // verus!
