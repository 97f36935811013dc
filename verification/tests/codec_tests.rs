use icecream::codec::{
    decode_account_address, decode_contract_address, decode_receive_name, decode_weather,
    encode_weather,
};
use icecream::types::{ContractAddress, Error, Weather};

#[test]
fn decode_weather_rainy_tag() {
    assert_eq!(decode_weather(&[0]), Ok(Weather::Rainy));
}

#[test]
fn decode_weather_sunny_tag() {
    assert_eq!(decode_weather(&[1]), Ok(Weather::Sunny));
}

#[test]
fn decode_weather_ignores_trailing_bytes() {
    assert_eq!(decode_weather(&[1, 99, 7]), Ok(Weather::Sunny));
}

#[test]
fn decode_weather_rejects_bad_tag() {
    assert_eq!(decode_weather(&[2]), Err(Error::ParameterDecodeError));
}

#[test]
fn decode_weather_rejects_empty_payload() {
    assert_eq!(decode_weather(&[]), Err(Error::ParameterDecodeError));
}

#[test]
fn encode_weather_is_one_tag_byte() {
    assert_eq!(encode_weather(&Weather::Rainy), vec![0]);
    assert_eq!(encode_weather(&Weather::Sunny), vec![1]);
}

#[test]
fn weather_wire_roundtrip() {
    for w in [Weather::Rainy, Weather::Sunny] {
        assert_eq!(decode_weather(&encode_weather(&w)), Ok(w));
    }
}

#[test]
fn decode_contract_address_little_endian() {
    let mut payload = Vec::new();
    payload.extend_from_slice(&258u64.to_le_bytes());
    payload.extend_from_slice(&7u64.to_le_bytes());
    assert_eq!(
        decode_contract_address(&payload),
        Ok(ContractAddress { index: 258, subindex: 7 })
    );
}

#[test]
fn decode_contract_address_max_value() {
    let mut payload = Vec::new();
    payload.extend_from_slice(&u64::MAX.to_le_bytes());
    payload.extend_from_slice(&0u64.to_le_bytes());
    assert_eq!(
        decode_contract_address(&payload),
        Ok(ContractAddress { index: u64::MAX, subindex: 0 })
    );
}

#[test]
fn decode_contract_address_rejects_truncated_payload() {
    assert_eq!(
        decode_contract_address(&[0; 15]),
        Err(Error::ParameterDecodeError)
    );
}

#[test]
fn decode_account_address_takes_thirty_two_bytes() {
    let mut payload = vec![9u8; 32];
    payload.push(77); // trailing byte, ignored
    let decoded = decode_account_address(&payload).unwrap();
    assert_eq!(decoded.0, vec![9u8; 32]);
}

#[test]
fn decode_account_address_rejects_short_payload() {
    assert_eq!(
        decode_account_address(&[9; 31]),
        Err(Error::ParameterDecodeError)
    );
}

fn name_payload(name: &str) -> Vec<u8> {
    let mut payload = (name.len() as u16).to_le_bytes().to_vec();
    payload.extend_from_slice(name.as_bytes());
    payload
}

#[test]
fn decode_receive_name_accepts_valid_name() {
    let decoded = decode_receive_name(&name_payload("icecream.receive_weather")).unwrap();
    assert_eq!(decoded, b"icecream.receive_weather".to_vec());
}

#[test]
fn decode_receive_name_ignores_trailing_bytes() {
    let mut payload = name_payload("a.b");
    payload.extend_from_slice(&[0xff, 0x00]);
    assert_eq!(decode_receive_name(&payload), Ok(b"a.b".to_vec()));
}

#[test]
fn decode_receive_name_rejects_missing_dot() {
    assert_eq!(
        decode_receive_name(&name_payload("nodotname")),
        Err(Error::ParameterDecodeError)
    );
}

#[test]
fn decode_receive_name_rejects_space() {
    assert_eq!(
        decode_receive_name(&name_payload("bad name.get")),
        Err(Error::ParameterDecodeError)
    );
}

#[test]
fn decode_receive_name_rejects_non_ascii_byte() {
    let mut payload = vec![3, 0];
    payload.extend_from_slice(&[b'a', b'.', 0x80]);
    assert_eq!(
        decode_receive_name(&payload),
        Err(Error::ParameterDecodeError)
    );
}

#[test]
fn decode_receive_name_rejects_over_long_name() {
    let name = format!("c.{}", "x".repeat(99)); // 101 bytes in all
    assert_eq!(
        decode_receive_name(&name_payload(&name)),
        Err(Error::ParameterDecodeError)
    );
}

#[test]
fn decode_receive_name_accepts_longest_name() {
    let name = format!("c.{}", "x".repeat(98)); // exactly 100 bytes
    let decoded = decode_receive_name(&name_payload(&name)).unwrap();
    assert_eq!(decoded, name.as_bytes().to_vec());
}

#[test]
fn decode_receive_name_rejects_truncated_name_bytes() {
    let mut payload = name_payload("a.b");
    payload.truncate(4); // promises 3 bytes, carries 2
    assert_eq!(
        decode_receive_name(&payload),
        Err(Error::ParameterDecodeError)
    );
}

#[test]
fn decode_receive_name_rejects_missing_length_prefix() {
    assert_eq!(decode_receive_name(&[5]), Err(Error::ParameterDecodeError));
}
