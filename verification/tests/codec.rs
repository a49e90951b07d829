use collabeat::abi::abi_decode_three;
use collabeat::command::{get_timeout_string, make_cmd_args, u64_dec_string};
use collabeat::hexcodec::{hex_decode, hex_encode};
use collabeat::payload::{decode_mint_payload, encode_mint_payload};
use ethabi::{decode, encode, ParamType, Token};

#[test]
fn payload_round_trip_ascii() {
    let data = encode_mint_payload("a name", "/ip4/10.0.0.1/tcp/5001", "bafy123");
    let decoded = decode_mint_payload(&data).expect("the encoded payload must decode");
    assert_eq!(decoded.0, "a name");
    assert_eq!(decoded.1, "/ip4/10.0.0.1/tcp/5001");
    assert_eq!(decoded.2, "bafy123");
}

#[test]
fn payload_round_trip_unicode() {
    let data = encode_mint_payload("Be\u{e4}t \u{3c0}", "", "\u{1f3b5}");
    let decoded = decode_mint_payload(&data).expect("the encoded payload must decode");
    assert_eq!(decoded.0, "Be\u{e4}t \u{3c0}");
    assert_eq!(decoded.1, "");
    assert_eq!(decoded.2, "\u{1f3b5}");
}

#[test]
fn payload_encoding_matches_reference_encoder() {
    let tokens = vec![
        Token::String(String::from("a name")),
        Token::String(String::from("/ip4/10.0.0.1/tcp/5001")),
        Token::String(String::from("bafy123")),
    ];
    let reference = hex::encode(encode(&tokens));
    let ours = encode_mint_payload("a name", "/ip4/10.0.0.1/tcp/5001", "bafy123");
    assert_eq!(ours, reference);
}

#[test]
fn payload_decoder_reads_reference_encoding() {
    let tokens = vec![
        Token::String(String::from("x")),
        Token::String(String::new()),
        Token::String(String::from("bafyabc")),
    ];
    let data = hex::encode(encode(&tokens));
    let decoded = decode_mint_payload(&data).expect("the reference encoding must decode");
    assert_eq!(decoded.0, "x");
    assert_eq!(decoded.1, "");
    assert_eq!(decoded.2, "bafyabc");
}

#[test]
fn reference_decoder_reads_our_encoding() {
    let data = encode_mint_payload("one", "two", "three");
    let raw = hex::decode(&data).expect("the payload is hexadecimal");
    let tokens = decode(
        &[ParamType::String, ParamType::String, ParamType::String],
        &raw,
    )
    .expect("the reference decoder must accept the encoding");
    assert_eq!(tokens.len(), 3);
    assert_eq!(tokens[0], Token::String(String::from("one")));
    assert_eq!(tokens[1], Token::String(String::from("two")));
    assert_eq!(tokens[2], Token::String(String::from("three")));
}

#[test]
fn payload_rejects_odd_length_hex() {
    assert!(decode_mint_payload("abc").is_err());
}

#[test]
fn payload_rejects_short_data() {
    assert_eq!(
        decode_mint_payload("00ff").unwrap_err(),
        "Invalid data structure: the payload is not a tuple of three strings"
    );
}

#[test]
fn hex_codec_round_trips() {
    let bytes = hex_decode("0aff10").expect("well-formed hexadecimal");
    assert_eq!(bytes, vec![0x0a, 0xff, 0x10]);
    assert_eq!(hex_encode(&bytes), "0aff10");
}

#[test]
fn hex_decode_accepts_upper_case() {
    assert_eq!(hex_decode("0AFF"), Some(vec![0x0a, 0xff]));
}

#[test]
fn hex_decode_rejects_bad_input() {
    assert_eq!(hex_decode("0a f"), None);
    assert_eq!(hex_decode("abc"), None);
    assert_eq!(hex_decode("zz"), None);
    assert_eq!(hex_decode("caf\u{e9}"), None);
}

#[test]
fn hex_decode_empty_is_empty() {
    assert_eq!(hex_decode(""), Some(Vec::new()));
}

#[test]
fn abi_decoder_rejects_trailing_bytes() {
    let tokens = vec![
        Token::String(String::from("a")),
        Token::String(String::from("b")),
        Token::String(String::from("c")),
    ];
    let mut raw = encode(&tokens);
    assert!(abi_decode_three(&raw).is_some());
    raw.push(0);
    assert!(abi_decode_three(&raw).is_none());
}

#[test]
fn abi_decoder_rejects_bad_offset() {
    let tokens = vec![
        Token::String(String::from("a")),
        Token::String(String::from("b")),
        Token::String(String::from("c")),
    ];
    let mut raw = encode(&tokens);
    raw[31] = 0x61;
    assert!(abi_decode_three(&raw).is_none());
}

#[test]
fn decimal_rendering_is_exact() {
    assert_eq!(u64_dec_string(0), "0");
    assert_eq!(u64_dec_string(7), "7");
    assert_eq!(u64_dec_string(90), "90");
    assert_eq!(u64_dec_string(18446744073709551615), "18446744073709551615");
}

#[test]
fn timeout_string_has_second_suffix() {
    assert_eq!(get_timeout_string(0), "0s");
    assert_eq!(get_timeout_string(90), "90s");
}

#[test]
fn cmd_args_append_in_fixed_order() {
    let base = vec![String::from("dag"), String::from("get"), String::from("h")];
    let cmd = make_cmd_args(base, String::from("/ip4/1.2.3.4/tcp/5001"), 5);
    assert_eq!(
        cmd,
        vec![
            String::from("dag"),
            String::from("get"),
            String::from("h"),
            String::from("--timeout"),
            String::from("5s"),
            String::from("--api"),
            String::from("/ip4/1.2.3.4/tcp/5001"),
        ]
    );
}

#[test]
fn payload_round_trip_empty_fields() {
    let data = encode_mint_payload("", "", "");
    let decoded = decode_mint_payload(&data).expect("the encoded payload must decode");
    assert_eq!(decoded.0, "");
    assert_eq!(decoded.1, "");
    assert_eq!(decoded.2, "");
}

#[test]
fn payload_round_trip_word_sized_field() {
    let name = "abcdefghijklmnopqrstuvwxyz012345";
    assert_eq!(name.len(), 32);
    let data = encode_mint_payload(name, "a", "bb");
    let decoded = decode_mint_payload(&data).expect("the encoded payload must decode");
    assert_eq!(decoded.0, name);
    assert_eq!(decoded.1, "a");
    assert_eq!(decoded.2, "bb");
    let reference = hex::encode(encode(&[
        Token::String(String::from(name)),
        Token::String(String::from("a")),
        Token::String(String::from("bb")),
    ]));
    assert_eq!(data, reference);
}

#[test]
fn hex_encode_empty_is_empty() {
    assert_eq!(hex_encode(&Vec::new()), "");
}
