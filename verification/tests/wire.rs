use wallet_operations::cosmos_sdk_proto::encoding::{put_message, put_string, put_uint64};
use wallet_operations::cosmos_sdk_proto::messages::{
    Any, Height, MsgDelegate, MsgRegisterAccount, MsgSubmitTx, MsgTransfer, ProtoCoin,
};
use wallet_operations::cosmos_sdk_proto::type_urls::{
    MSG_BEGIN_REDELEGATE, MSG_DELEGATE, MSG_REGISTER_ACCOUNT, MSG_SEND, MSG_SET_WITHDRAW_ADDRESS,
    MSG_SUBMIT_TX, MSG_TRANSFER, MSG_UNDELEGATE, MSG_WITHDRAW_DELEGATOR_REWARD,
};

fn s(text: &str) -> String {
    text.to_string()
}

fn varint(mut value: u64) -> Vec<u8> {
    let mut out = Vec::new();
    while value >= 128 {
        out.push((value % 128) as u8 + 128);
        value /= 128;
    }
    out.push(value as u8);
    out
}

fn delimited(tag: u8, content: &[u8]) -> Vec<u8> {
    let mut out = vec![tag * 8 + 2];
    out.extend(varint(content.len() as u64));
    out.extend_from_slice(content);
    out
}

#[test]
fn put_string_writes_key_length_and_bytes() {
    let mut buf = vec![0xff];
    put_string(1, &s("orai"), &mut buf);
    assert_eq!(buf, vec![0xff, 0x0a, 4, b'o', b'r', b'a', b'i']);
}

#[test]
fn put_string_leaves_an_empty_string_out() {
    let mut buf = vec![1, 2];
    put_string(3, &s(""), &mut buf);
    assert_eq!(buf, vec![1, 2]);
}

#[test]
fn put_string_counts_bytes_not_characters() {
    let mut buf = Vec::new();
    put_string(2, &s("é"), &mut buf);
    assert_eq!(buf, vec![0x12, 2, 0xc3, 0xa9]);
}

#[test]
fn put_string_writes_a_long_length_in_two_bytes() {
    let text = "x".repeat(300);
    let mut buf = Vec::new();
    put_string(1, &text, &mut buf);
    let mut expected = vec![0x0a, 0xac, 0x02];
    expected.extend_from_slice(text.as_bytes());
    assert_eq!(buf, expected);
}

#[test]
fn put_string_writes_a_large_field_number_in_two_bytes() {
    let mut buf = Vec::new();
    put_string(16, &s("a"), &mut buf);
    assert_eq!(buf, vec![0x82, 0x01, 1, b'a']);
}

#[test]
fn put_uint64_writes_key_and_number() {
    let mut buf = Vec::new();
    put_uint64(7, 1, &mut buf);
    put_uint64(1, 300, &mut buf);
    put_uint64(2, u64::MAX, &mut buf);
    let mut expected = vec![0x38, 1, 0x08, 0xac, 0x02, 0x10];
    expected.extend_from_slice(&[0xff, 0xff, 0xff, 0xff, 0xff, 0xff, 0xff, 0xff, 0xff, 0x01]);
    assert_eq!(buf, expected);
}

#[test]
fn put_uint64_leaves_zero_out() {
    let mut buf = vec![9];
    put_uint64(7, 0, &mut buf);
    assert_eq!(buf, vec![9]);
}

#[test]
fn put_message_writes_an_empty_message_and_leaves_an_absent_one_out() {
    let mut buf = Vec::new();
    put_message(3, &Some(vec![]), &mut buf);
    assert_eq!(buf, vec![0x1a, 0]);
    put_message(3, &None, &mut buf);
    assert_eq!(buf, vec![0x1a, 0]);
    put_message(4, &Some(vec![7, 8]), &mut buf);
    assert_eq!(buf, vec![0x1a, 0, 0x22, 2, 7, 8]);
}

#[test]
fn coin_writes_its_amount_in_decimal_digits() {
    assert_eq!(ProtoCoin::new(s("orai"), 0), ProtoCoin { denom: s("orai"), amount: s("0") });
    assert_eq!(ProtoCoin::new(s("orai"), 1200), ProtoCoin { denom: s("orai"), amount: s("1200") });
    assert_eq!(
        ProtoCoin::new(s("orai"), u128::MAX),
        ProtoCoin { denom: s("orai"), amount: s("340282366920938463463374607431768211455") }
    );
}

#[test]
fn coin_on_the_wire() {
    let coin = ProtoCoin::new(s("uatom"), 1500);
    assert_eq!(
        coin.to_bytes(),
        vec![0x0a, 5, b'u', b'a', b't', b'o', b'm', 0x12, 4, b'1', b'5', b'0', b'0']
    );
    assert_eq!(ProtoCoin { denom: s(""), amount: s("") }.to_bytes(), Vec::<u8>::new());
}

#[test]
fn height_on_the_wire() {
    assert_eq!(Height { revision_number: 1, revision_height: 200 }.to_bytes(), vec![0x08, 1, 0x10, 0xc8, 0x01]);
    assert_eq!(Height { revision_number: 0, revision_height: 0 }.to_bytes(), Vec::<u8>::new());
}

#[test]
fn any_on_the_wire() {
    let any = Any { type_url: s("/a.B"), value: vec![1, 2, 3] };
    assert_eq!(any.to_bytes(), vec![0x0a, 4, b'/', b'a', b'.', b'B', 0x12, 3, 1, 2, 3]);
    assert_eq!(Any { type_url: s(""), value: vec![] }.to_bytes(), Vec::<u8>::new());
    assert_eq!(Any { type_url: s(""), value: vec![5] }.to_bytes(), vec![0x12, 1, 5]);
}

#[test]
fn register_account_on_the_wire() {
    let msg = MsgRegisterAccount { owner: s("orai1exec"), connection_id: s("connection-0"), version: s("") };
    let mut expected = delimited(1, b"orai1exec");
    expected.extend(delimited(2, b"connection-0"));
    assert_eq!(msg.to_bytes(), expected);
    let versioned = MsgRegisterAccount { owner: s("o"), connection_id: s(""), version: s("v1") };
    assert_eq!(versioned.to_bytes(), vec![0x0a, 1, b'o', 0x1a, 2, b'v', b'1']);
}

#[test]
fn delegate_on_the_wire() {
    let msg = MsgDelegate {
        delegator_address: s("cosmos1del"),
        validator_address: s("cosmosvaloper1val"),
        amount: Some(ProtoCoin::new(s("uatom"), 1500)),
    };
    let mut expected = delimited(1, b"cosmos1del");
    expected.extend(delimited(2, b"cosmosvaloper1val"));
    let mut coin = delimited(1, b"uatom");
    coin.extend(delimited(2, b"1500"));
    expected.extend(delimited(3, &coin));
    assert_eq!(msg.to_bytes(), expected);
    let without = MsgDelegate { delegator_address: s("d"), validator_address: s("v"), amount: None };
    assert_eq!(without.to_bytes(), vec![0x0a, 1, b'd', 0x12, 1, b'v']);
}

#[test]
fn transfer_on_the_wire() {
    let msg = MsgTransfer {
        source_port: s("transfer"),
        source_channel: s("channel-7"),
        token: Some(ProtoCoin::new(s("uatom"), 25)),
        sender: s("cosmos1ica"),
        receiver: s("orai1me"),
        timeout_height: None,
        timeout_timestamp: 1_700_000_600_000_000_000,
    };
    let mut expected = delimited(1, b"transfer");
    expected.extend(delimited(2, b"channel-7"));
    let mut coin = delimited(1, b"uatom");
    coin.extend(delimited(2, b"25"));
    expected.extend(delimited(3, &coin));
    expected.extend(delimited(4, b"cosmos1ica"));
    expected.extend(delimited(5, b"orai1me"));
    expected.push(0x38);
    expected.extend(varint(1_700_000_600_000_000_000));
    assert_eq!(msg.to_bytes(), expected);
}

#[test]
fn transfer_with_a_height_and_without_a_time() {
    let msg = MsgTransfer {
        source_port: s(""),
        source_channel: s("c"),
        token: None,
        sender: s(""),
        receiver: s(""),
        timeout_height: Some(Height { revision_number: 0, revision_height: 9 }),
        timeout_timestamp: 0,
    };
    assert_eq!(msg.to_bytes(), vec![0x12, 1, b'c', 0x32, 2, 0x10, 9]);
}

#[test]
fn submit_tx_on_the_wire() {
    let inner = Any { type_url: s(MSG_DELEGATE), value: vec![0x0a, 1, b'd'] };
    let msg = MsgSubmitTx { owner: s("orai1exec"), connection_id: s("connection-0"), msg: Some(inner) };
    let mut any = delimited(1, MSG_DELEGATE.as_bytes());
    any.extend(delimited(2, &[0x0a, 1, b'd']));
    let mut expected = delimited(1, b"orai1exec");
    expected.extend(delimited(2, b"connection-0"));
    expected.extend(delimited(3, &any));
    assert_eq!(msg.to_bytes(), expected);
    let bare = MsgSubmitTx { owner: s(""), connection_id: s(""), msg: None };
    assert_eq!(bare.to_bytes(), Vec::<u8>::new());
}

#[test]
fn wire_fields_agree_with_the_encoder_of_the_wire_library() {
    let mut theirs = Vec::new();
    prost::encoding::string::encode(4, &s("cosmos1ica"), &mut theirs);
    prost::encoding::uint64::encode(7, &123_456_789_012u64, &mut theirs);
    let mut ours = Vec::new();
    put_string(4, &s("cosmos1ica"), &mut ours);
    put_uint64(7, 123_456_789_012, &mut ours);
    assert_eq!(ours, theirs);
    let any = prost_types::Any { type_url: s(MSG_TRANSFER), value: vec![9; 200] };
    assert_eq!(
        Any { type_url: s(MSG_TRANSFER), value: vec![9; 200] }.to_bytes(),
        prost::Message::encode_to_vec(&any)
    );
}

#[test]
fn type_names() {
    assert_eq!(MSG_SEND, "/cosmos.bank.v1beta1.MsgSend");
    assert_eq!(MSG_REGISTER_ACCOUNT, "/intertx.MsgRegisterAccount");
    assert_eq!(MSG_SUBMIT_TX, "/intertx.MsgSubmitTx");
    assert_eq!(MSG_TRANSFER, "/ibc.applications.transfer.v1.MsgTransfer");
    assert_eq!(MSG_DELEGATE, "/cosmos.staking.v1beta1.MsgDelegate");
    assert_eq!(MSG_UNDELEGATE, "/cosmos.staking.v1beta1.MsgUndelegate");
    assert_eq!(MSG_SET_WITHDRAW_ADDRESS, "/cosmos.distribution.v1beta1.MsgSetWithdrawAddress");
    assert_eq!(MSG_BEGIN_REDELEGATE, "/cosmos.staking.v1beta1.MsgBeginRedelegate");
    assert_eq!(MSG_WITHDRAW_DELEGATOR_REWARD, "/cosmos.distribution.v1beta1.MsgWithdrawDelegatorReward");
    assert_eq!(MsgDelegate::type_url(), MSG_DELEGATE);
    assert_eq!(MsgTransfer::type_url(), MSG_TRANSFER);
    assert_eq!(MsgRegisterAccount::type_url(), MSG_REGISTER_ACCOUNT);
    assert_eq!(MsgSubmitTx::type_url(), MSG_SUBMIT_TX);
}
