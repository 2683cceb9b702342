//! The messages of the remote chain, with their encoding.

use crate::cosmos_sdk_proto::encoding::{
    bytes_field,
    decimal,
    decimal_string,
    encode_any,
    message_field,
    put_message,
    put_string,
    put_uint64,
    string_field,
    uint64_field,
};
use crate::cosmos_sdk_proto::type_urls::{
    MSG_DELEGATE,
    MSG_REGISTER_ACCOUNT,
    MSG_SUBMIT_TX,
    MSG_TRANSFER,
};
use vstd::prelude::*;

verus! {

/// A height on a remote chain.
#[derive(Debug, Clone, Copy, PartialEq, Eq)]
pub struct Height {
    pub revision_number: u64,
    pub revision_height: u64,
}

impl DeepView for Height {
    type V = Height;

    open spec fn deep_view(&self) -> Height {
        *self
    }
}

/// An amount of a denomination, the amount in decimal digits.
#[derive(Debug, Clone, PartialEq, Eq)]
pub struct ProtoCoin {
    pub denom: String,
    pub amount: String,
}

/// Mathematical model of [`ProtoCoin`].
pub ghost struct ProtoCoinView {
    pub denom: Seq<char>,
    pub amount: Seq<char>,
}

impl DeepView for ProtoCoin {
    type V = ProtoCoinView;

    open spec fn deep_view(&self) -> ProtoCoinView {
        ProtoCoinView {
            denom: self.denom.deep_view(),
            amount: self.amount.deep_view(),
        }
    }
}

/// A wire message together with the name of its type.
#[derive(Debug, Clone, PartialEq, Eq)]
pub struct Any {
    pub type_url: String,
    pub value: Vec<u8>,
}

/// Mathematical model of [`Any`].
pub ghost struct AnyView {
    pub type_url: Seq<char>,
    pub value: Seq<u8>,
}

impl DeepView for Any {
    type V = AnyView;

    open spec fn deep_view(&self) -> AnyView {
        AnyView {
            type_url: self.type_url.deep_view(),
            value: self.value.deep_view(),
        }
    }
}

/// Bonds coins of a delegator to a validator.
#[derive(Debug, Clone, PartialEq, Eq)]
pub struct MsgDelegate {
    pub delegator_address: String,
    pub validator_address: String,
    pub amount: Option<ProtoCoin>,
}

/// Mathematical model of [`MsgDelegate`].
pub ghost struct MsgDelegateView {
    pub delegator_address: Seq<char>,
    pub validator_address: Seq<char>,
    pub amount: Option<ProtoCoinView>,
}

impl DeepView for MsgDelegate {
    type V = MsgDelegateView;

    open spec fn deep_view(&self) -> MsgDelegateView {
        MsgDelegateView {
            delegator_address: self.delegator_address.deep_view(),
            validator_address: self.validator_address.deep_view(),
            amount: self.amount.deep_view(),
        }
    }
}

/// Sends a coin over a channel of the token bridge.
#[derive(Debug, Clone, PartialEq, Eq)]
pub struct MsgTransfer {
    pub source_port: String,
    pub source_channel: String,
    pub token: Option<ProtoCoin>,
    pub sender: String,
    pub receiver: String,
    pub timeout_height: Option<Height>,
    /// Absolute time in nanoseconds after which the packet is void; 0 for none.
    pub timeout_timestamp: u64,
}

/// Mathematical model of [`MsgTransfer`].
pub ghost struct MsgTransferView {
    pub source_port: Seq<char>,
    pub source_channel: Seq<char>,
    pub token: Option<ProtoCoinView>,
    pub sender: Seq<char>,
    pub receiver: Seq<char>,
    pub timeout_height: Option<Height>,
    pub timeout_timestamp: u64,
}

impl DeepView for MsgTransfer {
    type V = MsgTransferView;

    open spec fn deep_view(&self) -> MsgTransferView {
        MsgTransferView {
            source_port: self.source_port.deep_view(),
            source_channel: self.source_channel.deep_view(),
            token: self.token.deep_view(),
            sender: self.sender.deep_view(),
            receiver: self.receiver.deep_view(),
            timeout_height: self.timeout_height.deep_view(),
            timeout_timestamp: self.timeout_timestamp.deep_view(),
        }
    }
}

/// Opens an interchain account for an owner.
#[derive(Debug, Clone, PartialEq, Eq)]
pub struct MsgRegisterAccount {
    pub owner: String,
    pub connection_id: String,
    pub version: String,
}

/// Mathematical model of [`MsgRegisterAccount`].
pub ghost struct MsgRegisterAccountView {
    pub owner: Seq<char>,
    pub connection_id: Seq<char>,
    pub version: Seq<char>,
}

impl DeepView for MsgRegisterAccount {
    type V = MsgRegisterAccountView;

    open spec fn deep_view(&self) -> MsgRegisterAccountView {
        MsgRegisterAccountView {
            owner: self.owner.deep_view(),
            connection_id: self.connection_id.deep_view(),
            version: self.version.deep_view(),
        }
    }
}

/// Runs a message from the interchain account of an owner.
#[derive(Debug, Clone, PartialEq, Eq)]
pub struct MsgSubmitTx {
    pub owner: String,
    pub connection_id: String,
    pub msg: Option<Any>,
}

/// Mathematical model of [`MsgSubmitTx`].
pub ghost struct MsgSubmitTxView {
    pub owner: Seq<char>,
    pub connection_id: Seq<char>,
    pub msg: Option<AnyView>,
}

impl DeepView for MsgSubmitTx {
    type V = MsgSubmitTxView;

    open spec fn deep_view(&self) -> MsgSubmitTxView {
        MsgSubmitTxView {
            owner: self.owner.deep_view(),
            connection_id: self.connection_id.deep_view(),
            msg: self.msg.deep_view(),
        }
    }
}

impl Height {
    /// The wire encoding.
    pub open spec fn encoding(self) -> Seq<u8> {
        uint64_field(1, self.revision_number) + uint64_field(2, self.revision_height)
    }

    /// The message on the wire.
    pub fn to_bytes(&self) -> (r: Vec<u8>)
        ensures
            r@ == self.encoding(),
    {
        let mut buf: Vec<u8> = Vec::new();
        put_uint64(1, self.revision_number, &mut buf);
        put_uint64(2, self.revision_height, &mut buf);
        assert(buf@ =~= self.encoding());
        buf
    }
}

impl ProtoCoinView {
    /// The wire encoding.
    pub open spec fn encoding(self) -> Seq<u8> {
        string_field(1, self.denom) + string_field(2, self.amount)
    }
}

impl ProtoCoin {
    /// The coin of `amount` in `denom`, the amount in decimal digits.
    pub fn new(denom: String, amount: u128) -> (r: ProtoCoin)
        ensures
            r.deep_view() == (ProtoCoinView { denom: denom@, amount: decimal(amount as nat) }),
    {
        ProtoCoin { denom, amount: decimal_string(amount) }
    }

    /// The message on the wire.
    pub fn to_bytes(&self) -> (r: Vec<u8>)
        ensures
            r@ == self.deep_view().encoding(),
    {
        let mut buf: Vec<u8> = Vec::new();
        put_string(1, &self.denom, &mut buf);
        put_string(2, &self.amount, &mut buf);
        assert(buf@ =~= self.deep_view().encoding());
        buf
    }
}

impl AnyView {
    /// The wire encoding.
    pub open spec fn encoding(self) -> Seq<u8> {
        string_field(1, self.type_url) + bytes_field(2, self.value)
    }
}

impl Any {
    /// The message on the wire.
    pub fn to_bytes(&self) -> (r: Vec<u8>)
        ensures
            r@ == self.deep_view().encoding(),
    {
        assert(self.value.deep_view() =~= self.value@);
        encode_any(&self.type_url, &self.value)
    }
}

/// The wire encoding of a coin that may be absent.
pub open spec fn optional_coin_encoding(coin: Option<ProtoCoinView>) -> Option<Seq<u8>> {
    match coin {
        Some(coin) => Some(coin.encoding()),
        None => None,
    }
}

/// A coin that may be absent, on the wire.
pub fn optional_coin_to_bytes(coin: &Option<ProtoCoin>) -> (r: Option<Vec<u8>>)
    ensures
        match r {
            Some(bytes) => optional_coin_encoding(coin.deep_view()) == Some(bytes@),
            None => optional_coin_encoding(coin.deep_view()) is None,
        },
{
    match coin {
        Some(coin) => Some(coin.to_bytes()),
        None => None,
    }
}

impl MsgDelegateView {
    /// The wire encoding.
    pub open spec fn encoding(self) -> Seq<u8> {
        string_field(1, self.delegator_address) + string_field(2, self.validator_address)
            + message_field(3, optional_coin_encoding(self.amount))
    }
}

impl MsgDelegate {
    /// The name of the message type.
    pub fn type_url() -> (r: String)
        ensures
            r@ == MSG_DELEGATE@,
    {
        MSG_DELEGATE.to_owned()
    }

    /// The message on the wire.
    pub fn to_bytes(&self) -> (r: Vec<u8>)
        ensures
            r@ == self.deep_view().encoding(),
    {
        let mut buf: Vec<u8> = Vec::new();
        put_string(1, &self.delegator_address, &mut buf);
        put_string(2, &self.validator_address, &mut buf);
        put_message(3, &optional_coin_to_bytes(&self.amount), &mut buf);
        assert(buf@ =~= self.deep_view().encoding());
        buf
    }
}

impl MsgTransferView {
    /// The wire encoding.
    pub open spec fn encoding(self) -> Seq<u8> {
        string_field(1, self.source_port) + string_field(2, self.source_channel) + message_field(
            3,
            optional_coin_encoding(self.token),
        ) + string_field(4, self.sender) + string_field(5, self.receiver) + message_field(
            6,
            match self.timeout_height {
                Some(height) => Some(height.encoding()),
                None => None,
            },
        ) + uint64_field(7, self.timeout_timestamp)
    }
}

impl MsgTransfer {
    /// The name of the message type.
    pub fn type_url() -> (r: String)
        ensures
            r@ == MSG_TRANSFER@,
    {
        MSG_TRANSFER.to_owned()
    }

    /// The message on the wire.
    pub fn to_bytes(&self) -> (r: Vec<u8>)
        ensures
            r@ == self.deep_view().encoding(),
    {
        let mut buf: Vec<u8> = Vec::new();
        put_string(1, &self.source_port, &mut buf);
        put_string(2, &self.source_channel, &mut buf);
        put_message(3, &optional_coin_to_bytes(&self.token), &mut buf);
        put_string(4, &self.sender, &mut buf);
        put_string(5, &self.receiver, &mut buf);
        let height = match &self.timeout_height {
            Some(height) => Some(height.to_bytes()),
            None => None,
        };
        put_message(6, &height, &mut buf);
        put_uint64(7, self.timeout_timestamp, &mut buf);
        assert(buf@ =~= self.deep_view().encoding());
        buf
    }
}

impl MsgRegisterAccountView {
    /// The wire encoding.
    pub open spec fn encoding(self) -> Seq<u8> {
        string_field(1, self.owner) + string_field(2, self.connection_id) + string_field(
            3,
            self.version,
        )
    }
}

impl MsgRegisterAccount {
    /// The name of the message type.
    pub fn type_url() -> (r: String)
        ensures
            r@ == MSG_REGISTER_ACCOUNT@,
    {
        MSG_REGISTER_ACCOUNT.to_owned()
    }

    /// The message on the wire.
    pub fn to_bytes(&self) -> (r: Vec<u8>)
        ensures
            r@ == self.deep_view().encoding(),
    {
        let mut buf: Vec<u8> = Vec::new();
        put_string(1, &self.owner, &mut buf);
        put_string(2, &self.connection_id, &mut buf);
        put_string(3, &self.version, &mut buf);
        assert(buf@ =~= self.deep_view().encoding());
        buf
    }
}

impl MsgSubmitTxView {
    /// The wire encoding.
    pub open spec fn encoding(self) -> Seq<u8> {
        string_field(1, self.owner) + string_field(2, self.connection_id) + message_field(
            3,
            match self.msg {
                Some(any) => Some(any.encoding()),
                None => None,
            },
        )
    }
}

impl MsgSubmitTx {
    /// The name of the message type.
    pub fn type_url() -> (r: String)
        ensures
            r@ == MSG_SUBMIT_TX@,
    {
        MSG_SUBMIT_TX.to_owned()
    }

    /// The message on the wire.
    pub fn to_bytes(&self) -> (r: Vec<u8>)
        ensures
            r@ == self.deep_view().encoding(),
    {
        let mut buf: Vec<u8> = Vec::new();
        put_string(1, &self.owner, &mut buf);
        put_string(2, &self.connection_id, &mut buf);
        let msg = match &self.msg {
            Some(any) => Some(any.to_bytes()),
            None => None,
        };
        put_message(3, &msg, &mut buf);
        assert(buf@ =~= self.deep_view().encoding());
        buf
    }
}

} // verus!
