//! The cross-chain transfer protocol as this bridge sees it: who its programs
//! are, how destination chains are numbered, the message that the destination
//! vault decodes, and where the protocol keeps its accounts.

use crate::address::{
    derive_labelled, derive_labelled_with, derived_view, program_address, Address,
};
use crate::wire::{
    be_bytes_u32, be_bytes_u64, be_value, lemma_be_bytes_of_value_u32,
    lemma_be_bytes_of_value_u64, lemma_be_value_of_u32, lemma_be_value_of_u64, u32_from_be,
    u32_to_be, u64_from_be, u64_to_be,
};
use vstd::prelude::*;

verus! {

/// The protocol's token messenger program,
/// `CCTPmbSD7gX1bxKPAmg77w8oFzNFpaQiQUWD43TKaecd`. The production and the
/// test network are configured with the same program.
pub const TOKEN_MESSENGER: [u8; 32] = [
    0xa6, 0x5f, 0xc9, 0x89, 0xdb, 0x5f, 0x5d, 0x42, 0x75, 0x9f, 0x3a, 0x54, 0x60, 0x58, 0xef, 0xcd,
    0xcd, 0xc0, 0xbf, 0x3c, 0x18, 0x98, 0x07, 0x2d, 0x8e, 0xb4, 0x5d, 0xd1, 0xd8, 0x05, 0x08, 0xce,
];

/// The protocol's message transmitter program,
/// `CCTPiPYPc6AsJuwueEnWgSgucamXDZwBd53dQ11YiKX3`. The production and the
/// test network are configured with the same program.
pub const MESSAGE_TRANSMITTER: [u8; 32] = [
    0xa6, 0x5f, 0xc9, 0x43, 0x41, 0x9a, 0x5a, 0xd5, 0x90, 0x04, 0x2f, 0xd6, 0x7c, 0x97, 0x91, 0xfd,
    0x01, 0x5a, 0xcf, 0x53, 0xa5, 0x4c, 0xc8, 0x23, 0xed, 0xb8, 0xff, 0x81, 0xb9, 0xed, 0x72, 0x2e,
];

/// The protocol's number for Ethereum.
pub const DOMAIN_ETHEREUM: u32 = 0;

/// The protocol's number for Avalanche.
pub const DOMAIN_AVALANCHE: u32 = 1;

/// The protocol's number for Optimism.
pub const DOMAIN_OPTIMISM: u32 = 2;

/// The protocol's number for Arbitrum.
pub const DOMAIN_ARBITRUM: u32 = 3;

/// The protocol's number for Base, the destination of this bridge. The
/// protocol keeps the two numbers before this one for itself.
pub const DOMAIN_BASE: u32 = 6;

/// The protocol's number for Polygon.
pub const DOMAIN_POLYGON: u32 = 7;

/// The only layout of the message body in use.
pub const MESSAGE_BODY_VERSION: u32 = 0;

/// A message body is this long, whatever it holds.
pub const MESSAGE_BODY_LEN: usize = 32;

/// Why a message or its routing was not accepted.
#[derive(Clone, Copy, Debug, PartialEq, Eq, Structural)]
pub enum ErrorCode {
    /// The bytes are too few to hold a message body.
    InvalidMessageBody,
    /// The destination chain is not one the protocol numbers.
    InvalidDestinationDomain,
    /// The counterparty on the destination chain is not the known one.
    InvalidRemoteTokenMessenger,
}

impl ErrorCode {
    /// The text shown to the caller for each rejection.
    pub open spec fn spec_message(self) -> Seq<char> {
        match self {
            ErrorCode::InvalidMessageBody => "Invalid message body format"@,
            ErrorCode::InvalidDestinationDomain => "Invalid destination domain"@,
            ErrorCode::InvalidRemoteTokenMessenger => "Invalid remote token messenger"@,
        }
    }

    /// The text for this rejection.
    pub fn message(&self) -> (text: &'static str)
        ensures
            text@ == self.spec_message(),
    {
        match self {
            ErrorCode::InvalidMessageBody => "Invalid message body format",
            ErrorCode::InvalidDestinationDomain => "Invalid destination domain",
            ErrorCode::InvalidRemoteTokenMessenger => "Invalid remote token messenger",
        }
    }
}

/// The instruction that travels to the destination chain: pay `amount` of the
/// stablecoin, in millionths of a unit, to `recipient` there.
#[derive(Clone, Copy, Debug, PartialEq, Eq)]
pub struct CCTPMessageBody {
    pub version: u32,
    pub recipient: [u8; 20],
    pub amount: u64,
}

/// A message body as plain values.
pub struct MessageBodyView {
    pub version: u32,
    pub recipient: Seq<u8>,
    pub amount: u64,
}

impl View for CCTPMessageBody {
    type V = MessageBodyView;

    open spec fn view(&self) -> MessageBodyView {
        MessageBodyView { version: self.version, recipient: self.recipient@, amount: self.amount }
    }
}

impl MessageBodyView {
    /// The recipient is an address of the destination chain.
    pub open spec fn well_formed(self) -> bool {
        self.recipient.len() == 20
    }

    /// The message on the wire: the version in four bytes, the recipient as it
    /// is, the amount in eight bytes, both numbers most significant byte first.
    pub open spec fn encode(self) -> Seq<u8> {
        be_bytes_u32(self.version) + self.recipient + be_bytes_u64(self.amount)
    }

    /// The message that `bytes` start with. Fewer than thirty-two bytes hold
    /// none; what follows the thirty-second byte is not looked at.
    pub open spec fn decode(bytes: Seq<u8>) -> Result<MessageBodyView, ErrorCode> {
        if bytes.len() < MESSAGE_BODY_LEN {
            Err(ErrorCode::InvalidMessageBody)
        } else {
            Ok(
                MessageBodyView {
                    version: be_value(bytes.subrange(0, 4)) as u32,
                    recipient: bytes.subrange(4, 24),
                    amount: be_value(bytes.subrange(24, 32)) as u64,
                },
            )
        }
    }
}

/// What decoding returned, over plain values.
pub open spec fn decoded_view(decoded: Result<CCTPMessageBody, ErrorCode>) -> Result<
    MessageBodyView,
    ErrorCode,
> {
    match decoded {
        Ok(body) => Ok(body@),
        Err(error) => Err(error),
    }
}

/// Every message takes thirty-two bytes on the wire, and decoding them gives
/// the message back.
pub proof fn lemma_decode_encode(body: MessageBodyView)
    requires
        body.well_formed(),
    ensures
        body.encode().len() == MESSAGE_BODY_LEN,
        MessageBodyView::decode(body.encode()) == Ok::<MessageBodyView, ErrorCode>(body),
{
    let bytes = body.encode();
    assert(bytes.subrange(0, 4) =~= be_bytes_u32(body.version));
    assert(bytes.subrange(4, 24) =~= body.recipient);
    assert(bytes.subrange(24, 32) =~= be_bytes_u64(body.amount));
    lemma_be_value_of_u32(body.version);
    lemma_be_value_of_u64(body.amount);
}

/// Whatever message is written out, reading it back gives that message.
pub proof fn lemma_round_trip(body: CCTPMessageBody)
    ensures
        body@.encode().len() == MESSAGE_BODY_LEN,
        MessageBodyView::decode(body@.encode()) == Ok::<MessageBodyView, ErrorCode>(body@),
        forall|other: CCTPMessageBody|
            MessageBodyView::decode(body@.encode()) == Ok::<MessageBodyView, ErrorCode>(other@)
                ==> other == body,
{
    lemma_decode_encode(body@);
    assert forall|other: CCTPMessageBody|
        MessageBodyView::decode(body@.encode()) == Ok::<MessageBodyView, ErrorCode>(
            other@,
        ) implies other == body by {
        assert(other.recipient =~= body.recipient);
    }
}

/// Bytes beyond the thirty-second change nothing of what is decoded.
pub proof fn lemma_decode_ignores_tail(bytes: Seq<u8>, tail: Seq<u8>)
    requires
        bytes.len() >= MESSAGE_BODY_LEN,
    ensures
        MessageBodyView::decode(bytes + tail) == MessageBodyView::decode(bytes),
{
    let longer = bytes + tail;
    assert(longer.subrange(0, 4) =~= bytes.subrange(0, 4));
    assert(longer.subrange(4, 24) =~= bytes.subrange(4, 24));
    assert(longer.subrange(24, 32) =~= bytes.subrange(24, 32));
}

/// The first thirty-two bytes of any input that decodes are the encoding of
/// what they decode to.
pub proof fn lemma_encode_decode(bytes: Seq<u8>)
    requires
        bytes.len() >= MESSAGE_BODY_LEN,
    ensures
        MessageBodyView::decode(bytes) is Ok,
        MessageBodyView::decode(bytes).unwrap().well_formed(),
        MessageBodyView::decode(bytes).unwrap().encode() == bytes.take(MESSAGE_BODY_LEN as int),
{
    lemma_be_bytes_of_value_u32(bytes.subrange(0, 4));
    lemma_be_bytes_of_value_u64(bytes.subrange(24, 32));
    let body = MessageBodyView::decode(bytes).unwrap();
    assert(body.encode() =~= bytes.take(MESSAGE_BODY_LEN as int));
}

impl CCTPMessageBody {
    /// A message in the current layout.
    pub fn new(recipient: [u8; 20], amount: u64) -> (body: CCTPMessageBody)
        ensures
            body.version == MESSAGE_BODY_VERSION,
            body.recipient == recipient,
            body.amount == amount,
    {
        CCTPMessageBody { version: MESSAGE_BODY_VERSION, recipient, amount }
    }

    /// Writes the message as it goes over the wire.
    pub fn to_bytes(&self) -> (bytes: Vec<u8>)
        ensures
            bytes@ == self@.encode(),
            bytes@.len() == MESSAGE_BODY_LEN,
    {
        let version = u32_to_be(self.version);
        let amount = u64_to_be(self.amount);
        let mut bytes: Vec<u8> = Vec::with_capacity(MESSAGE_BODY_LEN);
        let mut i: usize = 0;
        while i < 4
            invariant
                i <= 4,
                bytes@ == version@.take(i as int),
            decreases 4 - i,
        {
            bytes.push(version[i]);
            proof {
                assert(version@.take(i as int).push(version@[i as int]) =~= version@.take(i + 1));
            }
            i += 1;
        }
        proof {
            assert(version@.take(4) =~= version@);
        }
        i = 0;
        while i < 20
            invariant
                i <= 20,
                bytes@ == version@ + self.recipient@.take(i as int),
            decreases 20 - i,
        {
            bytes.push(self.recipient[i]);
            proof {
                assert((version@ + self.recipient@.take(i as int)).push(self.recipient@[i as int])
                    =~= version@ + self.recipient@.take(i + 1));
            }
            i += 1;
        }
        proof {
            assert(self.recipient@.take(20) =~= self.recipient@);
        }
        i = 0;
        while i < 8
            invariant
                i <= 8,
                bytes@ == version@ + self.recipient@ + amount@.take(i as int),
            decreases 8 - i,
        {
            bytes.push(amount[i]);
            proof {
                assert((version@ + self.recipient@ + amount@.take(i as int)).push(
                    amount@[i as int],
                ) =~= version@ + self.recipient@ + amount@.take(i + 1));
            }
            i += 1;
        }
        proof {
            assert(amount@.take(8) =~= amount@);
        }
        bytes
    }

    /// Reads the message that `bytes` start with.
    pub fn from_bytes(bytes: &[u8]) -> (decoded: Result<CCTPMessageBody, ErrorCode>)
        ensures
            decoded_view(decoded) == MessageBodyView::decode(bytes@),
            decoded is Err <==> bytes@.len() < MESSAGE_BODY_LEN,
    {
        if bytes.len() < MESSAGE_BODY_LEN {
            return Err(ErrorCode::InvalidMessageBody);
        }
        let version = u32_from_be(bytes, 0);
        let mut recipient = [0u8; 20];
        let mut i: usize = 0;
        while i < 20
            invariant
                i <= 20,
                bytes@.len() >= MESSAGE_BODY_LEN,
                forall|j: int| 0 <= j < i ==> recipient@[j] == bytes@[4 + j],
            decreases 20 - i,
        {
            recipient[i] = bytes[4 + i];
            i += 1;
        }
        let amount = u64_from_be(bytes, 24);
        proof {
            assert(recipient@ =~= bytes@.subrange(4, 24));
        }
        Ok(CCTPMessageBody { version, recipient, amount })
    }
}

/// The label `token_messenger`.
pub const TOKEN_MESSENGER_SEED: [u8; 15] = [
    116, 111, 107, 101, 110, 95, 109, 101, 115, 115, 101, 110, 103, 101, 114,
];

/// The label `message_transmitter`.
pub const MESSAGE_TRANSMITTER_SEED: [u8; 19] = [
    109, 101, 115, 115, 97, 103, 101, 95, 116, 114, 97, 110, 115, 109, 105, 116, 116, 101, 114,
];

/// The label `token_minter`.
pub const TOKEN_MINTER_SEED: [u8; 12] = [116, 111, 107, 101, 110, 95, 109, 105, 110, 116, 101, 114];

/// The label `local_token`.
pub const LOCAL_TOKEN_SEED: [u8; 11] = [108, 111, 99, 97, 108, 95, 116, 111, 107, 101, 110];

/// The messenger registry of the protocol program `program_id`.
pub fn derive_token_messenger_pda(program_id: &Address) -> (derived: Option<(Address, u8)>)
    ensures
        derived_view(derived) == program_address(seq![TOKEN_MESSENGER_SEED@], program_id@),
{
    derive_labelled(&TOKEN_MESSENGER_SEED, program_id)
}

/// The transmitter registry of the protocol program `program_id`.
pub fn derive_message_transmitter_pda(program_id: &Address) -> (derived: Option<(Address, u8)>)
    ensures
        derived_view(derived) == program_address(seq![MESSAGE_TRANSMITTER_SEED@], program_id@),
{
    derive_labelled(&MESSAGE_TRANSMITTER_SEED, program_id)
}

/// The minter registry of the protocol program `program_id`.
pub fn derive_token_minter_pda(program_id: &Address) -> (derived: Option<(Address, u8)>)
    ensures
        derived_view(derived) == program_address(seq![TOKEN_MINTER_SEED@], program_id@),
{
    derive_labelled(&TOKEN_MINTER_SEED, program_id)
}

/// The registry entry that the protocol program `program_id` keeps for the
/// asset minted by `mint`.
pub fn derive_local_token_pda(program_id: &Address, mint: &Address) -> (derived: Option<
    (Address, u8),
>)
    ensures
        derived_view(derived) == program_address(seq![LOCAL_TOKEN_SEED@, mint@], program_id@),
{
    derive_labelled_with(&LOCAL_TOKEN_SEED, &mint.bytes, program_id)
}

/// The token messenger on the destination chain, production network.
pub const REMOTE_TOKEN_MESSENGER_BASE_MAINNET: [u8; 32] = [
    0x00, 0x00, 0x00, 0x00, 0x00, 0x00, 0x00, 0x00, 0x00, 0x00, 0x00, 0x00, 0x16, 0x82, 0xae, 0x63,
    0x75, 0xc4, 0xe4, 0xa9, 0x7e, 0x4b, 0x58, 0x3b, 0xc3, 0x94, 0xc8, 0x61, 0xa4, 0x6d, 0x89, 0x62,
];

/// The token messenger on the destination chain, test network.
pub const REMOTE_TOKEN_MESSENGER_BASE_TESTNET: [u8; 32] = [
    0x00, 0x00, 0x00, 0x00, 0x00, 0x00, 0x00, 0x00, 0x00, 0x00, 0x00, 0x00, 0x78, 0x65, 0xfa, 0xfc,
    0x2d, 0xb2, 0x09, 0x36, 0x69, 0xd9, 0x2c, 0x0f, 0x33, 0xae, 0xef, 0x29, 0x10, 0x86, 0xbe, 0xfd,
];

/// The counterparty on the destination chain for the network the program is
/// built for.
pub fn get_remote_token_messenger_base(mainnet: bool) -> (remote: [u8; 32])
    ensures
        remote == if mainnet {
            REMOTE_TOKEN_MESSENGER_BASE_MAINNET
        } else {
            REMOTE_TOKEN_MESSENGER_BASE_TESTNET
        },
{
    if mainnet {
        REMOTE_TOKEN_MESSENGER_BASE_MAINNET
    } else {
        REMOTE_TOKEN_MESSENGER_BASE_TESTNET
    }
}

} // verus!
