use vstd::prelude::*;
use vstd::string::*;

use crate::codecs::{account_id_from_hex, decode_account_id, parse_principal, principal_from_text};
use crate::text::{free_of, join_with, lemma_split_join, split_on, split_text, texts};
use crate::types::{IntentStatus, SupportedNetwork, TransactionType};

verus! {

/// A token path such as `icp:native` or `icp:icrc1:<principal>`.
pub type TokenPath = String;

/// The fee, in e8s, that a native ICP transfer offers.
pub const RECOMMENDED_ICP_TRANSACTION_FEE: u64 = 10000;

/// The fee that an ICRC-1 transfer offers.
pub const RECOMMENDED_ICRC1_TRANSACTION_FEE: u64 = 1000000;

/// What every adapter reports about itself.
pub trait BlockchainAdapter {
    spec fn spec_network(&self) -> SupportedNetwork;

    spec fn spec_token(&self) -> Seq<char>;

    spec fn spec_intent_type(&self) -> TransactionType;

    /// The network the adapter moves funds on.
    fn network(&self) -> (r: SupportedNetwork)
        ensures
            r == self.spec_network(),
    ;

    /// The token path the adapter serves.
    fn token(&self) -> (r: TokenPath)
        ensures
            r@ == self.spec_token(),
    ;

    /// The kind of intent the adapter carries out.
    fn intent_type(&self) -> (r: TransactionType)
        ensures
            r == self.spec_intent_type(),
    ;
}

/// Transfers of native ICP through the ICP ledger.
pub struct ICPNativeTransferAdapter {
    pub(crate) network: SupportedNetwork,
    pub(crate) token: TokenPath,
    pub(crate) intent_type: TransactionType,
}

/// Transfers of native ETH through the EVM signer.
pub struct ETHNativeTransferAdapter {
    pub(crate) network: SupportedNetwork,
    pub(crate) token: TokenPath,
    pub(crate) intent_type: TransactionType,
}

/// Transfers of ICRC-1 tokens through the token's own ledger canister.
pub struct ICRC1TransferAdapter {
    pub(crate) network: SupportedNetwork,
    pub(crate) token: TokenPath,
    pub(crate) intent_type: TransactionType,
}

impl BlockchainAdapter for ICPNativeTransferAdapter {
    closed spec fn spec_network(&self) -> SupportedNetwork {
        self.network
    }

    closed spec fn spec_token(&self) -> Seq<char> {
        self.token@
    }

    closed spec fn spec_intent_type(&self) -> TransactionType {
        self.intent_type
    }

    fn network(&self) -> (r: SupportedNetwork) {
        self.network
    }

    fn token(&self) -> (r: TokenPath) {
        self.token.clone()
    }

    fn intent_type(&self) -> (r: TransactionType) {
        self.intent_type
    }
}

impl BlockchainAdapter for ETHNativeTransferAdapter {
    closed spec fn spec_network(&self) -> SupportedNetwork {
        self.network
    }

    closed spec fn spec_token(&self) -> Seq<char> {
        self.token@
    }

    closed spec fn spec_intent_type(&self) -> TransactionType {
        self.intent_type
    }

    fn network(&self) -> (r: SupportedNetwork) {
        self.network
    }

    fn token(&self) -> (r: TokenPath) {
        self.token.clone()
    }

    fn intent_type(&self) -> (r: TransactionType) {
        self.intent_type
    }
}

impl BlockchainAdapter for ICRC1TransferAdapter {
    closed spec fn spec_network(&self) -> SupportedNetwork {
        self.network
    }

    closed spec fn spec_token(&self) -> Seq<char> {
        self.token@
    }

    closed spec fn spec_intent_type(&self) -> TransactionType {
        self.intent_type
    }

    fn network(&self) -> (r: SupportedNetwork) {
        self.network
    }

    fn token(&self) -> (r: TokenPath) {
        self.token.clone()
    }

    fn intent_type(&self) -> (r: TransactionType) {
        self.intent_type
    }
}

impl Clone for ICPNativeTransferAdapter {
    fn clone(&self) -> (r: Self)
        ensures
            r == *self,
    {
        ICPNativeTransferAdapter {
            network: self.network,
            token: self.token.clone(),
            intent_type: self.intent_type,
        }
    }
}

impl Clone for ETHNativeTransferAdapter {
    fn clone(&self) -> (r: Self)
        ensures
            r == *self,
    {
        ETHNativeTransferAdapter {
            network: self.network,
            token: self.token.clone(),
            intent_type: self.intent_type,
        }
    }
}

impl Clone for ICRC1TransferAdapter {
    fn clone(&self) -> (r: Self)
        ensures
            r == *self,
    {
        ICRC1TransferAdapter {
            network: self.network,
            token: self.token.clone(),
            intent_type: self.intent_type,
        }
    }
}

impl ICPNativeTransferAdapter {
    /// The adapter for native ICP transfers: network ICP, token `icp:native`.
    pub fn new() -> (a: ICPNativeTransferAdapter)
        ensures
            a.spec_network() == SupportedNetwork::ICP,
            a.spec_token() == "icp:native"@,
            a.spec_intent_type() == TransactionType::Transfer,
    {
        ICPNativeTransferAdapter {
            network: SupportedNetwork::ICP,
            token: String::from_str("icp:native"),
            intent_type: TransactionType::Transfer,
        }
    }
}

impl ETHNativeTransferAdapter {
    /// The adapter for native ETH transfers: network ETH, token `eth:native`.
    pub fn new() -> (a: ETHNativeTransferAdapter)
        ensures
            a.spec_network() == SupportedNetwork::ETH,
            a.spec_token() == "eth:native"@,
            a.spec_intent_type() == TransactionType::Transfer,
    {
        ETHNativeTransferAdapter {
            network: SupportedNetwork::ETH,
            token: String::from_str("eth:native"),
            intent_type: TransactionType::Transfer,
        }
    }
}

impl ICRC1TransferAdapter {
    /// The adapter for ICRC-1 transfers: network ICP, token `icp:icrc1`.
    pub fn new() -> (a: ICRC1TransferAdapter)
        ensures
            a.spec_network() == SupportedNetwork::ICP,
            a.spec_token() == "icp:icrc1"@,
            a.spec_intent_type() == TransactionType::Transfer,
    {
        ICRC1TransferAdapter {
            network: SupportedNetwork::ICP,
            token: String::from_str("icp:icrc1"),
            intent_type: TransactionType::Transfer,
        }
    }

    /// The ledger canister named by an ICRC-1 token path
    /// `<network>:<standard>:<canister>`: the third of exactly three
    /// colon-separated pieces, or the error "Invalid token format".
    pub fn extract_token_identifier(token: TokenPath) -> (r: Result<String, String>)
        ensures
            match r {
                Ok(id) => split_on(token@, ':').len() == 3 && id@ == split_on(token@, ':')[2],
                Err(e) => split_on(token@, ':').len() != 3 && e@ == "Invalid token format"@,
            },
    {
        let parts = split_text(token.as_str(), ':');
        if parts.len() != 3 {
            return Err(String::from_str("Invalid token format"));
        }
        proof {
            assert(texts(parts@)[2] == parts@[2]@);
        }
        Ok(parts[2].clone())
    }
}

/// A native ICP ledger transfer, in plain values: the 32-byte account to
/// credit, the amount and fee in e8s, the memo and the index of the
/// account's own subaccount to debit.
pub struct IcpTransferArgs {
    pub to: Vec<u8>,
    pub amount_e8s: u64,
    pub fee_e8s: u64,
    pub memo: u64,
    pub from_subaccount: u64,
}

/// A request to the EVM signer.
pub struct TransactionRequestBasic {
    pub to: String,
    pub value: String,
    pub chain: String,
}

/// An ICRC-1 transfer, in plain values: the ledger canister and the
/// receiving owner (principal bytes), the amount, the fee and the memo.
pub struct Icrc1TransferArgs {
    pub ledger: Vec<u8>,
    pub to_owner: Vec<u8>,
    pub amount: u64,
    pub fee: u64,
    pub memo: Vec<u8>,
}

/// What preparing an ICRC-1 transfer comes to.
pub enum Icrc1Preparation {
    /// The transfer to send.
    Ready(Icrc1TransferArgs),
    /// The transfer is refused with this message.
    Refused(String),
    /// The recipient is no principal; the canister traps on it.
    InvalidRecipient,
    /// The token's ledger is no principal; the canister traps on it.
    InvalidLedger,
}

impl ICPNativeTransferAdapter {
    /// The ledger transfer that sends `amount_e8s` to the account whose hex
    /// text is `to`, with the recommended fee, memo 0, from subaccount 0.
    /// Where the hex text is no account, the decoder's error comes back (the
    /// canister traps on it).
    pub fn transfer_args(&self, to: &str, amount_e8s: u64) -> (r: Result<IcpTransferArgs, String>)
        ensures
            match account_id_from_hex(to@) {
                Ok(account) => r matches Ok(args) && args.to@ == account && args.amount_e8s
                    == amount_e8s && args.fee_e8s == RECOMMENDED_ICP_TRANSACTION_FEE && args.memo
                    == 0 && args.from_subaccount == 0,
                Err(e) => r matches Err(m) && m@ == e,
            },
    {
        match decode_account_id(to) {
            Ok(account) => Ok(
                IcpTransferArgs {
                    to: account,
                    amount_e8s,
                    fee_e8s: RECOMMENDED_ICP_TRANSACTION_FEE,
                    memo: 0,
                    from_subaccount: 0,
                },
            ),
            Err(e) => Err(e),
        }
    }

    /// The result of a ledger transfer call: the block index it was
    /// recorded in, or a message for a refused transfer (given the debug
    /// text of the ledger's error) or for a rejected call (given the debug
    /// text of the rejection code and the rejection message).
    pub fn transfer_result<T>(reply: Result<Result<T, String>, (String, String)>) -> (r: Result<T, String>)
        ensures
            match reply {
                Ok(Ok(block)) => r matches Ok(b) && b == block,
                Ok(Err(detail)) => r matches Err(m) && m@ == "transfer error: "@ + detail@,
                Err((code, message)) => r matches Err(m) && m@ == "unexpected error: "@ + code@
                    + ", message: "@ + message@,
            },
    {
        match reply {
            Ok(Ok(block)) => Ok(block),
            Ok(Err(detail)) => Err(String::from_str("transfer error: ").concat(detail.as_str())),
            Err((code, message)) => Err(
                String::from_str("unexpected error: ").concat(code.as_str()).concat(
                    ", message: ",
                ).concat(message.as_str()),
            ),
        }
    }

    /// What executing a native ICP transfer reports, given how the transfer
    /// went.
    pub fn execution_result<T>(transfer: Result<T, String>) -> (r: Result<IntentStatus, String>)
        ensures
            match transfer {
                Ok(_) => r matches Ok(IntentStatus::Completed(m)) && m@
                    == "Successfully transferred native ICP."@,
                Err(e) => r matches Err(m) && m == e,
            },
    {
        match transfer {
            Ok(_) => Ok(IntentStatus::Completed(String::from_str("Successfully transferred native ICP."))),
            Err(e) => Err(e),
        }
    }
}

impl ETHNativeTransferAdapter {
    /// The request that sends `value` (the amount's decimal text) to `to` on
    /// the chain `eth`.
    pub fn transfer_request(&self, to: &str, value: &str) -> (r: TransactionRequestBasic)
        ensures
            r.to@ == to@,
            r.value@ == value@,
            r.chain@ == "eth"@,
    {
        TransactionRequestBasic {
            to: String::from_str(to),
            value: String::from_str(value),
            chain: String::from_str("eth"),
        }
    }

    /// The result of a signer call: the transaction hash where the status
    /// is `Success`, else the status itself as the error.
    pub fn transfer_result(status: String, hash: String) -> (r: Result<String, String>)
        ensures
            r == (if status@ == "Success"@ {
                Ok::<String, String>(hash)
            } else {
                Err::<String, String>(status)
            }),
    {
        if status == String::from_str("Success") {
            Ok(hash)
        } else {
            Err(status)
        }
    }

    /// What executing a native ETH transfer reports, given how the transfer
    /// went.
    pub fn execution_result(transfer: Result<String, String>) -> (r: Result<IntentStatus, String>)
        ensures
            match transfer {
                Ok(hash) => r matches Ok(IntentStatus::Completed(m)) && m@
                    == "Successfully transferred native ETH: "@ + hash@,
                Err(e) => r matches Err(m) && m == e,
            },
    {
        match transfer {
            Ok(hash) => Ok(
                IntentStatus::Completed(
                    String::from_str("Successfully transferred native ETH: ").concat(hash.as_str()),
                ),
            ),
            Err(e) => Err(e),
        }
    }
}

impl ICRC1TransferAdapter {
    /// The ICRC-1 transfer that sends `amount` of the token at path `token`
    /// to the principal whose text is `to`, with the recommended fee and an
    /// empty memo.  The recipient is read first; then the path must have
    /// exactly three pieces, else the transfer is refused with
    /// "Invalid token format"; then its third piece must be a principal.
    pub fn transfer_args(&self, token: &str, to: &str, amount: u64) -> (r: Icrc1Preparation)
        ensures
            match principal_from_text(to@) {
                None => r is InvalidRecipient,
                Some(owner) => if split_on(token@, ':').len() != 3 {
                    r matches Icrc1Preparation::Refused(m) && m@ == "Invalid token format"@
                } else {
                    match principal_from_text(split_on(token@, ':')[2]) {
                        None => r is InvalidLedger,
                        Some(ledger) => r matches Icrc1Preparation::Ready(args) && args.ledger@
                            == ledger && args.to_owner@ == owner && args.amount == amount
                            && args.fee == RECOMMENDED_ICRC1_TRANSACTION_FEE && args.memo@.len()
                            == 0,
                    }
                },
            },
    {
        let owner = match parse_principal(to) {
            Some(owner) => owner,
            None => return Icrc1Preparation::InvalidRecipient,
        };
        let identifier = match Self::extract_token_identifier(String::from_str(token)) {
            Ok(identifier) => identifier,
            Err(e) => return Icrc1Preparation::Refused(e),
        };
        match parse_principal(identifier.as_str()) {
            Some(ledger) => Icrc1Preparation::Ready(
                Icrc1TransferArgs {
                    ledger,
                    to_owner: owner,
                    amount,
                    fee: RECOMMENDED_ICRC1_TRANSACTION_FEE,
                    memo: Vec::new(),
                },
            ),
            None => Icrc1Preparation::InvalidLedger,
        }
    }

    /// The result of an `icrc1_transfer` call: the block index, or a message
    /// for a refused transfer (given the debug text of the ledger's error)
    /// or for a rejected call (given the debug text of the rejection code
    /// and the rejection message).
    pub fn transfer_result<T>(reply: Result<Result<T, String>, (String, String)>) -> (r: Result<T, String>)
        ensures
            match reply {
                Ok(Ok(block)) => r matches Ok(b) && b == block,
                Ok(Err(detail)) => r matches Err(m) && m@ == "ICRC-1 transfer error: "@ + detail@,
                Err((code, message)) => r matches Err(m) && m@ == "Canister call rejected: "@
                    + code@ + " - "@ + message@,
            },
    {
        match reply {
            Ok(Ok(block)) => Ok(block),
            Ok(Err(detail)) => Err(String::from_str("ICRC-1 transfer error: ").concat(detail.as_str())),
            Err((code, message)) => Err(
                String::from_str("Canister call rejected: ").concat(code.as_str()).concat(
                    " - ",
                ).concat(message.as_str()),
            ),
        }
    }

    /// What executing an ICRC-1 transfer reports, given how the transfer
    /// went.
    pub fn execution_result<T>(transfer: Result<T, String>) -> (r: Result<IntentStatus, String>)
        ensures
            match transfer {
                Ok(_) => r matches Ok(IntentStatus::Completed(m)) && m@
                    == "Successfully transferred an ICRC-1 token."@,
                Err(e) => r matches Err(m) && m == e,
            },
    {
        match transfer {
            Ok(_) => Ok(
                IntentStatus::Completed(String::from_str("Successfully transferred an ICRC-1 token.")),
            ),
            Err(e) => Err(e),
        }
    }
}

/// A path written as three colon-free pieces with colons between them splits
/// into exactly those pieces, so its identifier is the third.
pub proof fn law_three_piece_token(network: Seq<char>, standard: Seq<char>, ledger: Seq<char>)
    requires
        free_of(network, ':'),
        free_of(standard, ':'),
        free_of(ledger, ':'),
    ensures
        split_on(network + seq![':'] + standard + seq![':'] + ledger, ':') == seq![
            network,
            standard,
            ledger,
        ],
{
    let parts = seq![network, standard, ledger];
    assert forall|k: int| 0 <= k < parts.len() implies free_of(#[trigger] parts[k], ':') by {
        if k == 0 {
            assert(parts[k] == network);
        } else if k == 1 {
            assert(parts[k] == standard);
        } else {
            assert(parts[k] == ledger);
        }
    }
    lemma_split_join(parts, ':');
    let two = seq![network, standard];
    assert(parts.drop_last() =~= two);
    assert(two.drop_last() =~= seq![network]);
    assert(join_with(seq![network], seq![':']) == network);
    assert(join_with(two, seq![':']) == network + seq![':'] + standard);
    assert(join_with(parts, seq![':']) == join_with(two, seq![':']) + seq![':'] + ledger);
    assert(join_with(parts, seq![':']) =~= network + seq![':'] + standard + seq![':'] + ledger);
}

} // verus!
