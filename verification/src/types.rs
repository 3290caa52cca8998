use vstd::prelude::*;

verus! {

/// What an intent asks the network to do.
#[derive(Debug, Clone, Copy, PartialEq, Eq, Structural)]
pub enum TransactionType {
    Swap,
    Transfer,
}

impl TransactionType {
    /// The variant's name, as text.
    pub open spec fn name(self) -> Seq<char> {
        match self {
            TransactionType::Swap => seq!['S', 'w', 'a', 'p'],
            TransactionType::Transfer => seq!['T', 'r', 'a', 'n', 's', 'f', 'e', 'r'],
        }
    }

    /// The variant's name as a static string ("Swap" or "Transfer").
    pub fn as_static_str(&self) -> (s: &'static str)
        ensures
            s@ == self.name(),
    {
        match self {
            TransactionType::Swap => {
                proof {
                    reveal_strlit("Swap");
                }
                "Swap"
            },
            TransactionType::Transfer => {
                proof {
                    reveal_strlit("Transfer");
                }
                "Transfer"
            },
        }
    }
}

/// Where an intent stands, with a human-readable detail.
#[derive(Debug, Clone, PartialEq, Eq)]
pub enum IntentStatus {
    Pending(String),
    InProgress(String),
    Completed(String),
    Rejected(String),
    Failed(String),
}

/// The chains this account can move funds on.
#[derive(Debug, Clone, Copy, PartialEq, Eq, Structural)]
pub enum SupportedNetwork {
    ICP,
    ETH,
}

/// A token path such as `icp:native`, `icp:icrc1:<principal>` or
/// `eth:<standard>:<address>`.
#[derive(Debug, Clone, PartialEq, Eq)]
pub struct Token(pub String);

impl Token {
    /// The token path as text.
    pub fn to_string(&self) -> (s: String)
        ensures
            s@ == self.0@,
    {
        self.0.clone()
    }
}

#[verifier::external_type_specification]
#[verifier::external_body]
pub struct ExPrincipal(candid::Principal);

/// One signer's vote on an intent.
pub struct Decision {
    id: u64,
    intent_id: u64,
    signee: candid::Principal,
    approved: bool,
}

impl Decision {
    pub closed spec fn spec_id(&self) -> u64 {
        self.id
    }

    pub closed spec fn spec_intent_id(&self) -> u64 {
        self.intent_id
    }

    pub closed spec fn spec_signee(&self) -> candid::Principal {
        self.signee
    }

    pub closed spec fn spec_approved(&self) -> bool {
        self.approved
    }

    /// A decision with the given fields.
    pub fn new(id: u64, intent_id: u64, signee: candid::Principal, approved: bool) -> (d: Decision)
        ensures
            d.spec_id() == id,
            d.spec_intent_id() == intent_id,
            d.spec_signee() == signee,
            d.spec_approved() == approved,
    {
        Decision { id, intent_id, signee, approved }
    }

    /// The decision's own id.
    pub fn id(&self) -> (r: u64)
        ensures
            r == self.spec_id(),
    {
        self.id
    }

    /// The intent the decision is about.
    pub fn intent_id(&self) -> (r: u64)
        ensures
            r == self.spec_intent_id(),
    {
        self.intent_id
    }

    /// The signer who decided.
    pub fn signee(&self) -> (r: candid::Principal)
        ensures
            r == self.spec_signee(),
    {
        self.signee
    }

    /// Whether the signer approved.
    pub fn approved(&self) -> (r: bool)
        ensures
            r == self.spec_approved(),
    {
        self.approved
    }
}

} // verus!
