use vstd::prelude::*;
use vstd::string::*;

use crate::adapters::{
    BlockchainAdapter, ETHNativeTransferAdapter, ICPNativeTransferAdapter, ICRC1TransferAdapter,
    TokenPath,
};
use crate::keyed::{distinct_keys, keyed_map, lemma_keyed_map, lemma_keyed_map_update,
    lemma_distinct_after_update, lemma_distinct_after_push};
use crate::codecs::{ascii_lower, lowercase_ascii};
use crate::text::{
    free_of, join_texts, join_with, lemma_join_split, lemma_split_concat, lemma_split_free,
    split_on, split_text, texts,
};
use crate::types::{SupportedNetwork, TransactionType};

verus! {

/// Any of the adapters the account knows.
pub enum Adapter {
    IcpNative(ICPNativeTransferAdapter),
    EthNative(ETHNativeTransferAdapter),
    Icrc1(ICRC1TransferAdapter),
}

impl BlockchainAdapter for Adapter {
    open spec fn spec_network(&self) -> SupportedNetwork {
        match self {
            Adapter::IcpNative(a) => a.spec_network(),
            Adapter::EthNative(a) => a.spec_network(),
            Adapter::Icrc1(a) => a.spec_network(),
        }
    }

    open spec fn spec_token(&self) -> Seq<char> {
        match self {
            Adapter::IcpNative(a) => a.spec_token(),
            Adapter::EthNative(a) => a.spec_token(),
            Adapter::Icrc1(a) => a.spec_token(),
        }
    }

    open spec fn spec_intent_type(&self) -> TransactionType {
        match self {
            Adapter::IcpNative(a) => a.spec_intent_type(),
            Adapter::EthNative(a) => a.spec_intent_type(),
            Adapter::Icrc1(a) => a.spec_intent_type(),
        }
    }

    fn network(&self) -> (r: SupportedNetwork) {
        match self {
            Adapter::IcpNative(a) => a.network(),
            Adapter::EthNative(a) => a.network(),
            Adapter::Icrc1(a) => a.network(),
        }
    }

    fn token(&self) -> (r: TokenPath) {
        match self {
            Adapter::IcpNative(a) => a.token(),
            Adapter::EthNative(a) => a.token(),
            Adapter::Icrc1(a) => a.token(),
        }
    }

    fn intent_type(&self) -> (r: TransactionType) {
        match self {
            Adapter::IcpNative(a) => a.intent_type(),
            Adapter::EthNative(a) => a.intent_type(),
            Adapter::Icrc1(a) => a.intent_type(),
        }
    }
}

impl Clone for Adapter {
    fn clone(&self) -> (r: Self)
        ensures
            r == *self,
    {
        match self {
            Adapter::IcpNative(a) => Adapter::IcpNative(a.clone()),
            Adapter::EthNative(a) => Adapter::EthNative(a.clone()),
            Adapter::Icrc1(a) => Adapter::Icrc1(a.clone()),
        }
    }
}

/// The standard named in an ICRC-1 token path.
pub open spec fn icrc1_label() -> Seq<char> {
    seq!['i', 'c', 'r', 'c', '1']
}

/// The last piece of an adapter key: the intent type's name in lower case.
pub open spec fn key_suffix(intent_type: TransactionType) -> Seq<char> {
    ascii_lower(intent_type.name())
}

/// The key under which the adapter for a token path and intent type is
/// found: the path, a colon and the lower-case intent type; for a path of
/// more than two pieces whose second piece is `icrc1`, the last piece (the
/// ledger canister) is left out of it.
pub open spec fn adapter_key_of(token: Seq<char>, intent_type: TransactionType) -> Seq<char> {
    let parts = split_on(token, ':');
    if parts.len() > 2 && parts[1] == icrc1_label() {
        join_with(parts.take(parts.len() - 1), seq![':']) + seq![':'] + key_suffix(intent_type)
    } else {
        token + seq![':'] + key_suffix(intent_type)
    }
}

/// The key of the adapter that serves `token` for `intent_type`.
pub fn adapter_key(token: &str, intent_type: TransactionType) -> (key: String)
    ensures
        key@ == adapter_key_of(token@, intent_type),
{
    let suffix = lowercase_ascii(intent_type.as_static_str());
    let parts = split_text(token, ':');
    proof {
        reveal_strlit(":");
        reveal_strlit("icrc1");
        assert(":"@ =~= seq![':']);
        assert("icrc1"@ =~= icrc1_label());
        assert(texts(parts@).len() == parts@.len());
    }
    let head = if parts.len() > 2 && parts[1] == String::from_str("icrc1") {
        proof {
            assert(texts(parts@)[1] == parts@[1]@);
            assert(parts@[1]@ == icrc1_label());
        }
        join_texts(&parts, parts.len() - 1, ":")
    } else {
        String::from_str(token)
    };
    head.concat(":").concat(suffix.as_str())
}

/// The adapters the account can execute intents with, each under its key.
pub struct AdapterRegistry {
    entries: Vec<(String, Adapter)>,
}

impl View for AdapterRegistry {
    type V = Map<Seq<char>, Adapter>;

    closed spec fn view(&self) -> Map<Seq<char>, Adapter> {
        keyed_map(self.entries@)
    }
}

impl AdapterRegistry {
    /// The registry's keys are distinct.
    pub closed spec fn wf(&self) -> bool {
        distinct_keys(self.entries@)
    }

    /// A registry with no adapter.
    pub fn new() -> (r: AdapterRegistry)
        ensures
            r.wf(),
            r@ == Map::<Seq<char>, Adapter>::empty(),
    {
        AdapterRegistry { entries: Vec::new() }
    }

    /// The position of `key` in the list, if it is listed.
    fn position(&self, key: &String) -> (r: Option<usize>)
        requires
            self.wf(),
        ensures
            match r {
                Some(i) => i < self.entries@.len() && self.entries@[i as int].0@ == key@,
                None => forall|i: int|
                    0 <= i < self.entries@.len() ==> self.entries@[i].0@ != key@,
            },
    {
        let mut i: usize = 0;
        while i < self.entries.len()
            invariant
                i <= self.entries@.len(),
                forall|j: int| 0 <= j < i ==> self.entries@[j].0@ != key@,
            decreases self.entries@.len() - i,
        {
            if self.entries[i].0 == *key {
                return Some(i);
            }
            i = i + 1;
        }
        None
    }

    /// Puts `adapter` under `key`, in place of any adapter there before.
    pub fn insert(&mut self, key: String, adapter: Adapter)
        requires
            old(self).wf(),
        ensures
            final(self).wf(),
            final(self)@ == old(self)@.insert(key@, adapter),
    {
        proof {
            lemma_keyed_map(self.entries@);
        }
        match self.position(&key) {
            Some(i) => {
                let ghost before = self.entries@;
                proof {
                    lemma_keyed_map_update(before, i as int, (key, adapter));
                    lemma_distinct_after_update(before, i as int, (key, adapter));
                }
                self.entries.set(i, (key, adapter));
            },
            None => {
                proof {
                    lemma_distinct_after_push(self.entries@, (key, adapter));
                }
                self.entries.push((key, adapter));
            },
        }
    }

    /// The adapter under `key`, if there is one.
    pub fn get(&self, key: &String) -> (r: Option<Adapter>)
        requires
            self.wf(),
        ensures
            r == (if self@.contains_key(key@) {
                Some(self@[key@])
            } else {
                None
            }),
    {
        proof {
            lemma_keyed_map(self.entries@);
        }
        match self.position(key) {
            Some(i) => Some(self.entries[i].1.clone()),
            None => {
                assert(!self@.contains_key(key@));
                None
            },
        }
    }

    /// All keys, each once.
    pub fn keys(&self) -> (r: Vec<String>)
        requires
            self.wf(),
        ensures
            texts(r@).no_duplicates(),
            forall|k: Seq<char>| texts(r@).contains(k) <==> self@.contains_key(k),
    {
        proof {
            lemma_keyed_map(self.entries@);
        }
        let mut r: Vec<String> = Vec::new();
        let mut i: usize = 0;
        while i < self.entries.len()
            invariant
                self.wf(),
                i <= self.entries@.len(),
                r@.len() == i,
                forall|j: int| 0 <= j < i ==> #[trigger] r@[j]@ == self.entries@[j].0@,
            decreases self.entries@.len() - i,
        {
            r.push(self.entries[i].0.clone());
            i = i + 1;
        }
        assert forall|a: int, b: int|
            0 <= a < texts(r@).len() && 0 <= b < texts(r@).len() && a != b implies texts(r@)[a]
            != texts(r@)[b] by {
            assert(texts(r@)[a] == r@[a]@ && texts(r@)[b] == r@[b]@);
        }
        assert forall|k: Seq<char>| texts(r@).contains(k) <==> self@.contains_key(k) by {
            if texts(r@).contains(k) {
                let j = choose|j: int| 0 <= j < texts(r@).len() && texts(r@)[j] == k;
                assert(texts(r@)[j] == r@[j]@);
            }
            if self@.contains_key(k) {
                let j = choose|j: int| 0 <= j < self.entries@.len() && self.entries@[j].0@ == k;
                assert(texts(r@)[j] == r@[j]@);
            }
        }
        r
    }
}

impl AdapterRegistry {
    /// Puts `adapter` under the key of its own token and intent type.
    pub fn register(&mut self, adapter: Adapter)
        requires
            old(self).wf(),
        ensures
            final(self).wf(),
            final(self)@ == old(self)@.insert(
                adapter_key_of(adapter.spec_token(), adapter.spec_intent_type()),
                adapter,
            ),
    {
        let key = adapter_key(adapter.token().as_str(), adapter.intent_type());
        self.insert(key, adapter);
    }

    /// The adapter that executes an intent of `intent_type` on `token`: the
    /// one under the token's adapter key, if any.
    pub fn adapter_for(&self, token: &str, intent_type: TransactionType) -> (r: Option<Adapter>)
        requires
            self.wf(),
        ensures
            r == (if self@.contains_key(adapter_key_of(token@, intent_type)) {
                Some(self@[adapter_key_of(token@, intent_type)])
            } else {
                None
            }),
    {
        let key = adapter_key(token, intent_type);
        self.get(&key)
    }
}

/// An ICRC-1 token path `<network>:icrc1:<ledger>` has the same adapter key
/// as the two-piece path `<network>:icrc1` it extends: the ledger piece is
/// left out.
pub proof fn law_icrc1_ledger_ignored(prefix: Seq<char>, ledger: Seq<char>, intent_type: TransactionType)
    requires
        split_on(prefix, ':').len() == 2,
        split_on(prefix, ':')[1] == icrc1_label(),
        free_of(ledger, ':'),
    ensures
        adapter_key_of(prefix + seq![':'] + ledger, intent_type) == adapter_key_of(
            prefix,
            intent_type,
        ),
        adapter_key_of(prefix, intent_type) == prefix + seq![':'] + key_suffix(intent_type),
{
    let token = prefix + seq![':'] + ledger;
    lemma_split_concat(prefix, ledger, ':');
    lemma_split_free(ledger, ':');
    let parts = split_on(token, ':');
    assert(parts == split_on(prefix, ':') + seq![ledger]);
    assert(parts.take(parts.len() - 1) =~= split_on(prefix, ':'));
    lemma_join_split(prefix, ':');
}

/// A token path of any other shape is its own key prefix.
pub proof fn law_plain_token_key(token: Seq<char>, intent_type: TransactionType)
    requires
        !(split_on(token, ':').len() > 2 && split_on(token, ':')[1] == icrc1_label()),
    ensures
        adapter_key_of(token, intent_type) == token + seq![':'] + key_suffix(intent_type),
{
}

/// After an adapter is registered, an intent of its type on its own token
/// path finds it; for an ICRC-1 adapter (token `<network>:icrc1`), so does an
/// intent on any path that names a ledger after that token.
pub proof fn law_registered_adapter_found(
    before: Map<Seq<char>, Adapter>,
    adapter: Adapter,
    ledger: Seq<char>,
)
    ensures
        ({
            let after = before.insert(
                adapter_key_of(adapter.spec_token(), adapter.spec_intent_type()),
                adapter,
            );
            &&& after.contains_key(adapter_key_of(adapter.spec_token(), adapter.spec_intent_type()))
            &&& after[adapter_key_of(adapter.spec_token(), adapter.spec_intent_type())] == adapter
            &&& (split_on(adapter.spec_token(), ':').len() == 2 && split_on(adapter.spec_token(), ':')[1]
                == icrc1_label() && free_of(ledger, ':')) ==> {
                &&& after.contains_key(
                    adapter_key_of(adapter.spec_token() + seq![':'] + ledger, adapter.spec_intent_type()),
                )
                &&& after[adapter_key_of(
                    adapter.spec_token() + seq![':'] + ledger,
                    adapter.spec_intent_type(),
                )] == adapter
            }
        }),
{
    if split_on(adapter.spec_token(), ':').len() == 2 && split_on(adapter.spec_token(), ':')[1]
        == icrc1_label() && free_of(ledger, ':') {
        law_icrc1_ledger_ignored(adapter.spec_token(), ledger, adapter.spec_intent_type());
    }
}

} // verus!
