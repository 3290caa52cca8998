use account::adapters::{
    BlockchainAdapter, ETHNativeTransferAdapter, ICPNativeTransferAdapter, ICRC1TransferAdapter,
    Icrc1Preparation, RECOMMENDED_ICP_TRANSACTION_FEE, RECOMMENDED_ICRC1_TRANSACTION_FEE,
};
use account::execution::{execution_gate, settle_execution, ExecutionGate};
use account::registry::{adapter_key, Adapter, AdapterRegistry};
use account::text::{join_texts, split_text};
use account::types::{Decision, IntentStatus, SupportedNetwork, Token, TransactionType};

const LEDGER: &str = "ryjl3-tyaaa-aaaaa-aaaba-cai";
const USER: &str = "l4sux-ovcbh-qjlir-sij5b-xffaa-uydtf-zlwgz-ezskj-zlar3-4ap3v-2qe";

#[test]
fn adapters_describe_themselves() {
    let icp = ICPNativeTransferAdapter::new();
    assert_eq!(icp.network(), SupportedNetwork::ICP);
    assert_eq!(icp.token(), "icp:native");
    assert_eq!(icp.intent_type(), TransactionType::Transfer);

    let eth = ETHNativeTransferAdapter::new();
    assert_eq!(eth.network(), SupportedNetwork::ETH);
    assert_eq!(eth.token(), "eth:native");
    assert_eq!(eth.intent_type(), TransactionType::Transfer);

    let icrc = ICRC1TransferAdapter::new();
    assert_eq!(icrc.network(), SupportedNetwork::ICP);
    assert_eq!(icrc.token(), "icp:icrc1");
    assert_eq!(icrc.intent_type(), TransactionType::Transfer);
}

#[test]
fn token_identifier_is_third_piece() {
    let id = ICRC1TransferAdapter::extract_token_identifier(format!("icp:icrc1:{}", LEDGER));
    assert_eq!(id, Ok(LEDGER.to_string()));
    assert_eq!(
        ICRC1TransferAdapter::extract_token_identifier("a::".to_string()),
        Ok(String::new())
    );
}

#[test]
fn token_identifier_rejects_other_shapes() {
    for token in ["icp:native", "icp", "", "a:b:c:d", "icp:icrc1:x:"] {
        assert_eq!(
            ICRC1TransferAdapter::extract_token_identifier(token.to_string()),
            Err("Invalid token format".to_string()),
            "{}",
            token
        );
    }
}

#[test]
fn split_and_join_texts() {
    assert_eq!(split_text("a:b::c", ':'), vec!["a", "b", "", "c"]);
    assert_eq!(split_text("", ':'), vec![""]);
    assert_eq!(split_text(":", ':'), vec!["", ""]);
    assert_eq!(split_text("héllo:wörld", ':'), vec!["héllo", "wörld"]);
    let parts = split_text("x:y:z", ':');
    assert_eq!(join_texts(&parts, 3, ":"), "x:y:z");
    assert_eq!(join_texts(&parts, 2, "--"), "x--y");
    assert_eq!(join_texts(&parts, 0, ":"), "");
}

#[test]
fn adapter_keys() {
    assert_eq!(adapter_key("icp:native", TransactionType::Transfer), "icp:native:transfer");
    assert_eq!(adapter_key("eth:native", TransactionType::Swap), "eth:native:swap");
    assert_eq!(
        adapter_key(&format!("icp:icrc1:{}", LEDGER), TransactionType::Transfer),
        "icp:icrc1:transfer"
    );
    assert_eq!(adapter_key("icp:icrc1", TransactionType::Transfer), "icp:icrc1:transfer");
    assert_eq!(adapter_key("icp:icrc1:a:b", TransactionType::Swap), "icp:icrc1:a:swap");
    assert_eq!(
        adapter_key("eth:erc20:0x00", TransactionType::Transfer),
        "eth:erc20:0x00:transfer"
    );
}

fn default_registry() -> AdapterRegistry {
    let mut registry = AdapterRegistry::new();
    registry.register(Adapter::IcpNative(ICPNativeTransferAdapter::new()));
    registry.register(Adapter::EthNative(ETHNativeTransferAdapter::new()));
    registry.register(Adapter::Icrc1(ICRC1TransferAdapter::new()));
    registry
}

#[test]
fn registry_lists_default_adapters() {
    let registry = default_registry();
    let mut keys = registry.keys();
    keys.sort();
    assert_eq!(keys, vec!["eth:native:transfer", "icp:icrc1:transfer", "icp:native:transfer"]);
    assert!(keys.contains(&"icp:native:transfer".to_string()));
}

#[test]
fn registry_finds_adapter_for_intent() {
    let registry = default_registry();
    assert!(matches!(
        registry.adapter_for("icp:native", TransactionType::Transfer),
        Some(Adapter::IcpNative(_))
    ));
    assert!(matches!(
        registry.adapter_for(&format!("icp:icrc1:{}", LEDGER), TransactionType::Transfer),
        Some(Adapter::Icrc1(_))
    ));
    assert!(matches!(
        registry.adapter_for("eth:native", TransactionType::Transfer),
        Some(Adapter::EthNative(_))
    ));
    assert!(registry.adapter_for("icp:native", TransactionType::Swap).is_none());
    assert!(registry.adapter_for("btc:native", TransactionType::Transfer).is_none());
}

#[test]
fn registry_insert_replaces() {
    let mut registry = AdapterRegistry::new();
    registry.insert("k".to_string(), Adapter::IcpNative(ICPNativeTransferAdapter::new()));
    registry.insert("k".to_string(), Adapter::EthNative(ETHNativeTransferAdapter::new()));
    assert_eq!(registry.keys(), vec!["k".to_string()]);
    assert!(matches!(registry.get(&"k".to_string()), Some(Adapter::EthNative(_))));
    assert!(registry.get(&"j".to_string()).is_none());
    let adapter = registry.get(&"k".to_string()).unwrap();
    assert_eq!(adapter.token(), "eth:native");
    assert_eq!(adapter.network(), SupportedNetwork::ETH);
}

#[test]
fn icp_transfer_args_decode_account() {
    let owner = candid::Principal::from_text(USER).unwrap();
    let account =
        ic_ledger_types::AccountIdentifier::new(&owner, &ic_ledger_types::DEFAULT_SUBACCOUNT);
    let args = ICPNativeTransferAdapter::new().transfer_args(&account.to_hex(), 12345).unwrap();
    assert_eq!(args.to, account.as_bytes().to_vec());
    assert_eq!(args.amount_e8s, 12345);
    assert_eq!(args.fee_e8s, RECOMMENDED_ICP_TRANSACTION_FEE);
    assert_eq!(args.fee_e8s, 10000);
    assert_eq!(args.memo, 0);
    assert_eq!(args.from_subaccount, 0);
}

#[test]
fn icp_transfer_args_refuse_bad_account() {
    let r = ICPNativeTransferAdapter::new().transfer_args("not hex", 1);
    assert!(r.is_err());
    let wrong_sum = "0".repeat(64);
    let expected = ic_ledger_types::AccountIdentifier::from_hex(&wrong_sum).unwrap_err();
    assert_eq!(ICPNativeTransferAdapter::new().transfer_args(&wrong_sum, 1).err(), Some(expected));
}

#[test]
fn icp_transfer_results() {
    assert_eq!(ICPNativeTransferAdapter::transfer_result::<u64>(Ok(Ok(7))), Ok(7));
    assert_eq!(
        ICPNativeTransferAdapter::transfer_result::<u64>(Ok(Err("InsufficientFunds".to_string()))),
        Err("transfer error: InsufficientFunds".to_string())
    );
    assert_eq!(
        ICPNativeTransferAdapter::transfer_result::<u64>(Err((
            "CanisterReject".to_string(),
            "no".to_string()
        ))),
        Err("unexpected error: CanisterReject, message: no".to_string())
    );
    assert_eq!(
        ICPNativeTransferAdapter::execution_result::<u64>(Ok(3)),
        Ok(IntentStatus::Completed("Successfully transferred native ICP.".to_string()))
    );
    assert_eq!(
        ICPNativeTransferAdapter::execution_result::<u64>(Err("e".to_string())),
        Err("e".to_string())
    );
}

#[test]
fn eth_transfer_steps() {
    let eth = ETHNativeTransferAdapter::new();
    let request = eth.transfer_request("0xabc", "1.5");
    assert_eq!(request.to, "0xabc");
    assert_eq!(request.value, "1.5");
    assert_eq!(request.chain, "eth");
    assert_eq!(
        ETHNativeTransferAdapter::transfer_result("Success".to_string(), "0xhash".to_string()),
        Ok("0xhash".to_string())
    );
    assert_eq!(
        ETHNativeTransferAdapter::transfer_result("Failed".to_string(), "0xhash".to_string()),
        Err("Failed".to_string())
    );
    assert_eq!(
        ETHNativeTransferAdapter::execution_result(Ok("0xhash".to_string())),
        Ok(IntentStatus::Completed("Successfully transferred native ETH: 0xhash".to_string()))
    );
    assert_eq!(
        ETHNativeTransferAdapter::execution_result(Err("Failed".to_string())),
        Err("Failed".to_string())
    );
}

#[test]
fn icrc1_transfer_args() {
    let icrc = ICRC1TransferAdapter::new();
    let token = format!("icp:icrc1:{}", LEDGER);
    match icrc.transfer_args(&token, USER, 99) {
        Icrc1Preparation::Ready(args) => {
            let ledger = candid::Principal::from_text(LEDGER).unwrap();
            let owner = candid::Principal::from_text(USER).unwrap();
            assert_eq!(args.ledger, ledger.as_slice().to_vec());
            assert_eq!(args.to_owner, owner.as_slice().to_vec());
            assert_eq!(args.amount, 99);
            assert_eq!(args.fee, RECOMMENDED_ICRC1_TRANSACTION_FEE);
            assert_eq!(args.fee, 1000000);
            assert!(args.memo.is_empty());
        }
        _ => panic!("expected a transfer"),
    }
    assert!(matches!(
        icrc.transfer_args("icp:icrc1", USER, 1),
        Icrc1Preparation::Refused(m) if m == "Invalid token format"
    ));
    assert!(matches!(
        icrc.transfer_args(&token, "not a principal", 1),
        Icrc1Preparation::InvalidRecipient
    ));
    assert!(matches!(
        icrc.transfer_args("icp:icrc1", "not a principal", 1),
        Icrc1Preparation::InvalidRecipient
    ));
    assert!(matches!(
        icrc.transfer_args("icp:icrc1:zzz", USER, 1),
        Icrc1Preparation::InvalidLedger
    ));
}

#[test]
fn icrc1_transfer_results() {
    assert_eq!(ICRC1TransferAdapter::transfer_result::<u32>(Ok(Ok(5))), Ok(5));
    assert_eq!(
        ICRC1TransferAdapter::transfer_result::<u32>(Ok(Err("BadFee".to_string()))),
        Err("ICRC-1 transfer error: BadFee".to_string())
    );
    assert_eq!(
        ICRC1TransferAdapter::transfer_result::<u32>(Err(("SysFatal".to_string(), "m".to_string()))),
        Err("Canister call rejected: SysFatal - m".to_string())
    );
    assert_eq!(
        ICRC1TransferAdapter::execution_result::<u32>(Ok(1)),
        Ok(IntentStatus::Completed("Successfully transferred an ICRC-1 token.".to_string()))
    );
    assert_eq!(
        ICRC1TransferAdapter::execution_result::<u32>(Err("x".to_string())),
        Err("x".to_string())
    );
}

#[test]
fn gate_refuses_missing_proposal() {
    match execution_gate(42, None, 1) {
        ExecutionGate::Refuse(s) => {
            assert_eq!(s, IntentStatus::Failed("Proposal not found: 42".to_string()))
        }
        ExecutionGate::Proceed => panic!("expected a refusal"),
    }
    match execution_gate(0, None, 0) {
        ExecutionGate::Refuse(s) => {
            assert_eq!(s, IntentStatus::Failed("Proposal not found: 0".to_string()))
        }
        ExecutionGate::Proceed => panic!("expected a refusal"),
    }
}

#[test]
fn gate_checks_threshold() {
    match execution_gate(1, Some(1), 2) {
        ExecutionGate::Refuse(s) => {
            assert_eq!(s, IntentStatus::Failed("Threshold not met".to_string()))
        }
        ExecutionGate::Proceed => panic!("expected a refusal"),
    }
    assert!(matches!(execution_gate(1, Some(2), 2), ExecutionGate::Proceed));
    assert!(matches!(execution_gate(1, Some(3), 2), ExecutionGate::Proceed));
    assert!(matches!(execution_gate(1, Some(0), 0), ExecutionGate::Proceed));
}

#[test]
fn settle_maps_errors_to_failed() {
    assert_eq!(
        settle_execution(Ok(IntentStatus::Completed("done".to_string()))),
        IntentStatus::Completed("done".to_string())
    );
    assert_eq!(
        settle_execution(Err("boom".to_string())),
        IntentStatus::Failed("boom".to_string())
    );
}

#[test]
fn small_types() {
    assert_eq!(TransactionType::Swap.as_static_str(), "Swap");
    assert_eq!(TransactionType::Transfer.as_static_str(), "Transfer");
    let token = Token("icp:native".to_string());
    assert_eq!(token.to_string(), "icp:native");
    let signee = candid::Principal::from_text(USER).unwrap();
    let decision = Decision::new(3, 9, signee, true);
    assert_eq!(decision.id(), 3);
    assert!(decision.approved());
    assert!(!Decision::new(4, 9, signee, false).approved());
}
