use collabeat::contract::{complete_mint, mint_step, on_execute, on_mint, MintRequest, MintStep};
use collabeat::on_clone;
use collabeat::payload::encode_mint_payload;
use collabeat::types::{MetaContract, Metadata, Transaction};

fn contract(pk: &str) -> MetaContract {
    MetaContract {
        token_key: String::from("tk"),
        meta_contract_id: String::from("mc"),
        public_key: String::from(pk),
    }
}

fn history_entry() -> Metadata {
    Metadata {
        data_key: String::from("dk"),
        alias: String::from("a"),
        cid: String::from("c"),
        public_key: String::from("pk"),
    }
}

fn transaction(token_id: &str, public_key: &str, alias: &str, data: &str) -> Transaction {
    Transaction {
        hash: String::from("h"),
        token_key: String::from("tk"),
        data_key: String::from("dk"),
        nonce: 1,
        from_peer_id: String::from("peer"),
        host_id: String::from("host"),
        status: 1,
        data: String::from(data),
        public_key: String::from(public_key),
        alias: String::from(alias),
        timestamp: 0,
        meta_contract_id: String::from("mc"),
        method: String::from("execute"),
        error_text: String::new(),
        token_id: String::from(token_id),
    }
}

#[test]
fn clone_acknowledges() {
    assert!(on_clone());
}

#[test]
fn execute_rejects_oversized_history() {
    let history: Vec<Metadata> = (0..14).map(|_| history_entry()).collect();
    let r = on_execute(contract("pk1"), history, transaction("1", "tx-pk", "a", "d"));
    assert!(!r.result);
    assert!(r.metadatas.is_empty());
    assert_eq!(r.error_string, "Can not be more than 10 beats");
}

#[test]
fn execute_accepts_history_at_ceiling() {
    let history: Vec<Metadata> = (0..13).map(|_| history_entry()).collect();
    let r = on_execute(contract("pk1"), history, transaction("1", "tx-pk", "a", "d"));
    assert!(r.result);
    assert_eq!(r.metadatas.len(), 1);
    assert_eq!(r.error_string, "");
}

#[test]
fn execute_empty_history_synthesizes_base_entries() {
    let r = on_execute(contract("pk1"), Vec::new(), transaction("42", "tx-pk", "beat", "blob"));
    assert!(r.result);
    assert_eq!(r.metadatas.len(), 4);
    assert_eq!(r.metadatas[0].public_key, "pk1");
    assert_eq!(r.metadatas[0].alias, "name");
    assert_eq!(r.metadatas[0].content, "Collabeat #42");
    assert_eq!(r.metadatas[1].alias, "description");
    assert_eq!(r.metadatas[1].content, "Co-Create, Collaborate and Own The Beat");
    assert_eq!(r.metadatas[2].alias, "image");
    assert_eq!(r.metadatas[2].content, "ipfs://");
    assert_eq!(r.metadatas[3].public_key, "tx-pk");
    assert_eq!(r.metadatas[3].alias, "beat");
    assert_eq!(r.metadatas[3].content, "blob");
}

#[test]
fn execute_nonempty_history_echoes_transaction_only() {
    let history = vec![history_entry()];
    let r = on_execute(contract("pk1"), history, transaction("42", "tx-pk", "beat", "blob"));
    assert!(r.result);
    assert_eq!(r.metadatas.len(), 1);
    assert_eq!(r.metadatas[0].public_key, "tx-pk");
    assert_eq!(r.metadatas[0].alias, "beat");
    assert_eq!(r.metadatas[0].content, "blob");
}

#[test]
fn mint_plain_cid_without_identifier_completes() {
    let r = mint_step(
        contract("pk1"),
        String::from("7"),
        MintRequest::PlainCid { ipfs_multiaddr: String::new(), cid: String::new() },
    );
    let res = match r {
        MintStep::Complete(res) => res,
        MintStep::Fetch(_) => panic!("no fetch is needed without an identifier"),
    };
    assert!(res.result);
    assert_eq!(res.error_string, "");
    assert_eq!(res.metadatas.len(), 3);
    assert_eq!(res.metadatas[0].public_key, "pk1");
    assert_eq!(res.metadatas[0].alias, "name");
    assert_eq!(res.metadatas[0].content, "Collabeat #7");
    assert_eq!(res.metadatas[1].alias, "description");
    assert_eq!(res.metadatas[1].content, "Co-Create, Collaborate and Own The Beat");
    assert_eq!(res.metadatas[2].alias, "image");
    assert_eq!(res.metadatas[2].content, "ipfs://");
}

#[test]
fn mint_empty_payload_uses_default_name_last() {
    let r = on_mint(contract("pk1"), String::from("9"), String::new());
    let res = match r {
        MintStep::Complete(res) => res,
        MintStep::Fetch(_) => panic!("an empty payload needs no fetch"),
    };
    assert!(res.result);
    assert_eq!(res.metadatas.len(), 3);
    assert_eq!(res.metadatas[0].alias, "description");
    assert_eq!(res.metadatas[1].alias, "image");
    assert_eq!(res.metadatas[2].alias, "name");
    assert_eq!(res.metadatas[2].content, "Collabeat #9");
}

#[test]
fn mint_bad_hex_fails_with_reason() {
    let r = on_mint(contract("pk1"), String::from("9"), String::from("zz"));
    let res = match r {
        MintStep::Complete(res) => res,
        MintStep::Fetch(_) => panic!("a rejected payload needs no fetch"),
    };
    assert!(!res.result);
    assert!(res.metadatas.is_empty());
    assert_eq!(res.error_string, "Invalid data structure: the payload is not hexadecimal");
}

#[test]
fn mint_payload_without_identifier_overrides_name() {
    let data = encode_mint_payload("My Beat", "", "");
    let r = on_mint(contract("pk1"), String::from("9"), data);
    let res = match r {
        MintStep::Complete(res) => res,
        MintStep::Fetch(_) => panic!("no identifier was encoded"),
    };
    assert!(res.result);
    assert_eq!(res.metadatas.len(), 3);
    assert_eq!(res.metadatas[2].alias, "name");
    assert_eq!(res.metadatas[2].content, "My Beat");
}

#[test]
fn mint_payload_with_identifier_asks_for_one_fetch() {
    let data = encode_mint_payload("", "/dns4/example/tcp/5001", "bafyid");
    let r = on_mint(contract("pk1"), String::from("3"), data);
    let pending = match r {
        MintStep::Complete(_) => panic!("an identifier requires a fetch"),
        MintStep::Fetch(p) => p,
    };
    assert_eq!(pending.public_key, "pk1");
    assert_eq!(pending.name, "Collabeat #3");
    assert_eq!(
        pending.cmd,
        vec![
            String::from("dag"),
            String::from("get"),
            String::from("bafyid"),
            String::from("--timeout"),
            String::from("1s"),
            String::from("--api"),
            String::from("/dns4/example/tcp/5001"),
        ]
    );
}

#[test]
fn mint_import_lists_records_with_name_last() {
    let data = encode_mint_payload("Named", "", "bafyid");
    let pending = match on_mint(contract("pk1"), String::from("3"), data) {
        MintStep::Fetch(p) => p,
        MintStep::Complete(_) => panic!("an identifier requires a fetch"),
    };
    let fetched = "[{\"owner\":\"o1\",\"data_key\":\"k1\",\"cid\":\"c1\"},{\"owner\":\"o2\",\"data_key\":\"k2\",\"cid\":\"c2\"}]";
    let res = complete_mint(pending, fetched);
    assert!(res.result);
    assert_eq!(res.metadatas.len(), 5);
    assert_eq!(res.metadatas[0].alias, "description");
    assert_eq!(res.metadatas[1].alias, "image");
    assert_eq!(res.metadatas[2].public_key, "o1");
    assert_eq!(res.metadatas[2].alias, "");
    assert_eq!(res.metadatas[2].content, "c1");
    assert_eq!(res.metadatas[3].public_key, "o2");
    assert_eq!(res.metadatas[3].alias, "");
    assert_eq!(res.metadatas[3].content, "c2");
    assert_eq!(res.metadatas[4].alias, "name");
    assert_eq!(res.metadatas[4].content, "Named");
}

#[test]
fn mint_malformed_json_yields_no_partial_entries() {
    let data = encode_mint_payload("", "", "bafyid");
    let pending = match on_mint(contract("pk1"), String::from("3"), data) {
        MintStep::Fetch(p) => p,
        MintStep::Complete(_) => panic!("an identifier requires a fetch"),
    };
    let res = complete_mint(pending, "not json at all");
    assert!(!res.result);
    assert!(res.metadatas.is_empty());
    assert!(res.error_string.starts_with("Invalid data structure: "));
}

#[test]
fn mint_record_missing_field_is_rejected() {
    let data = encode_mint_payload("", "", "bafyid");
    let pending = match on_mint(contract("pk1"), String::from("3"), data) {
        MintStep::Fetch(p) => p,
        MintStep::Complete(_) => panic!("an identifier requires a fetch"),
    };
    let res = complete_mint(pending, "[{\"owner\":\"o1\",\"cid\":\"c1\"}]");
    assert!(!res.result);
    assert!(res.metadatas.is_empty());
    assert!(res.error_string.starts_with("Invalid data structure: "));
}

#[test]
fn mint_echoed_transaction_appends_its_entry() {
    let r = mint_step(
        contract("pk1"),
        String::from("5"),
        MintRequest::TransactionEcho {
            transaction: transaction("5", "tx-pk", "beat", "blob"),
        },
    );
    let res = match r {
        MintStep::Complete(res) => res,
        MintStep::Fetch(_) => panic!("an echoed transaction needs no fetch"),
    };
    assert!(res.result);
    assert_eq!(res.metadatas.len(), 4);
    assert_eq!(res.metadatas[0].alias, "name");
    assert_eq!(res.metadatas[0].content, "Collabeat #5");
    assert_eq!(res.metadatas[3].public_key, "tx-pk");
    assert_eq!(res.metadatas[3].alias, "beat");
    assert_eq!(res.metadatas[3].content, "blob");
}

#[test]
fn mint_plain_cid_with_identifier_builds_fetch_command() {
    let r = mint_step(
        contract("pk1"),
        String::from("2"),
        MintRequest::PlainCid {
            ipfs_multiaddr: String::new(),
            cid: String::from("bafycid"),
        },
    );
    let pending = match r {
        MintStep::Complete(_) => panic!("an identifier requires a fetch"),
        MintStep::Fetch(p) => p,
    };
    assert_eq!(pending.name, "Collabeat #2");
    assert_eq!(
        pending.cmd,
        vec![
            String::from("dag"),
            String::from("get"),
            String::from("bafycid"),
            String::from("--timeout"),
            String::from("1s"),
            String::from("--api"),
            String::from("/ip4/127.0.0.1/tcp/5001"),
        ]
    );
}
