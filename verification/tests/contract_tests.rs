use contract_chain::get_time;
use contract_chain::Blockchain;
use contract_chain::LoadError;

#[test]
fn failed_contract_append_keeps_every_block() {
    let mut chain = Blockchain::new();
    chain.add_block_with_data(String::from("one"));
    chain.add_block_with_data(String::from("two"));

    let mut hashes_before: Vec<String> = Vec::new();
    for i in 0..chain.len() {
        hashes_before.push(chain.get_block_by_index(i).unwrap().hash().clone());
    }

    let r = chain.add_block_with_contract(String::from("missing_module"));
    assert!(matches!(r, Err(LoadError::ModuleNotFound(_))));

    assert_eq!(chain.len(), hashes_before.len());
    for i in 0..chain.len() {
        let block = chain.get_block_by_index(i).unwrap();
        assert_eq!(block.hash(), &hashes_before[i]);
    }
}

#[test]
fn chain_grows_after_failed_contract_append() {
    let mut chain = Blockchain::new();
    let r = chain.add_block_with_contract(String::from("still_missing"));
    assert!(r.is_err());

    chain.add_block_with_data(String::from("after the failure"));
    assert_eq!(chain.len(), 2);
    let genesis = chain.get_block_by_index(0).unwrap();
    let appended = chain.get_block_by_index(1).unwrap();
    assert_eq!(appended.prev_hash(), genesis.hash());
    assert_eq!(appended.data().as_str(), "after the failure");
}

#[test]
fn executing_a_data_block_twice_stays_a_noop() {
    let mut chain = Blockchain::new();
    chain.add_block_with_data(String::from("idle"));
    let mut block = chain.get_block_by_index(1).unwrap();
    assert!(block.run_conrtact().is_ok());
    assert!(block.run_conrtact().is_ok());
    assert_eq!(block.data().as_str(), "idle");
    assert!(!block.has_contract());
}

#[test]
fn load_contract_reports_a_missing_module() {
    let r = Blockchain::load_contract(String::from("nowhere_to_be_found"));
    match r {
        Err(LoadError::ModuleNotFound(message)) => assert!(!message.is_empty()),
        Ok(_) => panic!("loading a missing module must fail"),
        Err(other) => panic!("expected a module load failure, got {:?}", other),
    }
}

#[test]
fn timestamps_have_the_expected_shape() {
    let stamp = get_time();
    assert!(!stamp.is_empty());
    assert_eq!(stamp.matches('/').count(), 2);
    assert_eq!(stamp.matches(':').count(), 2);
    assert_eq!(stamp.matches(' ').count(), 1);
}
