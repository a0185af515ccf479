use contract_chain::calc_hash;
use contract_chain::Blockchain;
use contract_chain::ChainError;
use contract_chain::LoadError;

#[test]
fn genesis_block_fields() {
    let chain = Blockchain::new();
    assert_eq!(chain.len(), 1);
    let genesis = chain.get_block_by_index(0).unwrap();
    assert_eq!(genesis.prev_hash().as_str(), "000");
    assert_eq!(genesis.data().as_str(), "Genresis Block");
    assert!(!genesis.has_contract());
}

#[test]
fn hash_chain_links_after_every_append() {
    let mut chain = Blockchain::new();
    chain.add_block_with_data(String::from("first"));
    chain.add_block_with_data(String::from("second"));
    assert_eq!(chain.len(), 3);
    for i in 1..chain.len() {
        let prev = chain.get_block_by_index(i - 1).unwrap();
        let here = chain.get_block_by_index(i).unwrap();
        assert_eq!(here.prev_hash(), prev.hash());
    }
    let last = chain.get_block_by_index(2).unwrap();
    assert_eq!(&chain.last_hash(), last.hash());
}

#[test]
fn block_hash_recomputes_from_its_parts() {
    let mut chain = Blockchain::new();
    chain.add_block_with_data(String::from("payload"));
    let block = chain.get_block_by_index(1).unwrap();
    let recomputed = calc_hash(
        block.time_stamp().clone(),
        block.data().clone(),
        block.prev_hash().clone(),
    );
    assert_eq!(&recomputed, block.hash());
}

#[test]
fn digest_deterministic_and_input_sensitive() {
    let a = calc_hash(String::from("t"), String::from("d"), String::from("p"));
    let b = calc_hash(String::from("t"), String::from("d"), String::from("p"));
    assert_eq!(a, b);
    assert_ne!(a, calc_hash(String::from("u"), String::from("d"), String::from("p")));
    assert_ne!(a, calc_hash(String::from("t"), String::from("e"), String::from("p")));
    assert_ne!(a, calc_hash(String::from("t"), String::from("d"), String::from("q")));
}

#[test]
fn digest_known_value() {
    // SHA-256 of the concatenation "abc", rendered in lowercase hex.
    let h = calc_hash(String::from("a"), String::from("b"), String::from("c"));
    assert_eq!(
        h.as_str(),
        "ba7816bf8f01cfea414140de5dae2223b00361a396177a9cb410ff61f20015ad"
    );
    assert_eq!(h.len(), 64);
}

#[test]
fn append_program_missing_module_leaves_chain_unchanged() {
    let mut chain = Blockchain::new();
    chain.add_block_with_data(String::from("data"));
    let len_before = chain.len();
    let hash_before = chain.last_hash();
    let r = chain.add_block_with_contract(String::from("no_such_module_anywhere"));
    assert!(matches!(r, Err(LoadError::ModuleNotFound(_))));
    assert_eq!(chain.len(), len_before);
    assert_eq!(chain.last_hash(), hash_before);
}

#[test]
fn execute_data_block_is_noop_success() {
    let mut chain = Blockchain::new();
    chain.add_block_with_data(String::from("plain data"));
    let mut block = chain.get_block_by_index(1).unwrap();
    assert!(!block.has_contract());
    assert!(block.run_conrtact().is_ok());
}

#[test]
fn lookup_past_the_end_is_out_of_range() {
    let chain = Blockchain::new();
    match chain.get_block_by_index(7) {
        Err(ChainError::OutOfRange { index, len }) => {
            assert_eq!(index, 7);
            assert_eq!(len, 1);
        }
        Ok(_) => panic!("lookup past the end must not return a block"),
    }
}
