use vstd::prelude::*;
use vstd::string::StringExecFns;
use crate::block::Block;
use crate::block::BlockView;
use crate::clock::get_time;
use crate::errors::ChainError;
use crate::errors::LoadError;
use crate::hashing::calc_hash;
use crate::wasm_runtime::default_store;
use crate::wasm_runtime::instantiate;
use crate::wasm_runtime::module_from_file;
use crate::wasm_runtime::Contract;

verus! {

/// The previous-hash sentinel: what the first block records in place of a
/// predecessor's hash, and what an empty chain reports as its last hash.
pub open spec fn sentinel() -> Seq<char> {
    "000"@
}

/// The fixed payload of the genesis block, seeded when a chain is created.
pub open spec fn genesis_payload() -> Seq<char> {
    "Genresis Block"@
}

/// An append-only, hash-linked sequence of blocks. Created already holding
/// the genesis block; grows only through the append operations; never
/// shrinks, reorders or rewrites a block.
pub struct Blockchain {
    chain: Vec<Block>,
}

impl View for Blockchain {
    type V = Seq<BlockView>;

    closed spec fn view(&self) -> Seq<BlockView> {
        self.chain@.map_values(|b: Block| b@)
    }
}

impl Blockchain {
    /// The hash of the most recent block, or the sentinel when there is none.
    pub open spec fn last_hash_spec(&self) -> Seq<char> {
        if self@.len() == 0 {
            sentinel()
        } else {
            self@.last().hash
        }
    }

    /// Well-formedness: the chain starts with the genesis block, every later
    /// block records its predecessor's hash, and every block's hash is the
    /// digest of its own timestamp, payload and previous hash.
    pub open spec fn wf(&self) -> bool {
        &&& self@.len() >= 1
        &&& self@[0].prev_hash == sentinel()
        &&& self@[0].data == genesis_payload()
        &&& !self@[0].has_contract
        &&& forall|i: int|
            1 <= i < self@.len() ==> (#[trigger] self@[i]).prev_hash == self@[i - 1].hash
        &&& forall|i: int| 0 <= i < self@.len() ==> (#[trigger] self@[i]).hash_consistent()
    }

    /// Creates a chain holding exactly the genesis block.
    pub fn new() -> (r: Blockchain)
        ensures
            r.wf(),
            r@.len() == 1,
    {
        let mut blockchain = Blockchain { chain: Vec::new() };
        blockchain.add_block_with_data("Genresis Block".to_owned());
        blockchain
    }

    /// How many blocks the chain holds.
    pub fn len(&self) -> (r: usize)
        ensures
            r == self@.len(),
    {
        self.chain.len()
    }

    /// The hash of the most recently appended block, or the sentinel `"000"`
    /// if the chain holds no blocks.
    pub fn last_hash(&self) -> (r: String)
        ensures
            r@ == self.last_hash_spec(),
    {
        if self.chain.len() == 0 {
            "000".to_owned()
        } else {
            self.chain[self.chain.len() - 1].hash().clone()
        }
    }

    /// Appends a block carrying `my_data` and no contract: its previous hash
    /// is the chain's last hash, and its own hash is the digest of its
    /// timestamp, the data and that previous hash. Never fails, and leaves
    /// every existing block as it was.
    pub fn add_block_with_data(&mut self, my_data: String)
        ensures
            final(self)@.len() == old(self)@.len() + 1,
            forall|i: int| 0 <= i < old(self)@.len() ==> final(self)@[i] == old(self)@[i],
            final(self)@.last().data == my_data@,
            final(self)@.last().prev_hash == old(self).last_hash_spec(),
            final(self)@.last().hash_consistent(),
            !final(self)@.last().has_contract,
            old(self).wf() ==> final(self).wf(),
            old(self)@.len() == 0 && my_data@ == genesis_payload() ==> final(self).wf(),
    {
        let time_stamp = get_time();
        let data_to_hash = my_data.clone();
        let hash = calc_hash(time_stamp.clone(), data_to_hash, self.last_hash());
        let prev_hash = self.last_hash();

        let new_block = Block::build(time_stamp, my_data, hash, prev_hash, None);
        let ghost bv = new_block@;
        self.chain.push(new_block);
        proof {
            assert(self@ =~= old(self)@.push(bv));
        }
    }

    /// Appends a block whose payload is a contract identifier: the module is
    /// loaded and instantiated, and on success the block carries the instance,
    /// hashed exactly as a data block is. On failure nothing is appended: the
    /// chain is left exactly as it was and the load error goes to the caller.
    pub fn add_block_with_contract(&mut self, name_contract_file: String) -> (r: Result<
        (),
        LoadError,
    >)
        ensures
            r is Ok ==> final(self)@.len() == old(self)@.len() + 1,
            r is Ok ==> forall|i: int|
                0 <= i < old(self)@.len() ==> final(self)@[i] == old(self)@[i],
            r is Ok ==> final(self)@.last().data == name_contract_file@,
            r is Ok ==> final(self)@.last().prev_hash == old(self).last_hash_spec(),
            r is Ok ==> final(self)@.last().hash_consistent(),
            r is Ok ==> final(self)@.last().has_contract,
            r is Err ==> final(self)@ == old(self)@,
            old(self).wf() ==> final(self).wf(),
    {
        let time_stamp = get_time();
        let data_to_hash = name_contract_file.clone();
        let hash = calc_hash(time_stamp.clone(), data_to_hash, self.last_hash());
        let prev_hash = self.last_hash();

        match Blockchain::load_contract(name_contract_file.clone()) {
            Ok(contract) => {
                let new_block = Block::build(
                    time_stamp,
                    name_contract_file,
                    hash,
                    prev_hash,
                    contract,
                );
                let ghost bv = new_block@;
                self.chain.push(new_block);
                proof {
                    assert(self@ =~= old(self)@.push(bv));
                }
                Ok(())
            },
            Err(e) => Err(e),
        }
    }

    /// Loads the contract module at `<identifier>.wasm`: compiles it and
    /// instantiates it inside a minimal sandboxed environment that provides
    /// no capabilities at all beyond the module's own memory. Every failure
    /// comes back as the matching LoadError; success always carries an
    /// instance. Whether it succeeds rests with the disk and the module.
    pub fn load_contract(name_contract_file: String) -> (r: Result<Option<Contract>, LoadError>)
        ensures
            r matches Ok(c) ==> c is Some,
    {
        let store = default_store();
        let path = name_contract_file.concat(".wasm");
        let module = match module_from_file(&store, path) {
            Ok(m) => m,
            Err(e) => {
                return Err(e);
            },
        };
        match instantiate(store, &module) {
            Ok(contract) => Ok(Some(contract)),
            Err(message) => Err(LoadError::Instantiation(message)),
        }
    }

    /// A copy of the block at `index`, or an OutOfRange error for an index
    /// past the end of the chain.
    pub fn get_block_by_index(&self, index: usize) -> (r: Result<Block, ChainError>)
        ensures
            index < self@.len() ==> (r matches Ok(b) && b@ == self@[index as int]),
            index >= self@.len() ==> (r matches Err(ChainError::OutOfRange { index: i, len: l })
                && i == index && l == self@.len()),
    {
        if index < self.chain.len() {
            Ok(self.chain[index].clone())
        } else {
            Err(ChainError::OutOfRange { index, len: self.chain.len() })
        }
    }
}

/// Law: every well-formed chain starts with the genesis block: its previous
/// hash is the sentinel `"000"`, it carries the fixed genesis payload, and it
/// holds no contract.
pub proof fn lemma_genesis_block(c: &Blockchain)
    requires
        c.wf(),
    ensures
        c@.len() >= 1,
        c@[0].prev_hash == sentinel(),
        c@[0].data == genesis_payload(),
        !c@[0].has_contract,
{
}

/// Law: the hash-chain invariant. In a well-formed chain, every block past
/// the first records exactly its predecessor's hash, and every block's own
/// hash is the digest of its timestamp, payload and previous hash.
pub proof fn lemma_hash_chain(c: &Blockchain, i: int)
    requires
        c.wf(),
        0 < i < c@.len(),
    ensures
        c@[i].prev_hash == c@[i - 1].hash,
        c@[i].hash_consistent(),
{
}

} // verus!
