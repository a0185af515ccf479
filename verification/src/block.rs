use vstd::prelude::*;
use crate::errors::CallError;
use crate::errors::ExecError;
use crate::hashing::calc_hash_spec;
use crate::wasm_runtime::call_entry;
use crate::wasm_runtime::Contract;

verus! {

/// What a block holds, as plain values: its four strings and whether a
/// contract instance is attached. The instance itself is opaque, so only its
/// presence shows in the view.
pub ghost struct BlockView {
    pub time_stamp: Seq<char>,
    pub data: Seq<char>,
    pub hash: Seq<char>,
    pub prev_hash: Seq<char>,
    pub has_contract: bool,
}

impl BlockView {
    /// The block's hash is the digest of its own timestamp, payload and
    /// previous hash, concatenated in that order.
    pub open spec fn hash_consistent(self) -> bool {
        self.hash == calc_hash_spec(self.time_stamp, self.data, self.prev_hash)
    }
}

/// One record of the chain: immutable after creation, optionally carrying an
/// exclusively owned, loaded contract instance.
pub struct Block {
    time_stamp: String,
    data: String,
    hash: String,
    prev_hash: String,
    contract: Option<Contract>,
}

impl View for Block {
    type V = BlockView;

    closed spec fn view(&self) -> BlockView {
        BlockView {
            time_stamp: self.time_stamp@,
            data: self.data@,
            hash: self.hash@,
            prev_hash: self.prev_hash@,
            has_contract: self.contract is Some,
        }
    }
}

impl Clone for Block {
    fn clone(&self) -> (r: Self)
        ensures
            r@ == self@,
    {
        Block {
            time_stamp: self.time_stamp.clone(),
            data: self.data.clone(),
            hash: self.hash.clone(),
            prev_hash: self.prev_hash.clone(),
            contract: match &self.contract {
                Some(contract) => Some(contract.another_handle()),
                None => None,
            },
        }
    }
}

impl Block {
    /// Builds a block from its parts. The chain alone creates blocks, so this
    /// stays inside the crate.
    pub(crate) fn build(
        time_stamp: String,
        data: String,
        hash: String,
        prev_hash: String,
        contract: Option<Contract>,
    ) -> (r: Block)
        ensures
            r@.time_stamp == time_stamp@,
            r@.data == data@,
            r@.hash == hash@,
            r@.prev_hash == prev_hash@,
            r@.has_contract == (contract is Some),
    {
        Block { time_stamp, data, hash, prev_hash, contract }
    }

    /// When the block was created, as it was rendered at construction.
    pub fn time_stamp(&self) -> (r: &String)
        ensures
            r@ == self@.time_stamp,
    {
        &self.time_stamp
    }

    /// The payload: free-form data, or the identifier of the loaded contract.
    pub fn data(&self) -> (r: &String)
        ensures
            r@ == self@.data,
    {
        &self.data
    }

    /// The block's own content hash.
    pub fn hash(&self) -> (r: &String)
        ensures
            r@ == self@.hash,
    {
        &self.hash
    }

    /// The hash of the preceding block, or the sentinel for the first one.
    pub fn prev_hash(&self) -> (r: &String)
        ensures
            r@ == self@.prev_hash,
    {
        &self.prev_hash
    }

    /// Whether a loaded contract instance is attached.
    pub fn has_contract(&self) -> (r: bool)
        ensures
            r == self@.has_contract,
    {
        self.contract.is_some()
    }

    /// Runs the block's contract, if one is attached, by calling its `_start`
    /// entry point with no arguments; a block without a contract has nothing
    /// to execute and succeeds as a no-op. The block itself is never changed.
    /// Whether a present contract runs or fails rests with the sandboxed
    /// module; any failure names this block's payload.
    pub fn run_conrtact(&mut self) -> (r: Result<(), ExecError>)
        ensures
            final(self)@ == old(self)@,
            !old(self)@.has_contract ==> r is Ok,
            r matches Err(e) ==> old(self)@.has_contract && e.contract_view() == old(self)@.data,
    {
        if let Some(contract) = &self.contract {
            match call_entry(contract, "_start") {
                Ok(()) => Ok(()),
                Err(CallError::MissingEntryPoint(message)) => {
                    Err(ExecError::MissingEntryPoint { contract: self.data.clone(), message })
                },
                Err(CallError::Trap(message)) => {
                    Err(ExecError::Trap { contract: self.data.clone(), message })
                },
            }
        } else {
            Ok(())
        }
    }
}

} // verus!
