pub mod block;
pub mod chain;
pub mod clock;
pub mod errors;
pub mod hashing;
pub mod wasm_runtime;

pub use block::Block;
pub use block::BlockView;
pub use chain::Blockchain;
pub use clock::get_time;
pub use errors::ChainError;
pub use errors::ExecError;
pub use errors::LoadError;
pub use hashing::calc_hash;
pub use wasm_runtime::Contract;
