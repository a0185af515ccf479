use vstd::prelude::*;
use crate::errors::CallError;
use crate::errors::LoadError;

verus! {

#[verifier::external_type_specification]
#[verifier::external_body]
pub struct ExStore(wasmer::Store);

#[verifier::external_type_specification]
#[verifier::external_body]
pub struct ExModule(wasmer::Module);

#[verifier::external_type_specification]
#[verifier::external_body]
pub struct ExInstance(wasmer::Instance);

#[verifier::external_type_specification]
#[verifier::external_body]
#[verifier::reject_recursive_types(T)]
pub struct ExMutex<T: ?Sized>(std::sync::Mutex<T>);

/// A loaded, instantiated contract module: the store that runs it paired with
/// the instance it produced. A block copy made by chain lookup shares the
/// same underlying instance, as a copied handle did in the reference runtime.
pub struct Contract {
    inner: std::sync::Arc<std::sync::Mutex<(wasmer::Store, wasmer::Instance)>>,
}

impl Contract {
    /// A second handle onto the same instance. Relies on the reference count
    /// of std::sync::Arc; the instance itself is opaque here.
    #[verifier::external_body]
    pub(crate) fn another_handle(&self) -> Contract {
        Contract { inner: std::sync::Arc::clone(&self.inner) }
    }
}

/// Relies on wasmer::Store::default: a store backed by the default engine and
/// compiler. The store is opaque here.
#[verifier::external_body]
pub(crate) fn default_store() -> wasmer::Store {
    wasmer::Store::default()
}

/// Relies on wasmer::Module::from_file: reads the file at `path` and compiles
/// it. What comes back depends on the disk, so nothing is promised of it; the
/// error enum is mapped arm for arm, the I/O arm to `ModuleNotFound` and the
/// compile arm to `InvalidModule`.
#[verifier::external_body]
pub(crate) fn module_from_file(store: &wasmer::Store, path: String) -> Result<
    wasmer::Module,
    LoadError,
> {
    match wasmer::Module::from_file(store, path) {
        Ok(module) => Ok(module),
        Err(wasmer::IoCompileError::Io(e)) => Err(LoadError::ModuleNotFound(format!("{}", e))),
        Err(wasmer::IoCompileError::Compile(e)) => Err(LoadError::InvalidModule(format!("{}", e))),
    }
}

/// Relies on wasmer::Instance::new: links the module against an empty import
/// object, so the instance starts with no capabilities beyond its own memory,
/// and pairs it with the store that now owns it. An unresolved import or a
/// failing start section comes back as text.
#[verifier::external_body]
pub(crate) fn instantiate(store: wasmer::Store, module: &wasmer::Module) -> Result<
    Contract,
    String,
> {
    let mut store = store;
    match wasmer::Instance::new(&mut store, module, &wasmer::Imports::new()) {
        Ok(instance) => Ok(
            Contract { inner: std::sync::Arc::new(std::sync::Mutex::new((store, instance))) },
        ),
        Err(e) => Err(format!("{}", e)),
    }
}

/// Relies on wasmer::Exports::get_function and wasmer::Function::call: looks
/// the entry point up by name on the contract's instance and invokes it with
/// no arguments, discarding its results. A missing export and a trap or
/// runtime fault come back under separate arms, rendered as text. Relies on
/// std::sync::Mutex::lock for exclusive use of the paired store; a poisoned
/// lock is taken over rather than propagated.
#[verifier::external_body]
pub(crate) fn call_entry(contract: &Contract, name: &str) -> Result<(), CallError> {
    let mut guard = match contract.inner.lock() {
        Ok(guard) => guard,
        Err(poisoned) => poisoned.into_inner(),
    };
    let (store, instance) = &mut *guard;
    let start = match instance.exports.get_function(name) {
        Ok(f) => f,
        Err(e) => return Err(CallError::MissingEntryPoint(format!("{}", e))),
    };
    match start.call(store, &[]) {
        Ok(_) => Ok(()),
        Err(e) => Err(CallError::Trap(format!("{}", e))),
    }
}

} // verus!
