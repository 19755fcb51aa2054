//! The execution engine: construction, module transfer, invocation, lookup.
//!
//! The native library creates and runs engines; this module pins down the
//! protocol around those calls. A constructor takes ownership of a module:
//! on success the handle is owned by the engine from then on, on failure it
//! stays with the caller together with the diagnostic the native side
//! reported. Disposing the engine accounts for the engine handle and every
//! module handle it owns, each exactly once.

use vstd::prelude::*;
use vstd::string::StringSliceAdditionalSpecFns;

use crate::generic_value::GenericValue;
use crate::module::Module;

verus! {

/// Which native backend an engine was built on.
#[derive(Clone, Copy, Debug, PartialEq, Eq, Structural)]
pub enum EngineKind {
    /// The default engine: the native library picks the best backend it has.
    Generic,
    /// A pure interpreter.
    Interpreter,
    /// An optimizing just-in-time compiler at the given optimization level.
    JitCompiler { opt_level: u32 },
}

/// What the native create call reported back: either a fresh engine
/// reference, or the diagnostic string copied out of the native error
/// buffer (the shell frees that buffer right after copying).
pub enum CreationOutcome {
    /// The native side bound an engine to the module.
    Created { engine: u64 },
    /// The native side refused; the diagnostic is reported verbatim.
    Failed { message: String },
}

/// A failed construction: the diagnostic, and the module handed back to
/// the caller with its ownership untouched.
pub struct CreationError {
    /// The module the caller tried to build an engine from; the caller
    /// remains its owner and the one to release it.
    pub module: Module,
    /// The native diagnostic, verbatim.
    pub message: String,
}

/// Process-wide record of which native execution backends have been linked
/// in. A backend must be linked once before the first engine of its kind
/// is constructed.
pub struct Backends {
    mcjit: bool,
    interpreter: bool,
}

impl Backends {
    /// Whether the just-in-time backend has been linked in.
    pub closed spec fn mcjit_spec(&self) -> bool {
        self.mcjit
    }

    /// Whether the interpreter backend has been linked in.
    pub closed spec fn interpreter_spec(&self) -> bool {
        self.interpreter
    }

    /// A fresh process has no backend linked in yet.
    pub fn new() -> (b: Backends)
        ensures
            !b.mcjit_spec(),
            !b.interpreter_spec(),
    {
        Backends { mcjit: false, interpreter: false }
    }

    pub fn mcjit_linked(&self) -> (r: bool)
        ensures
            r == self.mcjit_spec(),
    {
        self.mcjit
    }

    pub fn interpreter_linked(&self) -> (r: bool)
        ensures
            r == self.interpreter_spec(),
    {
        self.interpreter
    }
}

/// Records that the native just-in-time backend has been linked into the
/// process; linking again changes nothing. The shell makes the one-time
/// native registration call alongside this.
pub fn link_in_mcjit(backends: &mut Backends)
    ensures
        final(backends).mcjit_spec(),
        final(backends).interpreter_spec() == old(backends).interpreter_spec(),
{
    backends.mcjit = true;
}

/// Records that the native interpreter backend has been linked into the
/// process; linking again changes nothing. The shell makes the one-time
/// native registration call alongside this.
pub fn link_in_interpreter(backends: &mut Backends)
    ensures
        final(backends).interpreter_spec(),
        final(backends).mcjit_spec() == old(backends).mcjit_spec(),
{
    backends.interpreter = true;
}

/// A symbol name can cross the foreign boundary only if it has no interior
/// NUL byte: the boundary carries it as a NUL-terminated C string.
pub open spec fn symbol_name_valid(name: Seq<u8>) -> bool {
    !name.contains(0u8)
}

/// Checks that a symbol name can be carried across the foreign boundary.
pub fn symbol_name_ok(name: &str) -> (b: bool)
    ensures
        b == symbol_name_valid(name.spec_bytes()),
{
    let bytes = name.as_bytes();
    let n = bytes.len();
    let mut i: usize = 0;
    while i < n
        invariant
            n == bytes@.len(),
            bytes@ == name.spec_bytes(),
            0 <= i <= n,
            forall|j: int| 0 <= j < i ==> bytes@[j] != 0u8,
        decreases n - i,
    {
        if bytes[i] == 0u8 {
            proof {
                assert(name.spec_bytes()[i as int] == 0u8);
            }
            return false;
        }
        i = i + 1;
    }
    true
}

/// An execution context of the native library: the engine handle, the kind
/// of backend it was built on, and the handles of every module whose
/// ownership was moved into it.
pub struct ExecutionEngine {
    engine: u64,
    kind: EngineKind,
    modules: Vec<u64>,
}

impl ExecutionEngine {
    /// The native engine reference this wrapper owns.
    pub closed spec fn engine_ref_spec(&self) -> u64 {
        self.engine
    }

    /// The backend this engine was constructed on.
    pub closed spec fn kind_spec(&self) -> EngineKind {
        self.kind
    }

    /// The handles of the modules this engine owns, in the order their
    /// ownership was transferred in.
    pub closed spec fn modules_spec(&self) -> Seq<u64> {
        self.modules@
    }

    /// Each owned module handle is recorded once, so disposing the engine
    /// releases each underlying module exactly once.
    pub open spec fn wf(&self) -> bool {
        self.modules_spec().no_duplicates()
    }

    /// What a successful construction hands back: an engine of the asked
    /// kind, wrapping the reference the native side reported, owning the
    /// one module it was built from.
    pub open spec fn construction_ok(
        m: Module,
        engine: u64,
        kind: EngineKind,
        r: Result<ExecutionEngine, CreationError>,
    ) -> bool {
        match r {
            Ok(e) => {
                &&& e.engine_ref_spec() == engine
                &&& e.kind_spec() == kind
                &&& e.modules_spec() == seq![m.handle_spec()]
                &&& e.wf()
            },
            Err(_) => false,
        }
    }

    /// What a failed construction hands back: the native diagnostic,
    /// verbatim, and the module exactly as it came — still owned by the
    /// caller, who remains the one to release it.
    pub open spec fn construction_failed(
        m: Module,
        message: Seq<char>,
        r: Result<ExecutionEngine, CreationError>,
    ) -> bool {
        match r {
            Ok(_) => false,
            Err(e) => {
                &&& e.module == m
                &&& e.message@ == message
            },
        }
    }

    /// The one construction protocol shared by the three constructors.
    fn construct(module: Module, kind: EngineKind, outcome: CreationOutcome) -> (r: Result<
        ExecutionEngine,
        CreationError,
    >)
        requires
            module.is_owned_spec(),
        ensures
            match outcome {
                CreationOutcome::Created { engine } => Self::construction_ok(
                    module,
                    engine,
                    kind,
                    r,
                ),
                CreationOutcome::Failed { message } => Self::construction_failed(
                    module,
                    message@,
                    r,
                ),
            },
    {
        match outcome {
            CreationOutcome::Created { engine } => {
                let mut m = module;
                m.unown();
                let handle = m.to_ref();
                let mut modules: Vec<u64> = Vec::new();
                modules.push(handle);
                Ok(ExecutionEngine { engine, kind, modules })
            },
            CreationOutcome::Failed { message } => Err(CreationError { module, message }),
        }
    }

    /// Builds the default engine for a module from what the native create
    /// call reported. On success the module's ownership has moved into the
    /// engine; on failure it stays with the caller, beside the diagnostic.
    /// Some backend must have been linked in first.
    pub fn new(module: Module, outcome: CreationOutcome, backends: &Backends) -> (r: Result<
        ExecutionEngine,
        CreationError,
    >)
        requires
            module.is_owned_spec(),
            backends.mcjit_spec() || backends.interpreter_spec(),
        ensures
            match outcome {
                CreationOutcome::Created { engine } => Self::construction_ok(
                    module,
                    engine,
                    EngineKind::Generic,
                    r,
                ),
                CreationOutcome::Failed { message } => Self::construction_failed(
                    module,
                    message@,
                    r,
                ),
            },
    {
        Self::construct(module, EngineKind::Generic, outcome)
    }

    /// Builds a pure interpreter for a module; the same ownership protocol
    /// as `new`. The interpreter backend must have been linked in first.
    pub fn new_interpreter(module: Module, outcome: CreationOutcome, backends: &Backends) -> (r:
        Result<ExecutionEngine, CreationError>)
        requires
            module.is_owned_spec(),
            backends.interpreter_spec(),
        ensures
            match outcome {
                CreationOutcome::Created { engine } => Self::construction_ok(
                    module,
                    engine,
                    EngineKind::Interpreter,
                    r,
                ),
                CreationOutcome::Failed { message } => Self::construction_failed(
                    module,
                    message@,
                    r,
                ),
            },
    {
        Self::construct(module, EngineKind::Interpreter, outcome)
    }

    /// Builds an optimizing just-in-time compiler for a module at the given
    /// optimization level; the same ownership protocol as `new`. The
    /// just-in-time backend must have been linked in first.
    pub fn new_jit_compiler(
        module: Module,
        opt_level: u32,
        outcome: CreationOutcome,
        backends: &Backends,
    ) -> (r: Result<ExecutionEngine, CreationError>)
        requires
            module.is_owned_spec(),
            backends.mcjit_spec(),
        ensures
            match outcome {
                CreationOutcome::Created { engine } => Self::construction_ok(
                    module,
                    engine,
                    EngineKind::JitCompiler { opt_level },
                    r,
                ),
                CreationOutcome::Failed { message } => Self::construction_failed(
                    module,
                    message@,
                    r,
                ),
            },
    {
        Self::construct(module, EngineKind::JitCompiler { opt_level }, outcome)
    }

    /// The raw native engine reference, for the shell that makes the
    /// foreign calls.
    pub fn to_ref(&self) -> (r: u64)
        ensures
            r == self.engine_ref_spec(),
    {
        self.engine
    }

    /// The backend this engine was constructed on.
    pub fn kind(&self) -> (k: EngineKind)
        ensures
            k == self.kind_spec(),
    {
        self.kind
    }

    /// The handles of the modules this engine owns, in insertion order.
    pub fn modules(&self) -> (r: &Vec<u64>)
        ensures
            r@ == self.modules_spec(),
    {
        &self.modules
    }

    /// Hands the shell the engine reference on which to invoke the native
    /// global-constructor runner. The engine's ownership state is
    /// untouched, so with no modules added this is a no-op at this layer.
    pub fn run_static_constructors(&mut self) -> (r: u64)
        ensures
            *final(self) == *old(self),
            r == old(self).engine_ref_spec(),
    {
        self.engine
    }

    /// Hands the shell the engine reference on which to invoke the native
    /// global-destructor runner. The engine's ownership state is
    /// untouched, so with no modules added this is a no-op at this layer.
    pub fn run_static_destructors(&mut self) -> (r: u64)
        ensures
            *final(self) == *old(self),
            r == old(self).engine_ref_spec(),
    {
        self.engine
    }

    /// Invokes a function through the engine: the function reference and
    /// the boxed arguments cross the boundary unchecked (the native library
    /// is the one that runs them), and the boxed result the native side
    /// reported comes back wrapped in its own owning `GenericValue`. The
    /// engine's ownership state is untouched.
    #[allow(unused_variables)]
    pub fn run_function(&mut self, f: u64, args: &Vec<u64>, native_result: u64) -> (g:
        GenericValue)
        ensures
            *final(self) == *old(self),
            g.to_ref_spec() == native_result,
    {
        GenericValue::from_ref(native_result)
    }

    /// Transfers ownership of one more module into the engine: the handle
    /// joins the engine's record, and the module wrapper is consumed, so
    /// only the engine releases it from now on. A handle the engine already
    /// owns cannot arrive here still owned by someone else.
    pub fn add_module(&mut self, module: Module)
        requires
            old(self).wf(),
            module.is_owned_spec(),
            !old(self).modules_spec().contains(module.handle_spec()),
        ensures
            final(self).engine_ref_spec() == old(self).engine_ref_spec(),
            final(self).kind_spec() == old(self).kind_spec(),
            final(self).modules_spec() == old(self).modules_spec().push(
                module.handle_spec(),
            ),
            final(self).wf(),
    {
        let mut m = module;
        m.unown();
        let handle = m.to_ref();
        self.modules.push(handle);
    }

    /// Resolves a symbol name to the native machine address the lookup
    /// reported. This layer adds nothing to the native answer: zero is the
    /// native sentinel for an unresolved symbol. The name crosses the
    /// boundary as a C string, so it must be free of interior NUL bytes.
    #[allow(unused_variables)]
    pub fn get_function_address(&self, name: &str, native_address: u64) -> (addr: u64)
        requires
            symbol_name_valid(name.spec_bytes()),
        ensures
            addr == native_address,
    {
        native_address
    }

    /// Ends the engine's life. The caller must dispose the returned engine
    /// reference exactly once; the native side releases with it every
    /// module the engine owned — their handles are listed, each once, for
    /// the caller's accounting. No other owner of those modules is left.
    pub fn dispose(self) -> (r: (u64, Vec<u64>))
        ensures
            r.0 == self.engine_ref_spec(),
            r.1@ == self.modules_spec(),
    {
        (self.engine, self.modules)
    }
}

/// Whether an address reported by symbol lookup means the symbol was
/// resolved: zero is the documented sentinel for an unresolved symbol.
pub fn symbol_resolved(addr: u64) -> (b: bool)
    ensures
        b == (addr != 0),
{
    addr != 0
}

/// At most one owner ever releases a module resource. A module whose
/// handle was moved into a well-formed engine has been disowned, so its
/// own release disposes nothing; and the engine's record holds that handle
/// at exactly one position, so the engine's disposal accounts for it once.
pub proof fn lemma_single_owner_releases(e: ExecutionEngine, m: Module)
    requires
        e.wf(),
        !m.is_owned_spec(),
        e.modules_spec().contains(m.handle_spec()),
    ensures
        m.must_dispose_spec() is None,
        forall|i: int, j: int|
            0 <= i < e.modules_spec().len() && 0 <= j < e.modules_spec().len()
                && e.modules_spec()[i] == m.handle_spec() && e.modules_spec()[j]
                == m.handle_spec() ==> i == j,
{
}

/// Transferring one more module keeps every module the engine already
/// owned and records the new handle: after the transfer the engine
/// accounts for all of them.
pub proof fn lemma_added_module_accounted(
    before: ExecutionEngine,
    after: ExecutionEngine,
    h: u64,
)
    requires
        after.modules_spec() == before.modules_spec().push(h),
    ensures
        after.modules_spec().contains(h),
        forall|x: u64|
            before.modules_spec().contains(x) ==> after.modules_spec().contains(x),
{
    assert(after.modules_spec()[before.modules_spec().len() as int] == h);
    assert forall|x: u64|
        before.modules_spec().contains(x) implies after.modules_spec().contains(x) by {
        let i = choose|i: int|
            0 <= i < before.modules_spec().len() && before.modules_spec()[i] == x;
        assert(after.modules_spec()[i] == x);
    }
}

} // verus!
