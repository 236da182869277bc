use crate::error::InjectorError;
use crate::module::{
    allocator_index, locate_body_spec, BlockType, FuncBody, Instruction, Module, ModuleView,
};
use vstd::prelude::*;

verus! {

/// The catalog of faults that can be injected into a function body.
#[derive(Clone, Copy, Debug, PartialEq, Eq, Structural)]
pub enum Injection {
    /// A loop that branches back to its own start before the original code.
    InfiniteLoop,
    /// The body is replaced by one that returns a meaningless 64-bit value.
    BadReturnValue,
    /// An out-of-bounds memory store before the original code: the fault is
    /// a memory-access trap at the first instruction, not an exhausted call
    /// frame.
    StackOverflow,
    /// Megabytes of no-ops before the original code.
    Noops,
    /// Repeated large allocation requests to the host before the original code.
    HeapOverflow,
}

/// The value that a body returns after a bad-return-value injection.
pub const BAD_RETURN_VALUE: i64 = 123456789;

/// The size of each allocation request of a heap-overflow injection.
pub const HEAP_OVERFLOW_REQUEST: i32 = 33554431;

/// The number of allocation requests of a heap-overflow injection.
pub const HEAP_OVERFLOW_CALLS: usize = 8;

/// The number of no-ops in one megabyte of a no-op injection.
pub const NOOPS_PER_MB: usize = 1000000;

/// The local read as the store address by a stack-overflow injection.
pub const STACK_OVERFLOW_LOCAL: u32 = 2;

/// The value stored by a stack-overflow injection.
pub const STACK_OVERFLOW_VALUE: i32 = 2147483647;

/// The alignment flag of the store of a stack-overflow injection.
pub const STACK_OVERFLOW_ALIGN: u32 = 2;

/// The offset of the store of a stack-overflow injection.
pub const STACK_OVERFLOW_OFFSET: u32 = 81000000;

/// The instructions that an infinite-loop injection puts first.
pub open spec fn infinite_loop_prefix() -> Seq<Instruction> {
    seq![
        Instruction::Loop(BlockType::NoResult),
        Instruction::Nop,
        Instruction::Br(0),
        Instruction::End,
    ]
}

/// The whole body after a bad-return-value injection.
pub open spec fn bad_return_value_code() -> Seq<Instruction> {
    seq![Instruction::I64Const(BAD_RETURN_VALUE), Instruction::End]
}

/// The instructions that a stack-overflow injection puts first.
pub open spec fn stack_overflow_prefix() -> Seq<Instruction> {
    seq![
        Instruction::GetLocal(STACK_OVERFLOW_LOCAL),
        Instruction::I32Const(STACK_OVERFLOW_VALUE),
        Instruction::I32Store(STACK_OVERFLOW_ALIGN, STACK_OVERFLOW_OFFSET),
    ]
}

/// `n` no-ops.
pub open spec fn noops_prefix(n: nat) -> Seq<Instruction> {
    Seq::new(n, |i: int| Instruction::Nop)
}

/// The instructions that a heap-overflow injection puts first: the request
/// size and a call of the allocator at `malloc`, eight times over.
pub open spec fn heap_overflow_prefix(malloc: u32) -> Seq<Instruction> {
    Seq::new(
        2 * HEAP_OVERFLOW_CALLS as nat,
        |i: int|
            if i % 2 == 0 {
                Instruction::I32Const(HEAP_OVERFLOW_REQUEST)
            } else {
                Instruction::Call(malloc)
            },
    )
}

/// The number of no-ops for `size` megabytes, when that is a valid count.
pub open spec fn noops_count(size: i16) -> Option<nat> {
    if size < 0 || size as int * NOOPS_PER_MB as int > usize::MAX as int {
        None
    } else {
        Some((size as int * NOOPS_PER_MB as int) as nat)
    }
}

/// Whether `size` is missing for a fault that needs it, unusable, or given
/// for a fault that takes none.
pub open spec fn config_error(fault: Injection, size: Option<i16>) -> bool {
    match size {
        None => fault is Noops,
        Some(s) => !(fault is Noops) || noops_count(s) is None,
    }
}

/// The instructions of a body after `fault` was injected into `code`; `size`
/// and `malloc` are those of the injection.
pub open spec fn injected_code(
    fault: Injection,
    code: Seq<Instruction>,
    size: Option<i16>,
    malloc: nat,
) -> Seq<Instruction> {
    match fault {
        Injection::InfiniteLoop => infinite_loop_prefix() + code,
        Injection::BadReturnValue => bad_return_value_code(),
        Injection::StackOverflow => stack_overflow_prefix() + code,
        Injection::Noops => noops_prefix(noops_count(size->0)->0) + code,
        Injection::HeapOverflow => heap_overflow_prefix(malloc as u32) + code,
    }
}

/// The module after injecting `fault` into the function exported under
/// `name`, or the error that the injection ends with. A heap-overflow
/// injection first needs the allocator import; then the size parameter is
/// checked; then the function is located.
pub open spec fn injected(
    m: ModuleView,
    name: Seq<char>,
    fault: Injection,
    size: Option<i16>,
) -> Result<ModuleView, InjectorError> {
    if fault is HeapOverflow && allocator_index(m.imports) is None {
        Err(InjectorError::NotFound)
    } else if config_error(fault, size) {
        Err(InjectorError::Config)
    } else {
        match locate_body_spec(m, name) {
            Err(e) => Err(e),
            Ok(i) => Ok(
                with_body(
                    m,
                    i,
                    injected_code(
                        fault,
                        m.code[i],
                        size,
                        if fault is HeapOverflow {
                            allocator_index(m.imports)->0
                        } else {
                            0
                        },
                    ),
                ),
            ),
        }
    }
}

/// `m` with the body at `i` replaced by `code`.
pub open spec fn with_body(m: ModuleView, i: int, code: Seq<Instruction>) -> ModuleView {
    ModuleView { code: m.code.update(i, code), ..m }
}

/// Puts `prefix` before the body at `index`, or replaces the body with it
/// when `keep` is false.
fn rewrite_body(module: &mut Module, index: usize, prefix: Vec<Instruction>, keep: bool)
    requires
        index < old(module).code@.len(),
    ensures
        final(module)@ == with_body(
            old(module)@,
            index as int,
            if keep {
                prefix@ + old(module)@.code[index as int]
            } else {
                prefix@
            },
        ),
{
    let ghost before = module.code@;
    let mut body = module.code.remove(index);
    let mut code = prefix;
    if keep {
        code.append(&mut body.code);
    }
    let new_body = FuncBody { code };
    module.code.insert(index, new_body);
    proof {
        let new_code = if keep {
            prefix@ + before[index as int].code@
        } else {
            prefix@
        };
        assert(module.code@ =~= before.update(index as int, new_body));
        assert(module@.code =~= before.map_values(|b: FuncBody| b.code@).update(
            index as int,
            new_code,
        ));
    }
}

impl Injection {
    /// The name of the fault on the command line and in file names.
    pub fn name(&self) -> (r: &'static str)
        ensures
            r@ == injection_name(*self),
    {
        match self {
            Injection::InfiniteLoop => "infinite-loop",
            Injection::BadReturnValue => "bad-return-value",
            Injection::StackOverflow => "stack-overflow",
            Injection::Noops => "noops",
            Injection::HeapOverflow => "heap-overflow",
        }
    }

    /// Checks the size parameter: it must be given for a no-op injection, as
    /// a number of megabytes whose no-ops can be counted, and absent for
    /// every other fault.
    pub fn check_size(&self, size: Option<i16>) -> (r: Result<(), InjectorError>)
        ensures
            config_error(*self, size) ==> r == Err::<(), InjectorError>(InjectorError::Config),
            !config_error(*self, size) ==> r is Ok,
    {
        match size {
            None => {
                if let Injection::Noops = self {
                    return Err(InjectorError::Config);
                }
                Ok(())
            },
            Some(s) => {
                if !matches!(self, Injection::Noops) || s < 0 {
                    return Err(InjectorError::Config);
                }
                match (s as usize).checked_mul(NOOPS_PER_MB) {
                    Some(_) => Ok(()),
                    None => Err(InjectorError::Config),
                }
            },
        }
    }

    /// Injects the fault into the body of the function exported under
    /// `function`. `size` is the number of megabytes of a no-op injection and
    /// must be absent for every other fault. On an error the module is left
    /// as it was.
    pub fn inject(self, module: &mut Module, function: &str, size: Option<i16>) -> (r: Result<
        (),
        InjectorError,
    >)
        ensures
            match injected(old(module)@, function@, self, size) {
                Ok(m) => r is Ok && final(module)@ == m,
                Err(e) => r == Err::<(), InjectorError>(e) && final(module)@ == old(module)@,
            },
    {
        if let Injection::HeapOverflow = self {
            if module.get_malloc_index().is_err() {
                return Err(InjectorError::NotFound);
            }
        }
        self.check_size(size)?;
        match self {
            Injection::InfiniteLoop => inject_infinite_loop(module, function),
            Injection::BadReturnValue => inject_bad_return_value(module, function),
            Injection::StackOverflow => inject_stack_overflow(module, function),
            Injection::Noops => inject_noops(module, function, size),
            Injection::HeapOverflow => inject_heap_overflow(module, function),
        }
    }
}

/// The body that a successful injection under `name` rewrites.
pub open spec fn target_body(m: ModuleView, name: Seq<char>) -> Seq<Instruction> {
    m.code[locate_body_spec(m, name)->Ok_0]
}

/// Puts a loop that branches back to its own start before the body of the
/// function exported under `function_name`: the body grows by four.
pub fn inject_infinite_loop(module: &mut Module, function_name: &str) -> (r: Result<
    (),
    InjectorError,
>)
    ensures
        match injected(old(module)@, function_name@, Injection::InfiniteLoop, None) {
            Ok(m) => r is Ok && final(module)@ == m,
            Err(e) => r == Err::<(), InjectorError>(e) && final(module)@ == old(module)@,
        },
        locate_body_spec(old(module)@, function_name@) is Ok ==> r is Ok,
        r is Ok ==> ({
            let b = target_body(final(module)@, function_name@);
            let o = target_body(old(module)@, function_name@);
            &&& b.len() == o.len() + 4
            &&& b.take(4) == seq![
                Instruction::Loop(BlockType::NoResult),
                Instruction::Nop,
                Instruction::Br(0),
                Instruction::End,
            ]
            &&& b.skip(4) == o
        }),
{
    let index = match module.locate_body(function_name) {
        Ok(i) => i,
        Err(e) => return Err(e),
    };
    let prefix = vec![
        // the branch targets the loop's start, so the loop never ends
        Instruction::Loop(BlockType::NoResult),
        Instruction::Nop,
        Instruction::Br(0),
        Instruction::End,
    ];
    assert(prefix@ =~= infinite_loop_prefix());
    rewrite_body(module, index, prefix, true);
    proof {
        let b = module@.code[index as int];
        assert(b.take(4) =~= infinite_loop_prefix());
        assert(b.skip(4) =~= old(module)@.code[index as int]);
    }
    Ok(())
}

/// Replaces the body of the function exported under `function_name` with
/// exactly `I64Const(123456789), End`, whatever it held.
pub fn inject_bad_return_value(module: &mut Module, function_name: &str) -> (r: Result<
    (),
    InjectorError,
>)
    ensures
        match injected(old(module)@, function_name@, Injection::BadReturnValue, None) {
            Ok(m) => r is Ok && final(module)@ == m,
            Err(e) => r == Err::<(), InjectorError>(e) && final(module)@ == old(module)@,
        },
        locate_body_spec(old(module)@, function_name@) is Ok ==> r is Ok,
        r is Ok ==> target_body(final(module)@, function_name@) == seq![
            Instruction::I64Const(123456789),
            Instruction::End,
        ],
{
    let index = match module.locate_body(function_name) {
        Ok(i) => i,
        Err(e) => return Err(e),
    };
    let code = vec![Instruction::I64Const(BAD_RETURN_VALUE), Instruction::End];
    assert(code@ =~= bad_return_value_code());
    rewrite_body(module, index, code, false);
    Ok(())
}

/// Puts a store far out of the memory's bounds before the body of the
/// function exported under `function_name`.
pub fn inject_stack_overflow(module: &mut Module, function_name: &str) -> (r: Result<
    (),
    InjectorError,
>)
    ensures
        match injected(old(module)@, function_name@, Injection::StackOverflow, None) {
            Ok(m) => r is Ok && final(module)@ == m,
            Err(e) => r == Err::<(), InjectorError>(e) && final(module)@ == old(module)@,
        },
        locate_body_spec(old(module)@, function_name@) is Ok ==> r is Ok,
{
    let index = match module.locate_body(function_name) {
        Ok(i) => i,
        Err(e) => return Err(e),
    };
    let prefix = vec![
        Instruction::GetLocal(STACK_OVERFLOW_LOCAL),
        Instruction::I32Const(STACK_OVERFLOW_VALUE),
        Instruction::I32Store(STACK_OVERFLOW_ALIGN, STACK_OVERFLOW_OFFSET),
    ];
    assert(prefix@ =~= stack_overflow_prefix());
    rewrite_body(module, index, prefix, true);
    Ok(())
}

/// Puts `size` megabytes of no-ops, one per byte, before the body of the
/// function exported under `function_name`. A missing or negative size, or
/// one whose no-ops cannot be counted, is a configuration error.
pub fn inject_noops(module: &mut Module, function_name: &str, size: Option<i16>) -> (r: Result<
    (),
    InjectorError,
>)
    ensures
        match injected(old(module)@, function_name@, Injection::Noops, size) {
            Ok(m) => r is Ok && final(module)@ == m,
            Err(e) => r == Err::<(), InjectorError>(e) && final(module)@ == old(module)@,
        },
        size matches Some(s) && s >= 0 && s * NOOPS_PER_MB <= usize::MAX && locate_body_spec(
            old(module)@,
            function_name@,
        ) is Ok ==> r is Ok,
        r is Ok ==> (size matches Some(s) && ({
            let n = s * NOOPS_PER_MB;
            let b = target_body(final(module)@, function_name@);
            let o = target_body(old(module)@, function_name@);
            &&& n >= 0
            &&& b.len() == o.len() + n
            &&& forall|k: int| 0 <= k < n ==> b[k] == Instruction::Nop
            &&& b.skip(n) == o
        })),
{
    let count = match size {
        None => return Err(InjectorError::Config),
        Some(s) => {
            if s < 0 {
                return Err(InjectorError::Config);
            }
            match (s as usize).checked_mul(NOOPS_PER_MB) {
                Some(n) => n,
                None => return Err(InjectorError::Config),
            }
        },
    };
    let index = match module.locate_body(function_name) {
        Ok(i) => i,
        Err(e) => return Err(e),
    };
    let prefix = nops(count);
    rewrite_body(module, index, prefix, true);
    proof {
        let b = module@.code[index as int];
        assert(b.skip(count as int) =~= old(module)@.code[index as int]);
    }
    Ok(())
}

/// Puts eight requests of 32 MiB to the host's allocator before the body of
/// the function exported under `function_name`; a module without the
/// allocator import fails with `NotFound`.
pub fn inject_heap_overflow(module: &mut Module, function_name: &str) -> (r: Result<
    (),
    InjectorError,
>)
    ensures
        match injected(old(module)@, function_name@, Injection::HeapOverflow, None) {
            Ok(m) => r is Ok && final(module)@ == m,
            Err(e) => r == Err::<(), InjectorError>(e) && final(module)@ == old(module)@,
        },
        allocator_index(old(module)@.imports) is None ==> r == Err::<(), InjectorError>(
            InjectorError::NotFound,
        ),
{
    let malloc = match module.get_malloc_index() {
        Ok(k) => k,
        Err(e) => return Err(e),
    };
    let index = match module.locate_body(function_name) {
        Ok(i) => i,
        Err(e) => return Err(e),
    };
    let prefix = allocation_requests(#[verifier::truncate] (malloc as u32));
    rewrite_body(module, index, prefix, true);
    Ok(())
}

/// The module after the injections of `list` from position `i` on, each
/// into the module the one before left, and the error of the first that
/// fails; the injections before it stay.
pub open spec fn injected_each(
    m: ModuleView,
    list: Seq<(&str, Injection, Option<i16>)>,
    i: int,
) -> (ModuleView, Option<InjectorError>)
    decreases list.len() - i,
{
    if i < 0 || i >= list.len() {
        (m, None)
    } else {
        match injected(m, list[i].0@, list[i].1, list[i].2) {
            Ok(next) => injected_each(next, list, i + 1),
            Err(e) => (m, Some(e)),
        }
    }
}

impl Module {
    /// Applies each injection of `injections` (function name, fault, size)
    /// in turn, stopping at the first that fails; the ones before it stay.
    pub fn map_functions(&mut self, injections: &[(&str, Injection, Option<i16>)]) -> (r: Result<
        (),
        InjectorError,
    >)
        ensures
            final(self)@ == injected_each(old(self)@, injections@, 0).0,
            match injected_each(old(self)@, injections@, 0).1 {
                None => r is Ok,
                Some(e) => r == Err::<(), InjectorError>(e),
            },
    {
        let mut i: usize = 0;
        while i < injections.len()
            invariant
                i <= injections@.len(),
                injected_each(old(self)@, injections@, 0) == injected_each(
                    self@,
                    injections@,
                    i as int,
                ),
            decreases injections.len() - i,
        {
            let (name, fault, size) = injections[i];
            fault.inject(self, name, size)?;
            i = i + 1;
        }
        Ok(())
    }
}

/// The name of a fault on the command line and in file names.
pub open spec fn injection_name(fault: Injection) -> Seq<char> {
    match fault {
        Injection::InfiniteLoop => "infinite-loop"@,
        Injection::BadReturnValue => "bad-return-value"@,
        Injection::StackOverflow => "stack-overflow"@,
        Injection::Noops => "noops"@,
        Injection::HeapOverflow => "heap-overflow"@,
    }
}

/// `n` no-ops.
fn nops(n: usize) -> (r: Vec<Instruction>)
    ensures
        r@ == noops_prefix(n as nat),
{
    let mut v: Vec<Instruction> = Vec::new();
    let mut i: usize = 0;
    while i < n
        invariant
            i <= n,
            v@ == noops_prefix(i as nat),
        decreases n - i,
    {
        v.push(Instruction::Nop);
        i = i + 1;
        assert(v@ =~= noops_prefix(i as nat));
    }
    v
}

/// Eight pairs of a request size and a call of the allocator at `malloc`.
fn allocation_requests(malloc: u32) -> (r: Vec<Instruction>)
    ensures
        r@ == heap_overflow_prefix(malloc),
{
    let mut v: Vec<Instruction> = Vec::new();
    let mut i: usize = 0;
    while i < HEAP_OVERFLOW_CALLS
        invariant
            i <= HEAP_OVERFLOW_CALLS,
            v@ == heap_overflow_prefix(malloc).take(2 * i as int),
        decreases HEAP_OVERFLOW_CALLS - i,
    {
        v.push(Instruction::I32Const(HEAP_OVERFLOW_REQUEST));
        v.push(Instruction::Call(malloc));
        i = i + 1;
        assert(v@ =~= heap_overflow_prefix(malloc).take(2 * i as int));
    }
    assert(heap_overflow_prefix(malloc).take(2 * HEAP_OVERFLOW_CALLS as int) =~= heap_overflow_prefix(malloc));
    v
}

} // verus!
