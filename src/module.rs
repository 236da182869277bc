use crate::error::InjectorError;
use crate::text::{seq_starts_with, str_equal, str_starts_with};
use vstd::prelude::*;
use wasm_instrument::parity_wasm::elements::Instruction as WasmInstruction;

verus! {

/// An instruction of the module's binary format that the fault catalog does
/// not build; it is carried through unchanged.
#[verifier::external_type_specification]
#[verifier::external_body]
pub struct ExWasmInstruction(WasmInstruction);

/// Relies on the derived `Clone` of parity_wasm's `Instruction`; nothing is
/// claimed of the copy.
pub assume_specification[ <WasmInstruction as std::clone::Clone>::clone ](
    i: &WasmInstruction,
) -> WasmInstruction;

/// The value type of a block's result.
#[derive(Clone, Copy, Debug, PartialEq, Eq, Structural)]
pub enum ValueType {
    I32,
    I64,
    F32,
    F64,
}

/// What a block or loop leaves on the stack.
#[derive(Clone, Copy, Debug, PartialEq, Eq, Structural)]
pub enum BlockType {
    NoResult,
    Value(ValueType),
}

/// An instruction of a function body.
#[derive(Clone, Debug, PartialEq)]
pub enum Instruction {
    Nop,
    Block(BlockType),
    Loop(BlockType),
    Br(u32),
    End,
    I32Const(i32),
    I64Const(i64),
    GetLocal(u32),
    Call(u32),
    /// Alignment flag and offset.
    I32Store(u32, u32),
    GrowMemory(u8),
    Drop,
    Other(WasmInstruction),
}

/// What an import entry brings in.
#[derive(Clone, Copy, Debug, PartialEq, Eq, Structural)]
pub enum External {
    /// A function, with the index of its signature.
    Function(u32),
    Table,
    Memory,
    Global,
}

/// An entry of the import section.
#[derive(Clone, Debug, PartialEq, Eq)]
pub struct ImportEntry {
    pub module: String,
    pub field: String,
    pub external: External,
}

/// What an export entry points at, with its index in that kind's index space.
#[derive(Clone, Copy, Debug, PartialEq, Eq, Structural)]
pub enum Internal {
    Function(u32),
    Table(u32),
    Memory(u32),
    Global(u32),
}

/// An entry of the export section.
#[derive(Clone, Debug, PartialEq, Eq)]
pub struct ExportEntry {
    pub field: String,
    pub internal: Internal,
}

/// The instructions of one locally defined function.
#[derive(Clone, Debug, PartialEq)]
pub struct FuncBody {
    pub code: Vec<Instruction>,
}

/// The sections of a module that the injector reads and rewrites. An absent
/// section is an empty one.
#[derive(Clone, Debug, PartialEq)]
pub struct Module {
    pub imports: Vec<ImportEntry>,
    pub exports: Vec<ExportEntry>,
    /// One body per locally defined function, in declaration order.
    pub code: Vec<FuncBody>,
}

/// A module as sequences: imports, exports, and the instructions of each body.
pub struct ModuleView {
    pub imports: Seq<ImportEntry>,
    pub exports: Seq<ExportEntry>,
    pub code: Seq<Seq<Instruction>>,
}

impl View for Module {
    type V = ModuleView;

    open spec fn view(&self) -> ModuleView {
        ModuleView {
            imports: self.imports@,
            exports: self.exports@,
            code: self.code@.map_values(|b: FuncBody| b.code@),
        }
    }
}

/// The field name that marks the host's allocation function among the imports.
pub const ALLOCATOR_PREFIX: &'static str = "ext_allocator_malloc";

/// Export `e` is a function exported under `name`.
pub open spec fn exports_function(e: ExportEntry, name: Seq<char>) -> bool {
    e.field@ == name && e.internal is Function
}

/// The global index carried by the first function export named `name` at or
/// after position `i`.
pub open spec fn export_index_from(exports: Seq<ExportEntry>, name: Seq<char>, i: int) -> Option<
    u32,
>
    decreases exports.len() - i,
{
    if i < 0 || i >= exports.len() {
        None
    } else if exports_function(exports[i], name) {
        Some(exports[i].internal->Function_0)
    } else {
        export_index_from(exports, name, i + 1)
    }
}

/// The global index of the first function exported under `name`, if any.
pub open spec fn export_function_index(exports: Seq<ExportEntry>, name: Seq<char>) -> Option<u32> {
    export_index_from(exports, name, 0)
}

/// The number of function imports among the first `n` import entries.
pub open spec fn function_imports_before(imports: Seq<ImportEntry>, n: int) -> nat
    decreases n,
{
    if n <= 0 {
        0
    } else {
        function_imports_before(imports, n - 1) + if imports[n - 1].external is Function {
            1nat
        } else {
            0nat
        }
    }
}

/// The number of import entries that are functions: the slots they take at
/// the front of the call-index space.
pub open spec fn function_import_count(imports: Seq<ImportEntry>) -> nat {
    function_imports_before(imports, imports.len() as int)
}

/// The position of the first import at or after `i` whose field name starts
/// with the allocator prefix.
pub open spec fn allocator_entry_from(imports: Seq<ImportEntry>, i: int) -> Option<int>
    decreases imports.len() - i,
{
    if i < 0 || i >= imports.len() {
        None
    } else if seq_starts_with(imports[i].field@, ALLOCATOR_PREFIX@) {
        Some(i)
    } else {
        allocator_entry_from(imports, i + 1)
    }
}

/// The call index of the allocator import: the number of function imports
/// that precede the first import named with the allocator prefix.
pub open spec fn allocator_index(imports: Seq<ImportEntry>) -> Option<nat> {
    match allocator_entry_from(imports, 0) {
        Some(j) => Some(function_imports_before(imports, j)),
        None => None,
    }
}

/// The position in the code section of the function at `global_index`, when
/// `import_count` imported functions come first.
pub open spec fn local_index_of(global_index: int, import_count: int) -> Result<
    int,
    InjectorError,
> {
    if global_index < import_count {
        Err(InjectorError::InvalidTarget)
    } else {
        Ok(global_index - import_count)
    }
}

/// The position in the code section of the body of the function exported
/// under `name`.
pub open spec fn locate_body_spec(m: ModuleView, name: Seq<char>) -> Result<int, InjectorError> {
    match export_function_index(m.exports, name) {
        None => Err(InjectorError::NotFound),
        Some(g) => match local_index_of(g as int, function_import_count(m.imports) as int) {
            Err(e) => Err(e),
            Ok(i) => if i < m.code.len() {
                Ok(i)
            } else {
                Err(InjectorError::NotFound)
            },
        },
    }
}

proof fn lemma_function_imports_bounded(imports: Seq<ImportEntry>, n: int)
    requires
        0 <= n,
    ensures
        function_imports_before(imports, n) <= n,
    decreases n,
{
    if n > 0 {
        lemma_function_imports_bounded(imports, n - 1);
    }
}

/// Computes `global_index - import_count`, the position of a local function
/// in the code section.
pub fn local_function_index(global_index: usize, import_count: usize) -> (r: Result<
    usize,
    InjectorError,
>)
    ensures
        match local_index_of(global_index as int, import_count as int) {
            Ok(i) => r == Ok::<usize, InjectorError>(i as usize),
            Err(e) => r == Err::<usize, InjectorError>(e),
        },
{
    if global_index < import_count {
        Err(InjectorError::InvalidTarget)
    } else {
        Ok(global_index - import_count)
    }
}

impl Module {
    /// The global function index carried by the first function export named
    /// `function_name`.
    pub fn get_global_function_index(&self, function_name: &str) -> (r: Result<
        usize,
        InjectorError,
    >)
        ensures
            match export_function_index(self.exports@, function_name@) {
                Some(g) => r == Ok::<usize, InjectorError>(g as usize),
                None => r == Err::<usize, InjectorError>(InjectorError::NotFound),
            },
    {
        let mut i: usize = 0;
        while i < self.exports.len()
            invariant
                i <= self.exports@.len(),
                export_function_index(self.exports@, function_name@) == export_index_from(
                    self.exports@,
                    function_name@,
                    i as int,
                ),
            decreases self.exports.len() - i,
        {
            let e = &self.exports[i];
            if str_equal(e.field.as_str(), function_name) {
                if let Internal::Function(g) = e.internal {
                    return Ok(g as usize);
                }
            }
            i = i + 1;
        }
        Err(InjectorError::NotFound)
    }

    /// The number of imported functions; imports of tables, memories and
    /// globals take no slot in the call-index space.
    pub fn get_import_section_len(&self) -> (r: usize)
        ensures
            r == function_import_count(self.imports@),
    {
        let mut count: usize = 0;
        let mut i: usize = 0;
        while i < self.imports.len()
            invariant
                i <= self.imports@.len(),
                count == function_imports_before(self.imports@, i as int),
                count <= i,
            decreases self.imports.len() - i,
        {
            if let External::Function(_) = self.imports[i].external {
                count = count + 1;
            }
            i = i + 1;
        }
        count
    }

    /// The body of the function at `local_function_index` in the code section.
    pub fn get_function_body(&self, local_function_index: usize) -> (r: Result<
        &FuncBody,
        InjectorError,
    >)
        ensures
            local_function_index < self.code@.len() ==> r == Ok::<&FuncBody, InjectorError>(
                &self.code@[local_function_index as int],
            ),
            local_function_index >= self.code@.len() ==> r == Err::<&FuncBody, InjectorError>(
                InjectorError::NotFound,
            ),
    {
        if local_function_index < self.code.len() {
            Ok(&self.code[local_function_index])
        } else {
            Err(InjectorError::NotFound)
        }
    }

    /// The position in the code section of the body of the function exported
    /// under `function_name`.
    pub fn locate_body(&self, function_name: &str) -> (r: Result<usize, InjectorError>)
        ensures
            match locate_body_spec(self@, function_name@) {
                Ok(i) => r == Ok::<usize, InjectorError>(i as usize),
                Err(e) => r == Err::<usize, InjectorError>(e),
            },
    {
        let global_index = self.get_global_function_index(function_name)?;
        let import_count = self.get_import_section_len();
        let local_index = local_function_index(global_index, import_count)?;
        if local_index < self.code.len() {
            Ok(local_index)
        } else {
            Err(InjectorError::NotFound)
        }
    }

    /// The call index of the host's allocation function: the number of
    /// function imports before the first import whose field name starts with
    /// the allocator prefix.
    pub fn get_malloc_index(&self) -> (r: Result<usize, InjectorError>)
        ensures
            match allocator_index(self.imports@) {
                Some(k) => r is Ok && r->Ok_0 == k,
                None => r == Err::<usize, InjectorError>(InjectorError::NotFound),
            },
    {
        let mut count: usize = 0;
        let mut i: usize = 0;
        while i < self.imports.len()
            invariant
                i <= self.imports@.len(),
                count == function_imports_before(self.imports@, i as int),
                count <= i,
                allocator_entry_from(self.imports@, 0) == allocator_entry_from(
                    self.imports@,
                    i as int,
                ),
            decreases self.imports.len() - i,
        {
            if str_starts_with(self.imports[i].field.as_str(), ALLOCATOR_PREFIX) {
                return Ok(count);
            }
            if let External::Function(_) = self.imports[i].external {
                count = count + 1;
            }
            i = i + 1;
        }
        Err(InjectorError::NotFound)
    }
}

} // verus!
