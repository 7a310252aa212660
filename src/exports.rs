//! An instance's exports, resolved by name and called from the host.
use crate::dispatch::{coerce_args, coerce_arguments, finish_call, outcome_matches, DispatchError};
use crate::signature::FunctionSignature;
use crate::text::{append_list, list_text};
use crate::value::{HostValue, TypedValue};
use vstd::prelude::*;
use vstd::string::StringExecFns;

verus! {

/// The kinds of item a module exports or imports.
#[derive(Clone, Copy, Debug, PartialEq, Eq, Structural)]
pub enum ExportImportKind {
    Function,
    Memory,
    Global,
    Table,
}

impl ExportImportKind {
    /// Every kind, in declaration order.
    pub fn iter() -> (r: Vec<ExportImportKind>)
        ensures
            r@ == seq![
                ExportImportKind::Function,
                ExportImportKind::Memory,
                ExportImportKind::Global,
                ExportImportKind::Table,
            ],
    {
        let mut v: Vec<ExportImportKind> = Vec::new();
        v.push(ExportImportKind::Function);
        v.push(ExportImportKind::Memory);
        v.push(ExportImportKind::Global);
        v.push(ExportImportKind::Table);
        v
    }

    /// The kind's name in upper case.
    pub fn name(&self) -> (r: &'static str)
        ensures
            r@ == match *self {
                ExportImportKind::Function => "FUNCTION"@,
                ExportImportKind::Memory => "MEMORY"@,
                ExportImportKind::Global => "GLOBAL"@,
                ExportImportKind::Table => "TABLE"@,
            },
    {
        match self {
            ExportImportKind::Function => "FUNCTION",
            ExportImportKind::Memory => "MEMORY",
            ExportImportKind::Global => "GLOBAL",
            ExportImportKind::Table => "TABLE",
        }
    }

    /// The kind's number, as the host sees it.
    pub fn code(&self) -> (r: u8)
        ensures
            r == match *self {
                ExportImportKind::Function => 1u8,
                ExportImportKind::Memory => 2u8,
                ExportImportKind::Global => 3u8,
                ExportImportKind::Table => 4u8,
            },
    {
        match self {
            ExportImportKind::Function => 1,
            ExportImportKind::Memory => 2,
            ExportImportKind::Global => 3,
            ExportImportKind::Table => 4,
        }
    }
}

/// One exported function of a live instance: its name and its signature.
#[derive(Clone, Debug, PartialEq, Eq)]
pub struct ExportEntry {
    pub name: String,
    pub signature: FunctionSignature,
}

/// Finds the first export named `name`.
pub fn find_export(table: &Vec<ExportEntry>, name: &String) -> (r: Option<usize>)
    ensures
        match r {
            Some(i) => i < table@.len() && table@[i as int].name@ == name@ && forall|j: int|
                0 <= j < i ==> #[trigger] table@[j].name@ != name@,
            None => forall|j: int| 0 <= j < table@.len() ==> #[trigger] table@[j].name@ != name@,
        },
{
    let mut i: usize = 0;
    while i < table.len()
        invariant
            i <= table@.len(),
            forall|j: int| 0 <= j < i ==> #[trigger] table@[j].name@ != name@,
        decreases table.len() - i,
    {
        if table[i].name.eq(name) {
            return Some(i);
        }
        i = i + 1;
    }
    None
}

/// A handle on an exported function by name; it owns nothing and is resolved
/// against the instance's export table on each use.
#[derive(Clone, Debug, PartialEq, Eq)]
pub struct ExportedFunction {
    function_name: String,
}

impl ExportedFunction {
    pub closed spec fn spec_name(&self) -> Seq<char> {
        self.function_name@
    }

    pub closed spec fn spec_function_name(&self) -> String {
        self.function_name
    }

    /// The exported name this handle stands for.
    pub fn function_name(&self) -> (r: &String)
        ensures
            *r == self.spec_function_name(),
            r@ == self.spec_name(),
    {
        &self.function_name
    }

    /// Resolves the handle to a position in `table`; a name that is not
    /// there fails cleanly.
    pub fn move_runtime_func_obj(&self, table: &Vec<ExportEntry>) -> (r: Result<usize, DispatchError>)
        ensures
            match self.move_runtime_func_obj_spec(table@) {
                Some(i) => self.is_first(table@, i) && r is Ok && r->Ok_0 == i,
                None => r == Err::<usize, DispatchError>(
                    DispatchError::UnknownExport { name: self.spec_function_name() },
                ),
            },
    {
        match find_export(table, &self.function_name) {
            Some(i) => {
                proof {
                    self.lemma_first_is_unique(table@, i as int);
                }
                Ok(i)
            },
            None => {
                proof {
                    if self.move_runtime_func_obj_spec(table@) is Some {
                        let k = choose|k: int| self.is_first(table@, k);
                        assert(table@[k].name@ != self.spec_name());
                    }
                }
                Err(DispatchError::UnknownExport { name: self.function_name.clone() })
            },
        }
    }

    /// The function's full signature as text, such as
    /// `sum: FuncSig { params: [I32, I32], returns: [I32] }`.
    pub fn signature(&self, table: &Vec<ExportEntry>) -> (r: Result<String, DispatchError>)
        ensures
            match self.move_runtime_func_obj_spec(table@) {
                Some(i) => r is Ok && r->Ok_0@ == self.spec_name() + ": FuncSig { params: "@
                    + list_text(table@[i].signature.params@) + ", returns: "@ + list_text(
                    table@[i].signature.results@,
                ) + " }"@,
                None => r == Err::<String, DispatchError>(
                    DispatchError::UnknownExport { name: self.spec_function_name() },
                ),
            },
    {
        let i = match self.move_runtime_func_obj(table) {
            Ok(i) => i,
            Err(e) => return Err(e),
        };
        let mut s = self.function_name.clone();
        s.append(": FuncSig { params: ");
        append_list(&mut s, &table[i].signature.params);
        s.append(", returns: ");
        append_list(&mut s, &table[i].signature.results);
        s.append(" }");
        Ok(s)
    }

    /// The function's parameters as text, such as `sum: [I32, I32]`.
    pub fn params(&self, table: &Vec<ExportEntry>) -> (r: Result<String, DispatchError>)
        ensures
            match self.move_runtime_func_obj_spec(table@) {
                Some(i) => r is Ok && r->Ok_0@ == self.spec_name() + ": "@ + list_text(
                    table@[i].signature.params@,
                ),
                None => r == Err::<String, DispatchError>(
                    DispatchError::UnknownExport { name: self.spec_function_name() },
                ),
            },
    {
        let i = match self.move_runtime_func_obj(table) {
            Ok(i) => i,
            Err(e) => return Err(e),
        };
        let mut s = self.function_name.clone();
        s.append(": ");
        append_list(&mut s, &table[i].signature.params);
        Ok(s)
    }

    /// The position of the first export of this name in `table`, if any.
    pub open spec fn move_runtime_func_obj_spec(&self, table: Seq<ExportEntry>) -> Option<int> {
        if exists|i: int| self.is_first(table, i) {
            Some(choose|i: int| self.is_first(table, i))
        } else {
            None
        }
    }

    /// Position `i` holds the first export of this name.
    pub open spec fn is_first(&self, table: Seq<ExportEntry>, i: int) -> bool {
        &&& 0 <= i < table.len()
        &&& table[i].name@ == self.spec_name()
        &&& forall|j: int| 0 <= j < i ==> #[trigger] table[j].name@ != self.spec_name()
    }

    proof fn lemma_first_is_unique(&self, table: Seq<ExportEntry>, i: int)
        requires
            self.is_first(table, i),
        ensures
            self.move_runtime_func_obj_spec(table) == Some(i),
    {
        let k = choose|k: int| self.is_first(table, k);
        if k < i {
            assert(table[k].name@ != self.spec_name());
        }
        if i < k {
            assert(table[i].name@ != self.spec_name());
        }
    }

    /// Calls the exported function with host `arguments`; `run(i, a)` runs
    /// the export at position `i` of `table` on typed arguments `a`.
    pub fn call<F: Fn(usize, Vec<TypedValue>) -> Result<Vec<TypedValue>, String>>(
        &self,
        table: &Vec<ExportEntry>,
        run: &F,
        arguments: &Vec<HostValue>,
    ) -> (r: Result<HostValue, DispatchError>)
        requires
            forall|i: usize, a: Vec<TypedValue>| run.requires((i, a)),
        ensures
            match self.move_runtime_func_obj_spec(table@) {
                None => r == Err::<HostValue, DispatchError>(
                    DispatchError::UnknownExport { name: self.spec_function_name() },
                ),
                Some(i) => match coerce_args(table@[i].signature.params@, arguments@) {
                    Err(e) => r == Err::<HostValue, DispatchError>(e),
                    Ok(s) => exists|a: Vec<TypedValue>, out: Result<Vec<TypedValue>, String>|
                        a@ == s && #[trigger] run.ensures((i as usize, a), out) && outcome_matches(
                            table@[i].signature.results@.len(),
                            out,
                            r,
                        ),
                },
            },
    {
        let i = match self.move_runtime_func_obj(table) {
            Ok(i) => i,
            Err(e) => return Err(e),
        };
        let typed = match coerce_arguments(&table[i].signature.params, arguments) {
            Ok(v) => v,
            Err(e) => return Err(e),
        };
        let ghost a = typed;
        let out = run(i, typed);
        let ghost o = out;
        let r = finish_call(table[i].signature.results.len(), out);
        proof {
            let k = self.move_runtime_func_obj_spec(table@)->Some_0;
            assert(k == i as int);
            assert((k as usize) == i);
            assert(a@ == coerce_args(table@[k].signature.params@, arguments@)->Ok_0);
            assert(run.ensures((k as usize, a), o) && outcome_matches(
                table@[k].signature.results@.len(),
                o,
                r,
            ));
        }
        r
    }
}

/// The exported functions of an instance, looked up by name.
#[derive(Clone, Debug)]
pub struct ExportedFunctions {
    functions: Vec<String>,
}

impl ExportedFunctions {
    /// The exports named `functions`.
    pub fn new(functions: Vec<String>) -> (r: ExportedFunctions)
        ensures
            r.names() == functions@.map_values(|s: String| s@),
    {
        ExportedFunctions { functions }
    }

    pub closed spec fn names(&self) -> Seq<Seq<char>> {
        self.functions@.map_values(|s: String| s@)
    }

    /// The names of the exported functions.
    pub fn functions(&self) -> (r: &Vec<String>)
        ensures
            r@.map_values(|s: String| s@) == self.names(),
    {
        &self.functions
    }

    /// The handle of the exported function named `key`, or an error when the
    /// instance exports no function of that name.
    pub fn getattr(&self, key: String) -> (r: Result<ExportedFunction, DispatchError>)
        ensures
            self.names().contains(key@) ==> r is Ok && r->Ok_0.spec_name() == key@,
            !self.names().contains(key@) ==> r == Err::<ExportedFunction, DispatchError>(
                DispatchError::UnknownExport { name: key },
            ),
    {
        let mut i: usize = 0;
        while i < self.functions.len()
            invariant
                i <= self.functions@.len(),
                forall|j: int| 0 <= j < i ==> #[trigger] self.functions@[j]@ != key@,
            decreases self.functions.len() - i,
        {
            if self.functions[i].eq(&key) {
                assert(self.names()[i as int] == key@);
                return Ok(ExportedFunction { function_name: key });
            }
            i = i + 1;
        }
        proof {
            if self.names().contains(key@) {
                let k = choose|k: int| 0 <= k < self.names().len() && self.names()[k] == key@;
                assert(self.functions@[k]@ == key@);
            }
        }
        Err(DispatchError::UnknownExport { name: key })
    }
}

} // verus!
