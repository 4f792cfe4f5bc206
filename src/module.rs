//! The module assembler: from the tokens of a module declaration to the
//! registrations its initialization function performs.

use vstd::prelude::*;
use crate::naming::{into_wrapper_name, wrapper_name_of};

verus! {

/// A token of a module declaration.
pub enum ModuleToken {
    /// A string literal, by its value.
    Str(String),
    /// An identifier.
    Ident(String),
    /// A `,`.
    Comma,
    /// Any other token.
    Other,
}

pub enum ModuleTokenView {
    Str(Seq<char>),
    Ident(Seq<char>),
    Comma,
    Other,
}

impl View for ModuleToken {
    type V = ModuleTokenView;

    open spec fn view(&self) -> ModuleTokenView {
        match self {
            ModuleToken::Str(s) => ModuleTokenView::Str(s@),
            ModuleToken::Ident(s) => ModuleTokenView::Ident(s@),
            ModuleToken::Comma => ModuleTokenView::Comma,
            ModuleToken::Other => ModuleTokenView::Other,
        }
    }
}

/// Why a module declaration does not parse; `at` is the position of the
/// offending token, or the number of tokens when the input ended early.
#[derive(PartialEq, Eq, Structural, Clone, Copy, Debug)]
pub enum ModuleParseError {
    ExpectedModuleName { at: usize },
    ExpectedComma { at: usize },
    ExpectedIdent { at: usize },
}

/// The parsed module declaration: the module's name and the functions it
/// registers, in order.
#[derive(Debug)]
pub struct FunctionNames {
    pub module_name: String,
    pub functions: Vec<String>,
}

pub struct FunctionNamesView {
    pub module_name: Seq<char>,
    pub functions: Seq<Seq<char>>,
}

impl View for FunctionNames {
    type V = FunctionNamesView;

    open spec fn view(&self) -> FunctionNamesView {
        FunctionNamesView {
            module_name: self.module_name@,
            functions: self.functions@.map_values(|s: String| s@),
        }
    }
}

pub open spec fn tokens_view(toks: Seq<ModuleToken>) -> Seq<ModuleTokenView> {
    toks.map_values(|t: ModuleToken| t@)
}

/// The error in the leading `"name" ,`, if any.
pub open spec fn header_error(toks: Seq<ModuleTokenView>) -> Option<ModuleParseError> {
    if toks.len() == 0 || !(toks[0] is Str) {
        Some(ModuleParseError::ExpectedModuleName { at: 0 })
    } else if toks.len() < 2 || !(toks[1] is Comma) {
        Some(ModuleParseError::ExpectedComma { at: 1 })
    } else {
        None
    }
}

/// After the header, identifiers stand at even positions and commas at odd
/// ones; `j` breaks that rule.
pub open spec fn bad_at(toks: Seq<ModuleTokenView>, j: int) -> bool {
    if j % 2 == 0 {
        !(toks[j] is Ident)
    } else {
        !(toks[j] is Comma)
    }
}

/// The error reported at position `j`.
pub open spec fn error_at(j: nat) -> ModuleParseError {
    if j % 2 == 0 {
        ModuleParseError::ExpectedIdent { at: j as usize }
    } else {
        ModuleParseError::ExpectedComma { at: j as usize }
    }
}

/// The first position from `j` on that breaks the list's rule.
pub open spec fn first_bad(toks: Seq<ModuleTokenView>, j: nat) -> Option<nat>
    decreases toks.len() - j,
{
    if j >= toks.len() {
        None
    } else if bad_at(toks, j as int) {
        Some(j)
    } else {
        first_bad(toks, j + 1)
    }
}

pub open spec fn str_value(t: ModuleTokenView) -> Seq<char> {
    match t {
        ModuleTokenView::Str(s) => s,
        _ => Seq::empty(),
    }
}

pub open spec fn ident_value(t: ModuleTokenView) -> Seq<char> {
    match t {
        ModuleTokenView::Ident(s) => s,
        _ => Seq::empty(),
    }
}

/// The grammar `"name" , ident (, ident)* [,]`, with an empty list allowed:
/// the first error, or the module's name and its functions.
pub open spec fn parse_of(toks: Seq<ModuleTokenView>) -> Result<FunctionNamesView, ModuleParseError> {
    match header_error(toks) {
        Some(e) => Err(e),
        None => match first_bad(toks, 2) {
            Some(j) => Err(error_at(j)),
            None => Ok(
                FunctionNamesView {
                    module_name: str_value(toks[0]),
                    functions: Seq::new(
                        ((toks.len() - 1) / 2) as nat,
                        |k: int| ident_value(toks[2 + 2 * k]),
                    ),
                },
            ),
        },
    }
}

pub open spec fn names_result_view(r: Result<FunctionNames, ModuleParseError>) -> Result<FunctionNamesView, ModuleParseError> {
    match r {
        Ok(n) => Ok(n@),
        Err(e) => Err(e),
    }
}

impl FunctionNames {
    /// Parses a module declaration from its tokens.
    pub fn parse(tokens: &Vec<ModuleToken>) -> (r: Result<FunctionNames, ModuleParseError>)
        ensures
            names_result_view(r) == parse_of(tokens_view(tokens@)),
    {
        let ghost toks = tokens_view(tokens@);
        let n = tokens.len();
        let module_name = if n == 0 {
            return Err(ModuleParseError::ExpectedModuleName { at: 0 });
        } else {
            match &tokens[0] {
                ModuleToken::Str(s) => s.clone(),
                _ => {
                    return Err(ModuleParseError::ExpectedModuleName { at: 0 });
                },
            }
        };
        if n < 2 {
            return Err(ModuleParseError::ExpectedComma { at: 1 });
        }
        match &tokens[1] {
            ModuleToken::Comma => {},
            _ => {
                return Err(ModuleParseError::ExpectedComma { at: 1 });
            },
        }
        let mut functions: Vec<String> = Vec::new();
        let mut j: usize = 2;
        while j < n
            invariant
                n == tokens@.len(),
                toks == tokens_view(tokens@),
                toks.len() == n,
                header_error(toks).is_none(),
                2 <= j <= n,
                functions@.len() == (j - 1) / 2,
                first_bad(toks, 2) == first_bad(toks, j as nat),
                forall|k: int|
                    0 <= k < functions@.len() ==> #[trigger] functions@[k]@ == ident_value(
                        toks[2 + 2 * k],
                    ),
            decreases n - j,
        {
            assert(toks[j as int] == tokens@[j as int]@);
            if j % 2 == 0 {
                match &tokens[j] {
                    ModuleToken::Ident(f) => {
                        functions.push(f.clone());
                    },
                    _ => {
                        return Err(ModuleParseError::ExpectedIdent { at: j });
                    },
                }
            } else {
                match &tokens[j] {
                    ModuleToken::Comma => {},
                    _ => {
                        return Err(ModuleParseError::ExpectedComma { at: j });
                    },
                }
            }
            j = j + 1;
        }
        let r = FunctionNames { module_name, functions };
        assert(r@.functions =~= parse_of(toks)->Ok_0.functions);
        Ok(r)
    }
}

/// The module's initialization function: the module's name and the
/// wrappers it registers, one registration each, in order.
#[derive(Debug)]
pub struct ModulePlan {
    pub module_name: String,
    pub registrations: Vec<String>,
}

pub struct ModulePlanView {
    pub module_name: Seq<char>,
    pub registrations: Seq<Seq<char>>,
}

impl View for ModulePlan {
    type V = ModulePlanView;

    open spec fn view(&self) -> ModulePlanView {
        ModulePlanView {
            module_name: self.module_name@,
            registrations: self.registrations@.map_values(|s: String| s@),
        }
    }
}

/// The module that registers the wrappers of the named functions, in the
/// order given.
pub open spec fn assembly_of(names: FunctionNamesView) -> ModulePlanView {
    ModulePlanView {
        module_name: names.module_name,
        registrations: names.functions.map_values(|f: Seq<char>| wrapper_name_of(f)),
    }
}

/// Builds the module plan for parsed names.
pub fn assemble(names: &FunctionNames) -> (r: ModulePlan)
    ensures
        r@ == assembly_of(names@),
{
    let mut registrations: Vec<String> = Vec::new();
    let mut i: usize = 0;
    while i < names.functions.len()
        invariant
            i <= names.functions@.len(),
            registrations@.len() == i,
            forall|k: int|
                0 <= k < i ==> #[trigger] registrations@[k]@ == wrapper_name_of(
                    names.functions@[k]@,
                ),
        decreases names.functions.len() - i,
    {
        registrations.push(into_wrapper_name(names.functions[i].as_str()));
        i = i + 1;
    }
    let r = ModulePlan { module_name: names.module_name.clone(), registrations };
    assert(r@.registrations =~= assembly_of(names@).registrations);
    r
}

pub open spec fn module_result_view(r: Result<ModulePlan, ModuleParseError>) -> Result<ModulePlanView, ModuleParseError> {
    match r {
        Ok(p) => Ok(p@),
        Err(e) => Err(e),
    }
}

/// The outcome of assembling a module from its declaration's tokens.
pub open spec fn create_module_of(toks: Seq<ModuleTokenView>) -> Result<ModulePlanView, ModuleParseError> {
    match parse_of(toks) {
        Ok(names) => Ok(assembly_of(names)),
        Err(e) => Err(e),
    }
}

/// Parses a module declaration and plans its initialization function.
pub fn create_pymodule(tokens: &Vec<ModuleToken>) -> (r: Result<ModulePlan, ModuleParseError>)
    ensures
        module_result_view(r) == create_module_of(tokens_view(tokens@)),
{
    match FunctionNames::parse(tokens) {
        Ok(names) => Ok(assemble(&names)),
        Err(e) => Err(e),
    }
}

/// The first registration, before position `n`, that fails.
pub open spec fn first_failure(succeeds: Seq<bool>, n: nat) -> Option<nat>
    decreases n,
{
    if n == 0 {
        None
    } else {
        match first_failure(succeeds, (n - 1) as nat) {
            Some(k) => Some(k),
            None => if !succeeds[n - 1] {
                Some((n - 1) as nat)
            } else {
                None
            },
        }
    }
}

/// How many registrations a run attempts: up to and including the first
/// failure, or all of them.
pub open spec fn attempt_count(succeeds: Seq<bool>) -> int {
    match first_failure(succeeds, succeeds.len()) {
        Some(k) => (k + 1) as int,
        None => succeeds.len() as int,
    }
}

/// What a run of the initialization function did: the registrations it
/// attempted, in order, and whether it succeeded.
pub struct InitTrace {
    pub attempted: Vec<String>,
    pub succeeded: bool,
}

impl ModulePlan {
    /// Runs the initialization function's control flow, where the
    /// registration at position `k` succeeds exactly when `succeeds[k]`:
    /// registrations go in order and the first failure ends the run.
    pub fn run_init(&self, succeeds: &Vec<bool>) -> (r: InitTrace)
        requires
            succeeds@.len() == self.registrations@.len(),
        ensures
            r.attempted@.map_values(|s: String| s@) == self@.registrations.take(attempt_count(succeeds@)),
            r.succeeded == first_failure(succeeds@, succeeds@.len()).is_none(),
    {
        let mut attempted: Vec<String> = Vec::new();
        let mut i: usize = 0;
        while i < self.registrations.len()
            invariant
                succeeds@.len() == self.registrations@.len(),
                i <= self.registrations@.len(),
                first_failure(succeeds@, i as nat).is_none(),
                attempted@.map_values(|s: String| s@) == self@.registrations.take(i as int),
            decreases self.registrations.len() - i,
        {
            let ghost before = attempted@.map_values(|s: String| s@);
            let c = self.registrations[i].clone();
            assert(c@ == self@.registrations[i as int]);
            attempted.push(c);
            assert(attempted@.map_values(|s: String| s@) =~= before.push(c@));
            assert(attempted@.map_values(|s: String| s@) =~= self@.registrations.take(i + 1));
            if !succeeds[i] {
                proof {
                    lemma_first_failure_prefix(succeeds@, (i + 1) as nat, succeeds@.len());
                }
                return InitTrace { attempted, succeeded: false };
            }
            i = i + 1;
        }
        InitTrace { attempted, succeeded: true }
    }
}

/// A failure found before `n` stays the first one before any later `m`.
proof fn lemma_first_failure_prefix(succeeds: Seq<bool>, n: nat, m: nat)
    requires
        n <= m,
        first_failure(succeeds, n).is_some(),
    ensures
        first_failure(succeeds, m) == first_failure(succeeds, n),
    decreases m - n,
{
    if n < m {
        lemma_first_failure_prefix(succeeds, n, (m - 1) as nat);
    }
}

} // verus!
