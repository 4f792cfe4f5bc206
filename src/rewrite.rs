//! The signature rewriter: from a function's signature to the plan of the
//! wrapper that exposes it to the host runtime.

use vstd::prelude::*;
use crate::naming::{into_wrapper_name, wrapper_name_of};
use crate::syntax::{FnSignature, SignatureView, Param, ParamView, TypeArg, TypeArgView, TypeSyntax, TypeView};

verus! {

/// How a type is treated, by the spelling of its last path segment.
#[derive(PartialEq, Eq, Structural, Clone, Copy, Debug)]
pub enum TypeKind {
    /// A reference to an array of the host runtime's buffers.
    ArrayRef,
    /// An owned growable sequence.
    Sequence,
    /// Another type of the array family, which the host runtime's buffer
    /// views do not stand for.
    OtherArray,
    /// Anything else.
    Plain,
}

/// The spelling of the array-reference type.
pub open spec fn array_ref_spelling() -> Seq<char> {
    seq!['A', 'r', 'r', 'a', 'y', 'V', 'i', 'e', 'w', 'D']
}

/// The spelling of the owned-sequence type.
pub open spec fn sequence_spelling() -> Seq<char> {
    seq!['V', 'e', 'c']
}

/// The stem that the spellings of the array family begin with.
pub open spec fn array_family_stem() -> Seq<char> {
    seq!['A', 'r', 'r', 'a', 'y']
}

/// The table of recognized spellings.
pub open spec fn kind_of(ident: Seq<char>) -> TypeKind {
    if ident == array_ref_spelling() {
        TypeKind::ArrayRef
    } else if ident == sequence_spelling() {
        TypeKind::Sequence
    } else if ident.len() >= 5 && ident.take(5) == array_family_stem() {
        TypeKind::OtherArray
    } else {
        TypeKind::Plain
    }
}

/// Whether a name begins with the array family's stem.
fn has_array_stem(ident: &str) -> (r: bool)
    ensures
        r == (ident@.len() >= 5 && ident@.take(5) == array_family_stem()),
{
    let n = ident.unicode_len();
    let r = n >= 5 && ident.get_char(0) == 'A' && ident.get_char(1) == 'r' && ident.get_char(2)
        == 'r' && ident.get_char(3) == 'a' && ident.get_char(4) == 'y';
    proof {
        if n >= 5 {
            if r {
                assert(ident@.take(5) =~= array_family_stem());
            } else if ident@.take(5) == array_family_stem() {
                assert(ident@.take(5)[0] == 'A');
                assert(ident@.take(5)[1] == 'r');
                assert(ident@.take(5)[2] == 'r');
                assert(ident@.take(5)[3] == 'a');
                assert(ident@.take(5)[4] == 'y');
            }
        }
    }
    r
}

/// Classifies a type name by its spelling.
pub fn classify_type_name(ident: &String) -> (r: TypeKind)
    ensures
        r == kind_of(ident@),
{
    let array_ref = String::from_str("ArrayViewD");
    let sequence = String::from_str("Vec");
    proof {
        reveal_strlit("ArrayViewD");
        reveal_strlit("Vec");
        assert(array_ref@ =~= array_ref_spelling());
        assert(sequence@ =~= sequence_spelling());
    }
    if ident.eq(&array_ref) {
        TypeKind::ArrayRef
    } else if ident.eq(&sequence) {
        TypeKind::Sequence
    } else if has_array_stem(ident.as_str()) {
        TypeKind::OtherArray
    } else {
        TypeKind::Plain
    }
}

/// The kind of a declared type: a path type by its last segment, any other
/// type plain.
pub open spec fn type_kind(t: TypeView) -> TypeKind {
    match t {
        TypeView::Path { ident, .. } => kind_of(ident),
        TypeView::Other => TypeKind::Plain,
    }
}

/// The first generic argument, from `args` on, that is a path type, by the
/// identifier of its last segment.
pub open spec fn first_named(args: Seq<TypeArgView>) -> Option<Seq<char>>
    decreases args.len(),
{
    if args.len() == 0 {
        None
    } else {
        match args[0] {
            TypeArgView::Named(n) => Some(n),
            TypeArgView::Other => first_named(args.drop_first()),
        }
    }
}

/// The element type of a generic type: its first generic argument that is a
/// path type; none for a type that is not a path.
pub open spec fn element_of(t: TypeView) -> Option<Seq<char>> {
    match t {
        TypeView::Path { args, .. } => first_named(args),
        TypeView::Other => None,
    }
}

/// Extracts the element type of a generic type.
pub fn extract_array_dtype(ty: &TypeSyntax) -> (r: Option<String>)
    ensures
        match r {
            Some(s) => element_of(ty@) == Some(s@),
            None => element_of(ty@).is_none(),
        },
{
    match ty {
        TypeSyntax::Path { args, .. } => {
            let ghost all = args@.map_values(|a: TypeArg| a@);
            assert(element_of(ty@) == first_named(all));
            let mut i: usize = 0;
            assert(all.subrange(0, all.len() as int) =~= all);
            while i < args.len()
                invariant
                    i <= args.len(),
                    all == args@.map_values(|a: TypeArg| a@),
                    element_of(ty@) == first_named(all),
                    first_named(all) == first_named(all.subrange(i as int, all.len() as int)),
                decreases args.len() - i,
            {
                let ghost rest = all.subrange(i as int, all.len() as int);
                assert(rest.drop_first() =~= all.subrange(i + 1, all.len() as int));
                assert(rest[0] == args@[i as int]@);
                match &args[i] {
                    TypeArg::Named(n) => {
                        return Some(n.clone());
                    },
                    TypeArg::Other => {},
                }
                i = i + 1;
            }
            assert(all.subrange(i as int, all.len() as int).len() == 0);
            None
        },
        TypeSyntax::Other => None,
    }
}

/// Why a signature cannot be rewritten.
#[derive(PartialEq, Eq, Structural, Clone, Copy, Debug)]
pub enum RewriteError {
    /// The parameter at `index` is `self`.
    ReceiverParam { index: usize },
    /// The parameter at `index` has a type of the array family other than
    /// the recognized array reference.
    UnsupportedArrayType { index: usize },
    /// The parameter at `index` is spelled as an array reference but names
    /// no element type.
    MalformedArrayType { index: usize },
    /// The parameter at `index` is an array reference whose pattern is not a
    /// plain identifier, so it cannot be rebound to its array view.
    UnnamedArrayParam { index: usize },
    /// The function declares no return type.
    MissingReturnType,
    /// The return type is spelled as an owned sequence but names no element
    /// type.
    MalformedSequenceType,
}

/// A parameter of the wrapper.
#[derive(Debug)]
pub enum WrapperParam {
    /// A host buffer view of `elem`, bound to `name` and converted to an
    /// array view before the call.
    Array { name: String, elem: String },
    /// The original parameter at `index`, forwarded with its pattern and
    /// declared type unchanged.
    Forward { index: usize },
}

pub enum WrapperParamView {
    Array { name: Seq<char>, elem: Seq<char> },
    Forward { index: nat },
}

impl View for WrapperParam {
    type V = WrapperParamView;

    open spec fn view(&self) -> WrapperParamView {
        match self {
            WrapperParam::Array { name, elem } => WrapperParamView::Array { name: name@, elem: elem@ },
            WrapperParam::Forward { index } => WrapperParamView::Forward { index: *index as nat },
        }
    }
}

/// What the wrapper returns.
#[derive(Debug)]
pub enum WrapperReturn {
    /// A host-owned array of `elem`, built from the returned sequence.
    HostArray { elem: String },
    /// The original result, as it is.
    PassThrough,
}

pub enum WrapperReturnView {
    HostArray { elem: Seq<char> },
    PassThrough,
}

impl View for WrapperReturn {
    type V = WrapperReturnView;

    open spec fn view(&self) -> WrapperReturnView {
        match self {
            WrapperReturn::HostArray { elem } => WrapperReturnView::HostArray { elem: elem@ },
            WrapperReturn::PassThrough => WrapperReturnView::PassThrough,
        }
    }
}

/// The wrapper generated for one function.
#[derive(Debug)]
pub struct WrapperPlan {
    /// The wrapper's own identifier.
    pub wrapper_name: String,
    /// The name under which the host runtime sees the function.
    pub host_name: String,
    /// One parameter per original parameter, in declaration order; the
    /// wrapper's leading execution-context parameter is implied.
    pub params: Vec<WrapperParam>,
    /// The parameters rebound to array views, in order, one conversion
    /// statement each.
    pub conversions: Vec<String>,
    /// How the result is handed back.
    pub ret: WrapperReturn,
}

pub struct WrapperPlanView {
    pub wrapper_name: Seq<char>,
    pub host_name: Seq<char>,
    pub params: Seq<WrapperParamView>,
    pub conversions: Seq<Seq<char>>,
    pub ret: WrapperReturnView,
}

impl View for WrapperPlan {
    type V = WrapperPlanView;

    open spec fn view(&self) -> WrapperPlanView {
        WrapperPlanView {
            wrapper_name: self.wrapper_name@,
            host_name: self.host_name@,
            params: self.params@.map_values(|p: WrapperParam| p@),
            conversions: self.conversions@.map_values(|s: String| s@),
            ret: self.ret@,
        }
    }
}

/// What goes wrong with the parameter `p` at position `i`, if anything.
pub open spec fn param_error(p: ParamView, i: nat) -> Option<RewriteError> {
    match p {
        ParamView::Receiver => Some(RewriteError::ReceiverParam { index: i as usize }),
        ParamView::Typed { name, ty } => {
            if type_kind(ty) == TypeKind::ArrayRef {
                if element_of(ty).is_none() {
                    Some(RewriteError::MalformedArrayType { index: i as usize })
                } else if name.is_none() {
                    Some(RewriteError::UnnamedArrayParam { index: i as usize })
                } else {
                    None
                }
            } else if type_kind(ty) == TypeKind::OtherArray {
                Some(RewriteError::UnsupportedArrayType { index: i as usize })
            } else {
                None
            }
        },
    }
}

/// The wrapper parameter for the well-formed parameter `p` at position `i`.
pub open spec fn wrapper_param_of(p: ParamView, i: nat) -> WrapperParamView {
    match p {
        ParamView::Typed { name, ty } => {
            if type_kind(ty) == TypeKind::ArrayRef {
                WrapperParamView::Array { name: name->0, elem: element_of(ty)->0 }
            } else {
                WrapperParamView::Forward { index: i }
            }
        },
        ParamView::Receiver => WrapperParamView::Forward { index: i },
    }
}

/// The error of the first parameter that has one.
pub open spec fn params_error(ps: Seq<ParamView>) -> Option<RewriteError>
    decreases ps.len(),
{
    if ps.len() == 0 {
        None
    } else {
        match params_error(ps.drop_last()) {
            Some(e) => Some(e),
            None => param_error(ps.last(), (ps.len() - 1) as nat),
        }
    }
}

/// The names rebound by conversion statements: those of the array
/// parameters, in order.
pub open spec fn conversions_of(ps: Seq<WrapperParamView>) -> Seq<Seq<char>>
    decreases ps.len(),
{
    if ps.len() == 0 {
        Seq::empty()
    } else {
        match ps.last() {
            WrapperParamView::Array { name, .. } => conversions_of(ps.drop_last()).push(name),
            WrapperParamView::Forward { .. } => conversions_of(ps.drop_last()),
        }
    }
}

/// How the declared return type `out` is handed back.
pub open spec fn return_of(out: Option<TypeView>) -> Result<WrapperReturnView, RewriteError> {
    match out {
        None => Err(RewriteError::MissingReturnType),
        Some(t) => {
            if type_kind(t) == TypeKind::Sequence {
                match element_of(t) {
                    Some(e) => Ok(WrapperReturnView::HostArray { elem: e }),
                    None => Err(RewriteError::MalformedSequenceType),
                }
            } else {
                Ok(WrapperReturnView::PassThrough)
            }
        },
    }
}

/// The wrapper parameters of a signature whose parameters are well formed.
pub open spec fn wrapper_params_of(ps: Seq<ParamView>) -> Seq<WrapperParamView> {
    Seq::new(ps.len(), |i: int| wrapper_param_of(ps[i], i as nat))
}

/// The rewriting of a signature: the first parameter error, else the return
/// type's error, else the wrapper.
pub open spec fn rewrite_of(s: SignatureView) -> Result<WrapperPlanView, RewriteError> {
    match params_error(s.params) {
        Some(e) => Err(e),
        None => match return_of(s.output) {
            Err(e) => Err(e),
            Ok(ret) => Ok(
                WrapperPlanView {
                    wrapper_name: wrapper_name_of(s.name),
                    host_name: s.name,
                    params: wrapper_params_of(s.params),
                    conversions: conversions_of(wrapper_params_of(s.params)),
                    ret,
                },
            ),
        },
    }
}

/// Once a prefix of the parameters holds an error, the first error of the
/// whole list is that one.
proof fn lemma_params_error_prefix(ps: Seq<ParamView>, n: nat)
    requires
        n <= ps.len(),
        params_error(ps.take(n as int)).is_some(),
    ensures
        params_error(ps) == params_error(ps.take(n as int)),
    decreases ps.len(),
{
    if n == ps.len() {
        assert(ps.take(n as int) =~= ps);
    } else {
        assert(ps.drop_last().take(n as int) =~= ps.take(n as int));
        lemma_params_error_prefix(ps.drop_last(), n);
    }
}

/// Plans the wrapper parameter for the parameter `p` at position `i`.
pub fn process_param(p: &Param, i: usize) -> (r: Result<WrapperParam, RewriteError>)
    ensures
        match r {
            Ok(w) => param_error(p@, i as nat).is_none() && w@ == wrapper_param_of(p@, i as nat),
            Err(e) => param_error(p@, i as nat) == Some(e),
        },
{
    match p {
        Param::Receiver => Err(RewriteError::ReceiverParam { index: i }),
        Param::Typed { name, ty } => {
            let kind = match ty {
                TypeSyntax::Path { ident, .. } => classify_type_name(ident),
                TypeSyntax::Other => TypeKind::Plain,
            };
            if kind == TypeKind::ArrayRef {
                match extract_array_dtype(ty) {
                    None => Err(RewriteError::MalformedArrayType { index: i }),
                    Some(elem) => match name {
                        None => Err(RewriteError::UnnamedArrayParam { index: i }),
                        Some(n) => Ok(WrapperParam::Array { name: n.clone(), elem }),
                    },
                }
            } else if kind == TypeKind::OtherArray {
                Err(RewriteError::UnsupportedArrayType { index: i })
            } else {
                Ok(WrapperParam::Forward { index: i })
            }
        },
    }
}

/// Plans how the declared return type is handed back.
pub fn process_return_type(output: &Option<TypeSyntax>) -> (r: Result<WrapperReturn, RewriteError>)
    ensures
        match r {
            Ok(w) => return_of(
                match output {
                    Some(t) => Some(t@),
                    None => None,
                },
            ) == Ok::<WrapperReturnView, RewriteError>(w@),
            Err(e) => return_of(
                match output {
                    Some(t) => Some(t@),
                    None => None,
                },
            ) == Err::<WrapperReturnView, RewriteError>(e),
        },
{
    match output {
        None => Err(RewriteError::MissingReturnType),
        Some(ty) => {
            let kind = match ty {
                TypeSyntax::Path { ident, .. } => classify_type_name(ident),
                TypeSyntax::Other => TypeKind::Plain,
            };
            if kind == TypeKind::Sequence {
                match extract_array_dtype(ty) {
                    Some(elem) => Ok(WrapperReturn::HostArray { elem }),
                    None => Err(RewriteError::MalformedSequenceType),
                }
            } else {
                Ok(WrapperReturn::PassThrough)
            }
        },
    }
}

/// The view of a rewriting's outcome.
pub open spec fn plan_result_view(r: Result<WrapperPlan, RewriteError>) -> Result<WrapperPlanView, RewriteError> {
    match r {
        Ok(p) => Ok(p@),
        Err(e) => Err(e),
    }
}

/// Rewrites a signature into the plan of its host-runtime wrapper: the
/// wrapper is named by the shared naming rule, is registered under the
/// function's own name, takes a host buffer view for each array parameter
/// (converted back to an array view before the call) and every other
/// parameter unchanged, and hands back a host array when the function
/// returns an owned sequence.
pub fn pyo3_wrapper(sig: &FnSignature) -> (r: Result<WrapperPlan, RewriteError>)
    ensures
        plan_result_view(r) == rewrite_of(sig@),
{
    let ghost ps = sig@.params;
    let mut params: Vec<WrapperParam> = Vec::new();
    let mut conversions: Vec<String> = Vec::new();
    let mut i: usize = 0;
    while i < sig.params.len()
        invariant
            ps == sig@.params,
            i <= sig.params.len(),
            params_error(ps.take(i as int)).is_none(),
            params@.len() == i,
            forall|j: int| 0 <= j < i ==> #[trigger] params@[j]@ == wrapper_param_of(ps[j], j as nat),
            conversions@.map_values(|s: String| s@) == conversions_of(
                params@.map_values(|p: WrapperParam| p@),
            ),
        decreases sig.params.len() - i,
    {
        assert(ps.take(i + 1).drop_last() =~= ps.take(i as int));
        assert(ps.take(i + 1).last() == sig.params@[i as int]@);
        match process_param(&sig.params[i], i) {
            Err(e) => {
                proof {
                    lemma_params_error_prefix(ps, (i + 1) as nat);
                }
                return Err(e);
            },
            Ok(w) => {
                let ghost old_views = params@.map_values(|p: WrapperParam| p@);
                let ghost old_conv = conversions@.map_values(|s: String| s@);
                match &w {
                    WrapperParam::Array { name, .. } => {
                        conversions.push(name.clone());
                        assert(conversions@.map_values(|s: String| s@) =~= old_conv.push(name@));
                    },
                    WrapperParam::Forward { .. } => {},
                }
                params.push(w);
                assert(params@.map_values(|p: WrapperParam| p@).drop_last() =~= old_views);
            },
        }
        i = i + 1;
    }
    assert(ps.take(i as int) =~= ps);
    let ret = match process_return_type(&sig.output) {
        Ok(ret) => ret,
        Err(e) => {
            return Err(e);
        },
    };
    assert(params@.map_values(|p: WrapperParam| p@) =~= wrapper_params_of(ps));
    let wrapper_name = into_wrapper_name(sig.name.as_str());
    let host_name = sig.name.clone();
    Ok(WrapperPlan { wrapper_name, host_name, params, conversions, ret })
}

} // verus!
