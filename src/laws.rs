//! Properties that tie the rewriter and the assembler together.

use vstd::prelude::*;
use crate::module::{
    attempt_count, create_module_of, first_failure, parse_of, ModuleTokenView,
};
use crate::naming::{lemma_wrapper_name_recovers, unraw, wrapper_name_of};
use crate::rewrite::{
    conversions_of, element_of, params_error, return_of, rewrite_of, type_kind,
    wrapper_params_of, RewriteError, TypeKind, WrapperParamView, WrapperPlanView,
    WrapperReturnView,
};
use crate::syntax::{ParamView, SignatureView};

verus! {

/// Expansion is a function of its input: equal signatures give equal
/// wrappers, and equal module declarations give equal modules.
pub proof fn lemma_expansion_deterministic(
    s1: SignatureView,
    s2: SignatureView,
    t1: Seq<ModuleTokenView>,
    t2: Seq<ModuleTokenView>,
)
    requires
        s1 == s2,
        t1 == t2,
    ensures
        rewrite_of(s1) == rewrite_of(s2),
        create_module_of(t1) == create_module_of(t2),
{
}

/// The wrapper name the assembler registers for a listed function is the
/// name the rewriter gave that function's wrapper, and the function's name,
/// without a raw marker, reads back out of it.
pub proof fn lemma_naming_round_trip(s: SignatureView, toks: Seq<ModuleTokenView>, k: int)
    requires
        rewrite_of(s) is Ok,
        parse_of(toks) is Ok,
        0 <= k < parse_of(toks)->Ok_0.functions.len(),
        parse_of(toks)->Ok_0.functions[k] == s.name,
    ensures
        create_module_of(toks) is Ok,
        create_module_of(toks)->Ok_0.registrations[k] == rewrite_of(s)->Ok_0.wrapper_name,
        create_module_of(toks)->Ok_0.registrations[k].subrange(11, 11 + unraw(s.name).len() as int)
            == unraw(s.name),
{
    lemma_wrapper_name_recovers(s.name);
}

/// Whether a parameter is spelled as an array reference.
pub open spec fn is_array_param(p: ParamView) -> bool {
    match p {
        ParamView::Typed { ty, .. } => type_kind(ty) == TypeKind::ArrayRef,
        ParamView::Receiver => false,
    }
}

/// The number of parameters spelled as array references.
pub open spec fn array_param_count(ps: Seq<ParamView>) -> nat
    decreases ps.len(),
{
    if ps.len() == 0 {
        0
    } else {
        array_param_count(ps.drop_last()) + if is_array_param(ps.last()) {
            1nat
        } else {
            0nat
        }
    }
}

proof fn lemma_conversions_counted(ps: Seq<ParamView>)
    ensures
        conversions_of(wrapper_params_of(ps)).len() == array_param_count(ps),
    decreases ps.len(),
{
    if ps.len() > 0 {
        assert(wrapper_params_of(ps).drop_last() =~= wrapper_params_of(ps.drop_last()));
        lemma_conversions_counted(ps.drop_last());
    }
}

/// With well-formed parameters, the wrapper exists exactly when the return
/// type is well formed; it holds one conversion per array parameter, and its
/// parameters follow the original ones in order, an array parameter becoming
/// a buffer view of its element type under the same name and every other one
/// forwarded as it stands.
pub proof fn lemma_array_params_converted(s: SignatureView)
    requires
        params_error(s.params) is None,
    ensures
        rewrite_of(s) is Ok <==> return_of(s.output) is Ok,
        rewrite_of(s) is Ok ==> rewrite_of(s)->Ok_0.params == wrapper_params_of(s.params)
            && rewrite_of(s)->Ok_0.conversions == conversions_of(wrapper_params_of(s.params)),
        conversions_of(wrapper_params_of(s.params)).len() == array_param_count(s.params),
        wrapper_params_of(s.params).len() == s.params.len(),
        forall|i: int|
            0 <= i < s.params.len() ==> (#[trigger] wrapper_params_of(s.params)[i] == if is_array_param(
                s.params[i],
            ) {
                WrapperParamView::Array {
                    name: s.params[i]->Typed_name->0,
                    elem: element_of(s.params[i]->Typed_ty)->0,
                }
            } else {
                WrapperParamView::Forward { index: i as nat }
            }),
{
    lemma_conversions_counted(s.params);
}

/// With well-formed parameters, a function returning an owned sequence of
/// `T` gets a wrapper that builds a host array of `T`, and one returning any
/// other type gets a wrapper that hands the result back as it is.
pub proof fn lemma_return_classified(s: SignatureView)
    requires
        params_error(s.params) is None,
        s.output is Some,
    ensures
        type_kind(s.output->0) == TypeKind::Sequence && element_of(s.output->0) is Some
            ==> rewrite_of(s) is Ok && rewrite_of(s)->Ok_0.ret == (WrapperReturnView::HostArray {
            elem: element_of(s.output->0)->0,
        }),
        type_kind(s.output->0) == TypeKind::Sequence && element_of(s.output->0) is None
            ==> rewrite_of(s) == Err::<WrapperPlanView, RewriteError>(
            RewriteError::MalformedSequenceType,
        ),
        type_kind(s.output->0) != TypeKind::Sequence ==> rewrite_of(s) is Ok && rewrite_of(
            s,
        )->Ok_0.ret == WrapperReturnView::PassThrough,
{
}

proof fn lemma_first_failure_is_first(succeeds: Seq<bool>, n: nat)
    requires
        n <= succeeds.len(),
    ensures
        match first_failure(succeeds, n) {
            Some(k) => k < n && !succeeds[k as int] && forall|j: int| 0 <= j < k ==> succeeds[j],
            None => forall|j: int| 0 <= j < n ==> succeeds[j],
        },
    decreases n,
{
    if n > 0 {
        lemma_first_failure_is_first(succeeds, (n - 1) as nat);
    }
}

/// The initialization function of an assembled module attempts the listed
/// functions' wrappers in list order, every attempt before the last one
/// having succeeded, and stops at the first failure, which is then its
/// result.
pub proof fn lemma_registration_order(toks: Seq<ModuleTokenView>, succeeds: Seq<bool>)
    requires
        parse_of(toks) is Ok,
        succeeds.len() == parse_of(toks)->Ok_0.functions.len(),
    ensures
        0 <= attempt_count(succeeds) <= succeeds.len(),
        forall|k: int|
            0 <= k < attempt_count(succeeds) ==> #[trigger] create_module_of(
                toks,
            )->Ok_0.registrations[k] == wrapper_name_of(parse_of(toks)->Ok_0.functions[k]),
        forall|k: int| 0 <= k < attempt_count(succeeds) - 1 ==> #[trigger] succeeds[k],
        first_failure(succeeds, succeeds.len()) is Some ==> !succeeds[attempt_count(succeeds)
            - 1],
        first_failure(succeeds, succeeds.len()) is None ==> forall|k: int|
            0 <= k < succeeds.len() ==> #[trigger] succeeds[k],
{
    lemma_first_failure_is_first(succeeds, succeeds.len());
}

} // verus!
