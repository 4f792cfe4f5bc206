//! The one naming rule that links a function to its generated wrapper.

use vstd::prelude::*;

verus! {

/// The text put in front of a function's name to name its wrapper.
pub open spec fn wrapper_prefix() -> Seq<char> {
    seq!['_', '_', 'i', 'n', 't', 'e', 'r', 'n', 'a', 'l', '_']
}

/// The text put after a function's name to name its wrapper.
pub open spec fn wrapper_suffix() -> Seq<char> {
    seq!['_', 'w', 'r', 'a', 'p', 'p', 'e', 'r']
}

/// Whether `name` is written in raw form, `r#` before the identifier.
pub open spec fn is_raw(name: Seq<char>) -> bool {
    name.len() >= 2 && name[0] == 'r' && name[1] == '#'
}

/// A name without its raw marker.
pub open spec fn unraw(name: Seq<char>) -> Seq<char> {
    if is_raw(name) {
        name.skip(2)
    } else {
        name
    }
}

/// The identifier of the wrapper generated for the function named `name`;
/// a raw marker on the name is dropped, since it cannot stand inside an
/// identifier.
pub open spec fn wrapper_name_of(name: Seq<char>) -> Seq<char> {
    wrapper_prefix() + unraw(name) + wrapper_suffix()
}

/// A character that may begin an identifier.
pub open spec fn is_ident_start(c: char) -> bool {
    ('a' <= c && c <= 'z') || ('A' <= c && c <= 'Z') || c == '_'
}

/// A character that may continue an identifier.
pub open spec fn is_ident_continue(c: char) -> bool {
    is_ident_start(c) || ('0' <= c && c <= '9')
}

/// An identifier in its plain form: a letter or underscore, then letters,
/// digits and underscores; a lone underscore is no identifier.
pub open spec fn is_ident(s: Seq<char>) -> bool {
    &&& s.len() > 0
    &&& is_ident_start(s[0])
    &&& forall|i: int| 1 <= i < s.len() ==> #[trigger] is_ident_continue(s[i])
    &&& s != seq!['_']
}

/// An identifier in plain or in raw form (`r#type`).
pub open spec fn is_legal_ident(s: Seq<char>) -> bool {
    is_ident(s) || (is_raw(s) && is_ident(s.skip(2)))
}

/// A plain identifier carries no raw marker.
pub proof fn lemma_plain_ident_unraw(name: Seq<char>)
    requires
        is_ident(name),
    ensures
        unraw(name) == name,
{
    if name.len() >= 2 {
        assert(is_ident_continue(name[1]));
    }
}

/// The wrapper name of an identifier, plain or raw, is a plain identifier.
pub proof fn lemma_wrapper_name_is_ident(name: Seq<char>)
    requires
        is_legal_ident(name),
    ensures
        is_ident(wrapper_name_of(name)),
{
    if is_ident(name) {
        lemma_plain_ident_unraw(name);
    }
    let u = unraw(name);
    assert(is_ident(u));
    let w = wrapper_name_of(name);
    assert(w[0] == '_');
    assert(w.len() > 1);
    assert forall|i: int| 1 <= i < w.len() implies #[trigger] is_ident_continue(w[i]) by {
        if 11 <= i < 11 + u.len() {
            assert(w[i] == u[i - 11]);
            if i - 11 >= 1 {
                assert(is_ident_continue(u[i - 11]));
            }
        }
    }
    assert(w != seq!['_']) by {
        assert(seq!['_'].len() == 1);
    }
}

/// The function's name, without a raw marker, can be read back out of its
/// wrapper name.
pub proof fn lemma_wrapper_name_recovers(name: Seq<char>)
    ensures
        wrapper_name_of(name).len() == unraw(name).len() + 19,
        wrapper_name_of(name).subrange(11, 11 + unraw(name).len() as int) == unraw(name),
{
    assert(wrapper_name_of(name).subrange(11, 11 + unraw(name).len() as int) =~= unraw(name));
}

/// Functions whose names differ once the raw marker is dropped get distinct
/// wrapper names.
pub proof fn lemma_wrapper_name_injective(a: Seq<char>, b: Seq<char>)
    requires
        wrapper_name_of(a) == wrapper_name_of(b),
    ensures
        unraw(a) == unraw(b),
{
    lemma_wrapper_name_recovers(a);
    lemma_wrapper_name_recovers(b);
}

/// Derives the wrapper identifier for a function name, dropping a raw
/// marker.
pub fn into_wrapper_name(func_name: &str) -> (r: String)
    ensures
        r@ == wrapper_name_of(func_name@),
{
    let n = func_name.unicode_len();
    let bare = if n >= 2 && func_name.get_char(0) == 'r' && func_name.get_char(1) == '#' {
        func_name.substring_char(2, n)
    } else {
        func_name
    };
    assert(bare@ =~= unraw(func_name@));
    let mut r = String::from_str("__internal_");
    r.append(bare);
    r.append("_wrapper");
    proof {
        reveal_strlit("__internal_");
        reveal_strlit("_wrapper");
        assert(r@ == wrapper_name_of(func_name@));
    }
    r
}

} // verus!
