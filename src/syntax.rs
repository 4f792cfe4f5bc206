//! A plain model of the parts of a function signature that binding
//! generation reads.

use vstd::prelude::*;

verus! {

/// A generic argument of a path type.
pub enum TypeArg {
    /// A path type, by the identifier of its last segment.
    Named(String),
    /// A lifetime, a constant, or a type that is not a path.
    Other,
}

pub enum TypeArgView {
    Named(Seq<char>),
    Other,
}

impl View for TypeArg {
    type V = TypeArgView;

    open spec fn view(&self) -> TypeArgView {
        match self {
            TypeArg::Named(n) => TypeArgView::Named(n@),
            TypeArg::Other => TypeArgView::Other,
        }
    }
}

/// A declared type.
pub enum TypeSyntax {
    /// A path type: the identifier of its last segment and the generic
    /// arguments written in angle brackets after it (none when there are
    /// no angle brackets).
    Path { ident: String, args: Vec<TypeArg> },
    /// Any type that is not a path (a reference, a tuple, a slice, ...).
    Other,
}

pub enum TypeView {
    Path { ident: Seq<char>, args: Seq<TypeArgView> },
    Other,
}

impl View for TypeSyntax {
    type V = TypeView;

    open spec fn view(&self) -> TypeView {
        match self {
            TypeSyntax::Path { ident, args } => TypeView::Path {
                ident: ident@,
                args: args@.map_values(|a: TypeArg| a@),
            },
            TypeSyntax::Other => TypeView::Other,
        }
    }
}

/// A parameter of a function.
pub enum Param {
    /// `self` in one of its forms.
    Receiver,
    /// A typed parameter; `name` is its identifier when the pattern is a
    /// plain identifier.
    Typed { name: Option<String>, ty: TypeSyntax },
}

pub enum ParamView {
    Receiver,
    Typed { name: Option<Seq<char>>, ty: TypeView },
}

pub open spec fn opt_string_view(o: Option<String>) -> Option<Seq<char>> {
    match o {
        Some(s) => Some(s@),
        None => None,
    }
}

impl View for Param {
    type V = ParamView;

    open spec fn view(&self) -> ParamView {
        match self {
            Param::Receiver => ParamView::Receiver,
            Param::Typed { name, ty } => ParamView::Typed { name: opt_string_view(*name), ty: ty@ },
        }
    }
}

/// The signature of a function: its name, its parameters in declaration
/// order, and its return type (`None` when it declares none).
pub struct FnSignature {
    pub name: String,
    pub params: Vec<Param>,
    pub output: Option<TypeSyntax>,
}

pub struct SignatureView {
    pub name: Seq<char>,
    pub params: Seq<ParamView>,
    pub output: Option<TypeView>,
}

impl View for FnSignature {
    type V = SignatureView;

    open spec fn view(&self) -> SignatureView {
        SignatureView {
            name: self.name@,
            params: self.params@.map_values(|p: Param| p@),
            output: match self.output {
                Some(t) => Some(t@),
                None => None,
            },
        }
    }
}

} // verus!
