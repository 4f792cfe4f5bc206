use pywrap_macros::naming::into_wrapper_name;
use pywrap_macros::rewrite::{
    classify_type_name, extract_array_dtype, process_return_type, pyo3_wrapper, RewriteError,
    TypeKind, WrapperParam, WrapperReturn,
};
use pywrap_macros::syntax::{FnSignature, Param, TypeArg, TypeSyntax};

fn path(ident: &str, args: Vec<TypeArg>) -> TypeSyntax {
    TypeSyntax::Path { ident: ident.to_string(), args }
}

fn named(s: &str) -> TypeArg {
    TypeArg::Named(s.to_string())
}

fn typed(name: &str, ty: TypeSyntax) -> Param {
    Param::Typed { name: Some(name.to_string()), ty }
}

fn add_one_sig() -> FnSignature {
    FnSignature {
        name: "add_one".to_string(),
        params: vec![typed("x", path("ArrayViewD", vec![named("i64")]))],
        output: Some(path("Vec", vec![named("i64")])),
    }
}

#[test]
fn add_one_wrapper() {
    let plan = pyo3_wrapper(&add_one_sig()).unwrap();
    assert_eq!(plan.host_name, "add_one");
    assert_eq!(plan.wrapper_name, "__internal_add_one_wrapper");
    assert_eq!(plan.params.len(), 1);
    match &plan.params[0] {
        WrapperParam::Array { name, elem } => {
            assert_eq!(name, "x");
            assert_eq!(elem, "i64");
        }
        WrapperParam::Forward { .. } => panic!("array parameter forwarded"),
    }
    assert_eq!(plan.conversions, vec!["x".to_string()]);
    match &plan.ret {
        WrapperReturn::HostArray { elem } => assert_eq!(elem, "i64"),
        WrapperReturn::PassThrough => panic!("sequence result passed through"),
    }
}

#[test]
fn expansion_is_deterministic() {
    let a = pyo3_wrapper(&add_one_sig()).unwrap();
    let b = pyo3_wrapper(&add_one_sig()).unwrap();
    assert_eq!(format!("{:?}", a), format!("{:?}", b));
}

#[test]
fn mixed_params_convert_only_arrays() {
    let sig = FnSignature {
        name: "scale".to_string(),
        params: vec![
            typed("a", path("ArrayViewD", vec![named("f64")])),
            typed("factor", path("f64", vec![])),
            typed("b", path("ArrayViewD", vec![TypeArg::Other, named("u8")])),
            typed("data", path("Vec", vec![named("i32")])),
            Param::Typed { name: None, ty: TypeSyntax::Other },
        ],
        output: Some(path("f64", vec![])),
    };
    let plan = pyo3_wrapper(&sig).unwrap();
    assert_eq!(plan.conversions, vec!["a".to_string(), "b".to_string()]);
    assert_eq!(plan.params.len(), 5);
    assert!(matches!(&plan.params[0], WrapperParam::Array { name, elem } if name == "a" && elem == "f64"));
    assert!(matches!(&plan.params[1], WrapperParam::Forward { index: 1 }));
    assert!(matches!(&plan.params[2], WrapperParam::Array { name, elem } if name == "b" && elem == "u8"));
    assert!(matches!(&plan.params[3], WrapperParam::Forward { index: 3 }));
    assert!(matches!(&plan.params[4], WrapperParam::Forward { index: 4 }));
    assert!(matches!(plan.ret, WrapperReturn::PassThrough));
}

#[test]
fn no_params_no_conversions() {
    let sig = FnSignature {
        name: "zeros".to_string(),
        params: vec![],
        output: Some(path("Vec", vec![named("u32")])),
    };
    let plan = pyo3_wrapper(&sig).unwrap();
    assert!(plan.params.is_empty());
    assert!(plan.conversions.is_empty());
    assert!(matches!(&plan.ret, WrapperReturn::HostArray { elem } if elem == "u32"));
}

#[test]
fn missing_return_type_is_an_error() {
    let mut sig = add_one_sig();
    sig.output = None;
    assert_eq!(pyo3_wrapper(&sig).err(), Some(RewriteError::MissingReturnType));
}

#[test]
fn sequence_without_element_is_an_error() {
    let mut sig = add_one_sig();
    sig.output = Some(path("Vec", vec![TypeArg::Other]));
    assert_eq!(pyo3_wrapper(&sig).err(), Some(RewriteError::MalformedSequenceType));
}

#[test]
fn array_without_element_is_an_error() {
    let sig = FnSignature {
        name: "f".to_string(),
        params: vec![
            typed("n", path("usize", vec![])),
            typed("x", path("ArrayViewD", vec![])),
            Param::Receiver,
        ],
        output: None,
    };
    assert_eq!(pyo3_wrapper(&sig).err(), Some(RewriteError::MalformedArrayType { index: 1 }));
}

#[test]
fn unnamed_array_is_an_error() {
    let sig = FnSignature {
        name: "f".to_string(),
        params: vec![Param::Typed { name: None, ty: path("ArrayViewD", vec![named("i64")]) }],
        output: Some(path("i64", vec![])),
    };
    assert_eq!(pyo3_wrapper(&sig).err(), Some(RewriteError::UnnamedArrayParam { index: 0 }));
}

#[test]
fn receiver_is_an_error() {
    let sig = FnSignature {
        name: "f".to_string(),
        params: vec![Param::Receiver],
        output: Some(path("i64", vec![])),
    };
    assert_eq!(pyo3_wrapper(&sig).err(), Some(RewriteError::ReceiverParam { index: 0 }));
}

#[test]
fn type_names_are_classified_by_spelling() {
    assert_eq!(classify_type_name(&"ArrayViewD".to_string()), TypeKind::ArrayRef);
    assert_eq!(classify_type_name(&"Vec".to_string()), TypeKind::Sequence);
    assert_eq!(classify_type_name(&"ArrayView".to_string()), TypeKind::OtherArray);
    assert_eq!(classify_type_name(&"Matrix".to_string()), TypeKind::Plain);
    assert_eq!(classify_type_name(&"vec".to_string()), TypeKind::Plain);
}

#[test]
fn element_is_first_named_argument() {
    let ty = path("ArrayViewD", vec![TypeArg::Other, named("i16"), named("u8")]);
    assert_eq!(extract_array_dtype(&ty), Some("i16".to_string()));
    assert_eq!(extract_array_dtype(&path("ArrayViewD", vec![TypeArg::Other])), None);
    assert_eq!(extract_array_dtype(&TypeSyntax::Other), None);
}

#[test]
fn return_types_are_planned() {
    let r = process_return_type(&Some(path("Vec", vec![named("f32")]))).unwrap();
    assert!(matches!(&r, WrapperReturn::HostArray { elem } if elem == "f32"));
    let r = process_return_type(&Some(TypeSyntax::Other)).unwrap();
    assert!(matches!(r, WrapperReturn::PassThrough));
    assert_eq!(process_return_type(&None).err(), Some(RewriteError::MissingReturnType));
}

#[test]
fn wrapper_names_keep_underscores_and_digits() {
    assert_eq!(into_wrapper_name("f"), "__internal_f_wrapper");
    assert_eq!(into_wrapper_name("_mat_mul_2d"), "__internal__mat_mul_2d_wrapper");
    assert_ne!(into_wrapper_name("ab"), into_wrapper_name("a_b"));
}

#[test]
fn raw_names_lose_their_marker_in_wrapper_names() {
    assert_eq!(into_wrapper_name("r#type"), "__internal_type_wrapper");
    assert_eq!(into_wrapper_name("r#type"), into_wrapper_name("type"));
    assert_eq!(into_wrapper_name("r"), "__internal_r_wrapper");
    assert_eq!(into_wrapper_name("r_sum"), "__internal_r_sum_wrapper");
    let mut sig = add_one_sig();
    sig.name = "r#match".to_string();
    let plan = pyo3_wrapper(&sig).unwrap();
    assert_eq!(plan.wrapper_name, "__internal_match_wrapper");
    assert_eq!(plan.host_name, "r#match");
}

#[test]
fn other_array_spellings_are_an_error() {
    assert_eq!(classify_type_name(&"ArrayViewMutD".to_string()), TypeKind::OtherArray);
    assert_eq!(classify_type_name(&"Array2".to_string()), TypeKind::OtherArray);
    assert_eq!(classify_type_name(&"Arra".to_string()), TypeKind::Plain);
    let sig = FnSignature {
        name: "f".to_string(),
        params: vec![
            typed("n", path("usize", vec![])),
            typed("x", path("ArrayView2", vec![named("f64")])),
        ],
        output: Some(path("f64", vec![])),
    };
    assert_eq!(pyo3_wrapper(&sig).err(), Some(RewriteError::UnsupportedArrayType { index: 1 }));
}
