//! Signature analysis on concrete argument lists, discriminant extraction,
//! and a minimal backend driven through the backend contract.

use bindgen_core::ast::{
    Abi, ArgCaptured, Attribute, BareFnArg, Expr, ExprLit, FnArg, ItemConst, ItemEnum, ItemFn,
    ItemStruct, ItemType, Lit, Meta, Pat, PatIdent, TypeRef, Variant,
};
use bindgen_core::common::{
    append_output, classify_args, extract_enum_variant_value, extract_int_literal, is_array_arg,
    is_array_arg_barefn, is_ptr_len_arg, is_result_arg, is_result_arg_barefn, is_user_data_arg,
    is_user_data_arg_barefn, take_out_ident_from_type, take_out_pat, transform_fnarg_to_argcap,
    transform_fnarg_to_argcap_option, ArgumentRole, Lang, Outputs,
};
use bindgen_core::text::{str_ends_with, str_eq};
use bindgen_core::Error;

fn path_ty(name: &str) -> TypeRef {
    TypeRef::Path { name: name.to_string() }
}

fn const_ptr(name: &str) -> TypeRef {
    TypeRef::Ptr { mutable: false, elem: Box::new(path_ty(name)) }
}

fn mut_ptr(name: &str) -> TypeRef {
    TypeRef::Ptr { mutable: true, elem: Box::new(path_ty(name)) }
}

fn arg(name: &str, ty: TypeRef) -> ArgCaptured {
    ArgCaptured { pat: Pat::Ident(PatIdent { ident: name.to_string() }), ty }
}

#[test]
fn user_data_arg_by_name_and_type() {
    assert!(is_user_data_arg(&arg("user_data", mut_ptr("c_void"))));
    assert!(!is_user_data_arg(&arg("user_data", const_ptr("c_void"))));
    assert!(!is_user_data_arg(&arg("user_data", mut_ptr("u8"))));
    assert!(!is_user_data_arg(&arg("context", mut_ptr("c_void"))));
    assert!(!is_user_data_arg(&ArgCaptured { pat: Pat::Other, ty: mut_ptr("c_void") }));
}

#[test]
fn user_data_arg_barefn_by_name_and_type() {
    let named = BareFnArg { name: Some("user_data".to_string()), ty: mut_ptr("c_void") };
    assert!(is_user_data_arg_barefn(&named));
    let unnamed = BareFnArg { name: None, ty: mut_ptr("c_void") };
    assert!(!is_user_data_arg_barefn(&unnamed));
    let wrong_ty = BareFnArg { name: Some("user_data".to_string()), ty: path_ty("usize") };
    assert!(!is_user_data_arg_barefn(&wrong_ty));
}

#[test]
fn result_arg_by_name_and_type() {
    assert!(is_result_arg(&arg("result", const_ptr("FfiResult"))));
    assert!(!is_result_arg(&arg("result", mut_ptr("FfiResult"))));
    assert!(!is_result_arg(&arg("result", const_ptr("Result"))));
    assert!(!is_result_arg(&arg("out", const_ptr("FfiResult"))));
}

#[test]
fn result_arg_barefn_by_name_and_type() {
    let named = BareFnArg { name: Some("result".to_string()), ty: const_ptr("FfiResult") };
    assert!(is_result_arg_barefn(&named));
    let unnamed = BareFnArg { name: None, ty: const_ptr("FfiResult") };
    assert!(!is_result_arg_barefn(&unnamed));
}

#[test]
fn length_argument_shapes() {
    assert!(is_ptr_len_arg(&path_ty("usize"), "ptr_len"));
    assert!(is_ptr_len_arg(&path_ty("usize"), "len"));
    assert!(is_ptr_len_arg(&path_ty("usize"), "size"));
    assert!(is_ptr_len_arg(&path_ty("usize"), "data_len"));
    assert!(!is_ptr_len_arg(&path_ty("usize"), "count"));
    assert!(!is_ptr_len_arg(&path_ty("usize"), "lenx"));
    assert!(!is_ptr_len_arg(&path_ty("u64"), "len"));
    assert!(!is_ptr_len_arg(&const_ptr("usize"), "len"));
}

#[test]
fn array_head_needs_a_following_length() {
    let ptr = arg("ptr", const_ptr("u8"));
    let ptr_len = arg("ptr_len", path_ty("usize"));
    assert!(is_array_arg(&ptr, Some(&ptr_len)));
    // the length argument alone, with no successor, is no array head
    assert!(!is_array_arg(&ptr_len, None));
    // and a pointer with no successor is none either
    assert!(!is_array_arg(&ptr, None));
    // order matters: length-then-head is not detected
    assert!(!is_array_arg(&ptr_len, Some(&ptr)));
}

#[test]
fn result_pointer_is_never_an_array_head() {
    let result = arg("result", const_ptr("FfiResult"));
    let len = arg("len", path_ty("usize"));
    assert!(!is_array_arg(&result, Some(&len)));
}

#[test]
fn array_head_barefn() {
    let data = BareFnArg { name: Some("data".to_string()), ty: const_ptr("u8") };
    let data_len = BareFnArg { name: Some("data_len".to_string()), ty: path_ty("usize") };
    assert!(is_array_arg_barefn(&data, Some(&data_len)));
    let unnamed = BareFnArg { name: None, ty: path_ty("usize") };
    assert!(!is_array_arg_barefn(&data, Some(&unnamed)));
    assert!(!is_array_arg_barefn(&data, None));
}

#[test]
fn end_to_end_classification() {
    // extern "C" fn f(data: *const u8, data_len: usize,
    //                 user_data: *mut c_void, result: *const FfiResult)
    let args = vec![
        arg("data", const_ptr("u8")),
        arg("data_len", path_ty("usize")),
        arg("user_data", mut_ptr("c_void")),
        arg("result", const_ptr("FfiResult")),
    ];
    let roles = classify_args(&args);
    assert_eq!(
        roles,
        vec![
            ArgumentRole::ArrayHead(1),
            ArgumentRole::ArrayLength,
            ArgumentRole::UserData,
            ArgumentRole::ResultPointer,
        ]
    );
}

#[test]
fn classification_is_order_dependent() {
    let swapped = vec![arg("data_len", path_ty("usize")), arg("data", const_ptr("u8"))];
    let roles = classify_args(&swapped);
    assert_eq!(roles, vec![ArgumentRole::Plain, ArgumentRole::Plain]);
}

#[test]
fn user_data_wins_over_array_lookahead() {
    let args = vec![arg("user_data", mut_ptr("c_void")), arg("len", path_ty("usize"))];
    let roles = classify_args(&args);
    assert_eq!(roles, vec![ArgumentRole::UserData, ArgumentRole::Plain]);
}

#[test]
fn fnarg_transformations() {
    let captured = FnArg::Captured(arg("x", path_ty("u8")));
    assert!(transform_fnarg_to_argcap(&captured).is_some());
    assert!(transform_fnarg_to_argcap(&FnArg::Other).is_none());
    assert!(transform_fnarg_to_argcap_option(Some(&captured)).is_some());
    assert!(transform_fnarg_to_argcap_option(Some(&FnArg::Other)).is_none());
    assert!(transform_fnarg_to_argcap_option(None).is_none());
}

#[test]
fn pattern_and_type_projections() {
    let pat = Pat::Ident(PatIdent { ident: "x".to_string() });
    assert_eq!(take_out_pat(&pat).map(|p| p.ident.as_str()), Some("x"));
    assert!(take_out_pat(&Pat::Other).is_none());

    let nested = TypeRef::Ptr { mutable: false, elem: Box::new(mut_ptr("Foo")) };
    assert_eq!(take_out_ident_from_type(&nested), Some("Foo".to_string()));
    assert_eq!(take_out_ident_from_type(&path_ty("Bar")), Some("Bar".to_string()));
    assert_eq!(take_out_ident_from_type(&TypeRef::Other), None);
    let opaque_ptr = TypeRef::Ptr { mutable: false, elem: Box::new(TypeRef::Other) };
    assert_eq!(take_out_ident_from_type(&opaque_ptr), None);
}

#[test]
fn int_literal_extraction() {
    assert_eq!(extract_int_literal(&ExprLit { lit: Lit::Int(42) }), Some(42));
    assert_eq!(extract_int_literal(&ExprLit { lit: Lit::Int(-7) }), Some(-7));
    assert_eq!(extract_int_literal(&ExprLit { lit: Lit::Str("42".to_string()) }), None);
    assert_eq!(extract_int_literal(&ExprLit { lit: Lit::Other }), None);
}

#[test]
fn enum_discriminant_extraction() {
    let a = Variant {
        ident: "A".to_string(),
        discriminant: Some(Expr::Lit(ExprLit { lit: Lit::Int(5) })),
    };
    assert_eq!(extract_enum_variant_value(&a), Some(5));
    let b = Variant { ident: "B".to_string(), discriminant: None };
    assert_eq!(extract_enum_variant_value(&b), None);
    // a discriminant present but not a literal (e.g. `C = SOME_CONST`)
    let c = Variant { ident: "C".to_string(), discriminant: Some(Expr::Other) };
    assert_eq!(extract_enum_variant_value(&c), None);
}

#[test]
fn string_helpers() {
    assert!(str_eq("user_data", "user_data"));
    assert!(!str_eq("user_data", "user_dat"));
    assert!(!str_eq("", "a"));
    assert!(str_eq("", ""));
    assert!(str_ends_with("data_len", "_len"));
    assert!(str_ends_with("x", ""));
    assert!(!str_ends_with("len", "_len"));
    assert!(!str_ends_with("", "_len"));
}

struct RecordingBackend {
    finalised: bool,
}

impl Lang for RecordingBackend {
    fn parse_const(
        &mut self,
        item: &ItemConst,
        _module: &[String],
        outputs: &mut Outputs,
    ) -> Result<(), Error> {
        append_output(format!("const {};", item.ident), "out", outputs);
        Ok(())
    }

    fn parse_ty(
        &mut self,
        item: &ItemType,
        _module: &[String],
        outputs: &mut Outputs,
    ) -> Result<(), Error> {
        append_output(format!("type {};", item.ident), "out", outputs);
        Ok(())
    }

    fn parse_enum(
        &mut self,
        item: &ItemEnum,
        _module: &[String],
        outputs: &mut Outputs,
    ) -> Result<(), Error> {
        append_output(format!("enum {};", item.ident), "out", outputs);
        Ok(())
    }

    fn parse_struct(
        &mut self,
        item: &ItemStruct,
        _module: &[String],
        outputs: &mut Outputs,
    ) -> Result<(), Error> {
        append_output(format!("struct {};", item.ident), "out", outputs);
        Ok(())
    }

    fn parse_fn(
        &mut self,
        item: &ItemFn,
        _module: &[String],
        outputs: &mut Outputs,
    ) -> Result<(), Error> {
        append_output(format!("fn {};", item.ident), "out", outputs);
        Ok(())
    }

    fn finalise_output(&mut self, outputs: &mut Outputs) -> Result<(), Error> {
        self.finalised = true;
        append_output("// end".to_string(), "out", outputs);
        Ok(())
    }
}

#[test]
fn backend_contract_drives_outputs_in_order() {
    let mut backend = RecordingBackend { finalised: false };
    let mut outputs = Outputs::new();
    let module = vec!["ffi".to_string()];
    let no_attrs: Vec<Attribute> = vec![];

    let f = ItemFn {
        ident: "f".to_string(),
        attrs: no_attrs,
        abi: Some(Abi { name: Some("C".to_string()) }),
        args: vec![],
    };
    backend.parse_fn(&f, &module, &mut outputs).unwrap();
    let s = ItemStruct { ident: "S".to_string(), attrs: vec![], fields: vec![] };
    backend.parse_struct(&s, &module, &mut outputs).unwrap();
    backend.finalise_output(&mut outputs).unwrap();

    assert!(backend.finalised);
    assert_eq!(outputs.get("out"), Some(&"fn f;struct S;// end".to_string()));
}
