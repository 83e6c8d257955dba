use wolfram_library_link::{
    get_args_list, BorrowedImage, BorrowedNumericArray, CString, DataStore, Expr, ExprsToExpr, ExprsToNull, FromArg, Image, IntoArg, MArgument,
    NativeFunction, NumericArray, NumericArrayDataType, RawArguments, ReturnedString, Symbol,
    WstpFunction,
};

fn text(e: &Expr) -> String {
    e.to_string()
}

fn cstring(bytes: &[u8]) -> CString {
    match CString::new(bytes.to_vec()) {
        Ok(s) => s,
        Err(_) => panic!("bytes hold a NUL"),
    }
}

#[test]
fn parameter_type_boolean_is_string() {
    assert_eq!(&text(&<bool as FromArg>::parameter_type()), "\"Boolean\"");
}

#[test]
fn parameter_type_integer_is_symbol() {
    assert_eq!(&text(&<i64 as FromArg>::parameter_type()), "System`Integer");
}

#[test]
fn parameter_type_typed_numeric_array() {
    assert_eq!(
        &text(&<NumericArray<i8> as FromArg>::parameter_type()),
        r#"System`List[System`LibraryDataType[System`NumericArray, "Integer8"], "Shared"]"#
    );
    assert_eq!(
        &text(&<NumericArray<u64> as FromArg>::parameter_type()),
        r#"System`List[System`LibraryDataType[System`NumericArray, "UnsignedInteger64"], "Shared"]"#
    );
}

#[test]
fn parameter_type_untyped_numeric_arrays() {
    assert_eq!(
        &text(&<&NumericArray<()> as FromArg>::parameter_type()),
        r#"System`List[System`NumericArray, "Constant"]"#
    );
    assert_eq!(
        &text(&<NumericArray<()> as FromArg>::parameter_type()),
        r#"System`List[System`NumericArray, "Shared"]"#
    );
}

#[test]
fn parameter_type_images() {
    assert_eq!(
        &text(&<Image<u8> as FromArg>::parameter_type()),
        r#"System`List[System`LibraryDataType[System`Alternatives[System`Image, System`Image3D], "Byte"], "Shared"]"#
    );
    assert_eq!(
        &text(&<&Image<()> as FromArg>::parameter_type()),
        r#"System`List[System`Alternatives[System`Image, System`Image3D], "Constant"]"#
    );
    assert_eq!(
        &text(&<Image<()> as FromArg>::parameter_type()),
        r#"System`List[System`Alternatives[System`Image, System`Image3D], "Shared"]"#
    );
}

#[test]
fn parameter_types_of_strings_and_data_stores() {
    assert_eq!(&text(&<String as FromArg>::parameter_type()), "System`String");
    assert_eq!(&text(&<CString as FromArg>::parameter_type()), "System`String");
    assert_eq!(&text(&<DataStore as FromArg>::parameter_type()), "\"DataStore\"");
}

#[test]
fn return_types() {
    assert_eq!(&text(&<() as IntoArg>::return_type()), "\"Void\"");
    assert_eq!(&text(&<bool as IntoArg>::return_type()), "\"Boolean\"");
    assert_eq!(&text(&<i64 as IntoArg>::return_type()), "System`Integer");
    assert_eq!(&text(&<u16 as IntoArg>::return_type()), "System`Integer");
    assert_eq!(&text(&<String as IntoArg>::return_type()), "System`String");
    assert_eq!(
        &text(&<NumericArray<i32> as IntoArg>::return_type()),
        r#"System`LibraryDataType[System`NumericArray, "Integer32"]"#
    );
    assert_eq!(&text(&<NumericArray<()> as IntoArg>::return_type()), "System`NumericArray");
    assert_eq!(
        &text(&<Image<bool> as IntoArg>::return_type()),
        r#"System`LibraryDataType[System`Alternatives[System`Image, System`Image3D], "Bit"]"#
    );
    assert_eq!(&text(&<DataStore as IntoArg>::return_type()), "\"DataStore\"");
}

#[test]
fn data_type_names() {
    assert_eq!(NumericArrayDataType::Bit16.name(), "Integer16");
    assert_eq!(NumericArrayDataType::UBit8.name(), "UnsignedInteger8");
    assert_eq!(NumericArrayDataType::ComplexReal64.name(), "ComplexReal64");
}

#[test]
fn boolean_round_trip() {
    for v in [true, false] {
        let mut slot = MArgument::Empty;
        v.into_arg(&mut slot);
        match slot {
            MArgument::Boolean(b) => assert_eq!(b, if v { 1 } else { 0 }),
            _ => panic!("not a boolean slot"),
        }
        assert_eq!(<bool as FromArg>::from_arg(&slot), v);
    }
}

#[test]
fn any_nonzero_mbool_is_true() {
    assert!(<bool as FromArg>::from_arg(&MArgument::Boolean(7)));
    assert!(<bool as FromArg>::from_arg(&MArgument::Boolean(-1)));
    assert!(!<bool as FromArg>::from_arg(&MArgument::Boolean(0)));
}

#[test]
fn integers_round_trip() {
    let mut slot = MArgument::Empty;
    (-5i64).into_arg(&mut slot);
    assert_eq!(<i64 as FromArg>::from_arg(&slot), -5);
    i8::MIN.into_arg(&mut slot);
    assert_eq!(<i64 as FromArg>::from_arg(&slot), -128);
    u32::MAX.into_arg(&mut slot);
    assert_eq!(<i64 as FromArg>::from_arg(&slot), 4294967295);
    i16::MAX.into_arg(&mut slot);
    assert_eq!(<i64 as FromArg>::from_arg(&slot), 32767);
}

#[test]
fn unit_leaves_the_slot_unchanged() {
    let mut slot = MArgument::Integer(3);
    ().into_arg(&mut slot);
    assert_eq!(<i64 as FromArg>::from_arg(&slot), 3);
}

#[test]
fn strings_round_trip() {
    let mut slot = MArgument::Empty;
    String::from("héllo, wörld").into_arg(&mut slot);
    match &slot {
        MArgument::Utf8String(s) => assert_eq!(s.as_bytes(), "héllo, wörld".as_bytes()),
        _ => panic!("not a string slot"),
    }
    assert_eq!(<String as FromArg>::from_arg(&slot), "héllo, wörld");
    assert_eq!(<&str as FromArg>::from_arg(&slot), "héllo, wörld");
    let copy = <CString as FromArg>::from_arg(&slot);
    assert_eq!(copy.as_bytes(), "héllo, wörld".as_bytes());
    let borrowed = <&CString as FromArg>::from_arg(&slot);
    assert_eq!(borrowed.as_bytes(), "héllo, wörld".as_bytes());
}

#[test]
fn cstring_reads_any_bytes() {
    let slot = MArgument::Utf8String(cstring(&[0x61, 0xff, 0x62]));
    let copy = <CString as FromArg>::from_arg(&slot);
    assert_eq!(copy.as_bytes(), &[0x61, 0xff, 0x62]);
}

#[test]
fn cstring_new_rejects_nul() {
    match CString::new(vec![1, 2, 0, 3, 0]) {
        Ok(_) => panic!("accepted a NUL byte"),
        Err(e) => {
            assert_eq!(e.nul_position(), 2);
            assert_eq!(e.into_vec(), vec![1, 2, 0, 3, 0]);
        }
    }
    assert!(CString::new(vec![1, 2, 3]).is_ok());
    assert!(CString::new(Vec::new()).is_ok());
}

#[test]
fn handles_round_trip() {
    let mut slot = MArgument::Empty;
    NumericArray::<i32>::from_raw(0x1000).into_arg(&mut slot);
    assert_eq!(<NumericArray<i32> as FromArg>::from_arg(&slot).into_raw(), 0x1000);
    assert_eq!(<&NumericArray<()> as FromArg>::from_arg(&slot).as_raw(), 0x1000);
    Image::<u16>::from_raw(0x2000).into_arg(&mut slot);
    assert_eq!(<Image<()> as FromArg>::from_arg(&slot).into_raw(), 0x2000);
    assert_eq!(<&Image<()> as FromArg>::from_arg(&slot).as_raw(), 0x2000);
    DataStore::from_raw(0x3000).into_arg(&mut slot);
    assert_eq!(<DataStore as FromArg>::from_arg(&slot).into_raw(), 0x3000);
    assert_eq!(<&DataStore as FromArg>::from_arg(&slot).as_raw(), 0x3000);
}

#[test]
fn native_function_adds_its_arguments() {
    let add = |x: i64, y: i64| -> i64 { x + y };
    let args = vec![MArgument::Integer(2), MArgument::Integer(40)];
    let mut ret = MArgument::Empty;
    assert!(NativeFunction::<(i64, i64)>::takes(&add, 2));
    assert!(!NativeFunction::<(i64, i64)>::takes(&add, 3));
    NativeFunction::<(i64, i64)>::call(&add, &args, &mut ret);
    assert_eq!(<i64 as FromArg>::from_arg(&ret), 42);
}

#[test]
fn native_function_signature() {
    let f = |_: bool, _: String, _: NumericArray<u8>| -> i32 { 0 };
    match NativeFunction::<(bool, String, NumericArray<u8>)>::signature(&f) {
        Ok((params, ret)) => {
            let texts: Vec<String> = params.iter().map(|p| p.to_string()).collect();
            assert_eq!(
                texts,
                vec![
                    "\"Boolean\"".to_string(),
                    "System`String".to_string(),
                    r#"System`List[System`LibraryDataType[System`NumericArray, "UnsignedInteger8"], "Shared"]"#
                        .to_string(),
                ]
            );
            assert_eq!(ret.to_string(), "System`Integer");
        }
        Err(_) => panic!("no signature"),
    }
}

#[test]
fn native_function_without_arguments() {
    let f = || -> String { String::from("done") };
    let args: Vec<MArgument> = Vec::new();
    let mut ret = MArgument::Empty;
    assert!(NativeFunction::<()>::takes(&f, 0));
    assert!(!NativeFunction::<()>::takes(&f, 1));
    NativeFunction::<()>::call(&f, &args, &mut ret);
    assert_eq!(<String as FromArg>::from_arg(&ret), "done");
    match NativeFunction::<()>::signature(&f) {
        Ok((params, ret)) => {
            assert!(params.is_empty());
            assert_eq!(ret.to_string(), "System`String");
        }
        Err(_) => panic!("no signature"),
    }
}

#[test]
fn native_function_of_twelve_arguments() {
    let f = |a: i64, b: i64, c: i64, d: i64, e: i64, f: i64, g: i64, h: i64, i: i64, j: i64, k: i64, l: i64| -> i64 {
        a + b + c + d + e + f + g + h + i + j + k + l
    };
    let args: Vec<MArgument> = (1..=12).map(MArgument::Integer).collect();
    let mut ret = MArgument::Empty;
    NativeFunction::<(i64, i64, i64, i64, i64, i64, i64, i64, i64, i64, i64, i64)>::call(&f, &args, &mut ret);
    assert_eq!(<i64 as FromArg>::from_arg(&ret), 78);
}

#[test]
fn raw_native_function_has_no_signature() {
    let raw = |args: &[MArgument], _ret: MArgument| -> MArgument {
        let x = <i64 as FromArg>::from_arg(&args[0]);
        MArgument::Integer(x * 2)
    };
    assert!(NativeFunction::<RawArguments>::takes(&raw, 5));
    match NativeFunction::<RawArguments>::signature(&raw) {
        Ok(_) => panic!("raw functions have no signature"),
        Err(message) => assert_eq!(
            message,
            "fn(&[MArgument], MArgument) function cannot be loaded automatically: parameter and return types are unknown."
        ),
    }
    let args = vec![MArgument::Integer(21)];
    let mut ret = MArgument::Empty;
    NativeFunction::<RawArguments>::call(&raw, &args, &mut ret);
    assert_eq!(<i64 as FromArg>::from_arg(&ret), 42);
}

fn list_of(items: Vec<Expr>) -> Expr {
    Expr::normal(Expr::symbol(Symbol::new("System`List")), items)
}

#[test]
fn args_list_of_a_list() {
    let read = Ok(list_of(vec![Expr::integer(1), Expr::string("two")]));
    match get_args_list(read) {
        Ok(args) => {
            assert_eq!(args.len(), 2);
            assert_eq!(args[0].to_string(), "1");
            assert_eq!(args[1].to_string(), "\"two\"");
        }
        Err(m) => panic!("{}", m),
    }
}

#[test]
fn args_list_rejects_other_expressions() {
    let other_head = Expr::normal(Expr::symbol(Symbol::new("System`Plus")), vec![Expr::integer(1)]);
    for read in [Ok(other_head), Ok(Expr::integer(3)), Ok(Expr::symbol(Symbol::new("System`List")))] {
        match get_args_list(read) {
            Ok(_) => panic!("accepted a non-list"),
            Err(m) => assert_eq!(m, "expected List expression"),
        }
    }
}

#[test]
fn args_list_reports_link_errors() {
    match get_args_list(Err(String::from("link closed"))) {
        Ok(_) => panic!("no error"),
        Err(m) => assert_eq!(m, "WSTP error reading argument List expression: link closed"),
    }
}

#[test]
fn wstp_functions() {
    let count = |args: Vec<Expr>| -> Expr { Expr::integer(args.len() as i64) };
    let reply = WstpFunction::<ExprsToExpr>::call(&count, vec![Expr::integer(1), Expr::integer(2)]);
    assert_eq!(reply.to_string(), "2");
    let ignore = |_args: Vec<Expr>| {};
    let reply = WstpFunction::<ExprsToNull>::call(&ignore, vec![]);
    assert_eq!(reply.to_string(), "System`Null");
}

#[test]
fn rendering_of_expressions() {
    assert_eq!(Expr::integer(-9223372036854775808).to_string(), "-9223372036854775808");
    assert_eq!(Expr::integer(0).to_string(), "0");
    assert_eq!(Expr::integer(1234567).to_string(), "1234567");
    assert_eq!(list_of(vec![]).to_string(), "System`List[]");
    let nested = list_of(vec![list_of(vec![Expr::integer(1)]), Expr::string("a b")]);
    assert_eq!(nested.to_string(), "System`List[System`List[1], \"a b\"]");
}

#[test]
fn has_head_compares_symbol_names() {
    let e = list_of(vec![]);
    assert!(e.has_head(&Symbol::new("System`List")));
    assert!(!e.has_head(&Symbol::new("Global`List")));
    assert!(!Expr::string("System`List").has_head(&Symbol::new("System`List")));
}

#[test]
fn returned_string_keeps_only_the_latest() {
    let mut keeper: ReturnedString<String> = ReturnedString::new();
    assert!(keeper.stored().is_none());
    assert_eq!(keeper.keep(String::from("first")), None);
    assert_eq!(keeper.keep(String::from("second")), Some(String::from("first")));
    assert_eq!(keeper.stored().map(|s| s.as_str()), Some("second"));
}

#[test]
fn parameter_type_borrowed_typed_numeric_array() {
    assert_eq!(
        &text(&<BorrowedNumericArray<i8> as FromArg>::parameter_type()),
        r#"System`List[System`LibraryDataType[System`NumericArray, "Integer8"], "Constant"]"#
    );
}

#[test]
fn parameter_type_borrowed_typed_image() {
    assert_eq!(
        &text(&<BorrowedImage<u16> as FromArg>::parameter_type()),
        r#"System`List[System`LibraryDataType[System`Alternatives[System`Image, System`Image3D], "Bit16"], "Constant"]"#
    );
}

#[test]
fn raw_native_function_sees_the_prior_result_slot() {
    let keep = |_args: &[MArgument], ret: MArgument| -> MArgument { ret };
    let args: Vec<MArgument> = Vec::new();
    let mut ret = MArgument::Integer(7);
    NativeFunction::<RawArguments>::call(&keep, &args, &mut ret);
    assert_eq!(<i64 as FromArg>::from_arg(&ret), 7);
}

#[test]
fn borrowed_typed_arrays_and_images_read_their_handles() {
    let slot = MArgument::NumericArray(NumericArray::from_raw(0x4000));
    assert_eq!(<BorrowedNumericArray<i8> as FromArg>::from_arg(&slot).as_raw(), 0x4000);
    let slot = MArgument::Image(Image::from_raw(0x5000));
    assert_eq!(<BorrowedImage<u8> as FromArg>::from_arg(&slot).as_raw(), 0x5000);
}

#[test]
fn image_parameter_type_is_return_type_with_mode() {
    let ret = text(&<Image<u8> as IntoArg>::return_type());
    assert_eq!(text(&<Image<u8> as FromArg>::parameter_type()), format!("System`List[{}, \"Shared\"]", ret));
    assert_eq!(text(&<BorrowedImage<u8> as FromArg>::parameter_type()), format!("System`List[{}, \"Constant\"]", ret));
    let ret = text(&<NumericArray<u16> as IntoArg>::return_type());
    assert_eq!(text(&<NumericArray<u16> as FromArg>::parameter_type()), format!("System`List[{}, \"Shared\"]", ret));
}

#[test]
fn readability_of_slots() {
    let text_slot = MArgument::Utf8String(cstring(b"abc"));
    let bad_slot = MArgument::Utf8String(cstring(&[0xff]));
    assert!(<String as FromArg>::is_readable(&text_slot));
    assert!(!<String as FromArg>::is_readable(&bad_slot));
    assert!(<CString as FromArg>::is_readable(&bad_slot));
    assert!(!<bool as FromArg>::is_readable(&text_slot));
    assert!(<i64 as FromArg>::is_readable(&MArgument::Integer(1)));
    assert!(!<DataStore as FromArg>::is_readable(&MArgument::Empty));
}

#[test]
fn native_function_reads_its_arguments() {
    let f = |_: i64, _: String| -> bool { true };
    let good = vec![MArgument::Integer(1), MArgument::Utf8String(cstring(b"x"))];
    let bad = vec![MArgument::Integer(1), MArgument::Utf8String(cstring(&[0xc3]))];
    let short = vec![MArgument::Integer(1)];
    assert!(NativeFunction::<(i64, String)>::reads(&f, &good));
    assert!(!NativeFunction::<(i64, String)>::reads(&f, &bad));
    assert!(!NativeFunction::<(i64, String)>::reads(&f, &short));
}

#[test]
fn strings_with_nul_cannot_be_returned() {
    assert!(String::from("plain").is_returnable());
    assert!(!String::from("a\0b").is_returnable());
    assert!(7i64.is_returnable());
}
