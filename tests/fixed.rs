use fixed_size::{fixed, read_entry, Args, ArgsError, Assignment, Field, FieldType, StructDecl, Token};

fn ident(s: &str) -> Token {
    Token::Ident(s.to_string())
}

fn lit(s: &str) -> Token {
    Token::Literal(s.to_string())
}

fn punct(c: char) -> Token {
    Token::Punct(c)
}

/// `key = value` entries separated by commas; a value starting with a digit or
/// a quote is a literal, any other an identifier.
fn tokens(entries: &[(&str, &str)]) -> Vec<Token> {
    let mut out = Vec::new();
    for (i, (k, v)) in entries.iter().enumerate() {
        if i > 0 {
            out.push(punct(','));
        }
        out.push(ident(k));
        out.push(punct('='));
        let first = v.chars().next().unwrap();
        if first.is_ascii_digit() || first == '"' {
            out.push(lit(v));
        } else {
            out.push(ident(v));
        }
    }
    out
}

fn path(segs: &[&str]) -> FieldType {
    FieldType::Path(segs.iter().map(|s| s.to_string()).collect())
}

fn sized(typ: &str, size: &str) -> FieldType {
    FieldType::Sized { typ: typ.to_string(), size: size.to_string() }
}

fn field(name: &str, ty: FieldType) -> Field<&'static str> {
    Field { name: Some(name.to_string()), ty, source: "pub" }
}

/// `struct Foo { name: String, id: i32, code: String }`
fn sample() -> StructDecl<&'static str> {
    StructDecl {
        name: "Foo".to_string(),
        fields: vec![
            field("name", path(&["String"])),
            field("id", path(&["i32"])),
            field("code", path(&["String"])),
        ],
    }
}

#[test]
fn default_type_replaces_named_string_field() {
    let out = fixed(&tokens(&[("code", "4")]), sample()).unwrap();
    let expected = StructDecl {
        name: "Foo".to_string(),
        fields: vec![
            field("name", path(&["String"])),
            field("id", path(&["i32"])),
            field("code", sized("ArrayString", "4")),
        ],
    };
    assert_eq!(out, expected);
}

#[test]
fn custom_type_replaces_each_named_field() {
    let out = fixed(&tokens(&[("name", "8"), ("code", "4"), ("typ", "MyFixed")]), sample()).unwrap();
    let expected = StructDecl {
        name: "Foo".to_string(),
        fields: vec![
            field("name", sized("MyFixed", "8")),
            field("id", path(&["i32"])),
            field("code", sized("MyFixed", "4")),
        ],
    };
    assert_eq!(out, expected);
}

#[test]
fn non_string_field_is_left_alone() {
    let out = fixed(&tokens(&[("id", "2")]), sample()).unwrap();
    assert_eq!(out, sample());
}

#[test]
fn empty_arguments_leave_struct_unchanged() {
    let out = fixed(&Vec::new(), sample()).unwrap();
    assert_eq!(out, sample());
    let args = Args::parse(&Vec::new()).unwrap();
    assert_eq!(args.typ(), "ArrayString");
    assert_eq!(args.size_of(&"code".to_string()), None);
}

#[test]
fn sizes_for_absent_fields_leave_struct_unchanged() {
    let out = fixed(&tokens(&[("other", "3"), ("missing", "9")]), sample()).unwrap();
    assert_eq!(out, sample());
}

#[test]
fn qualified_string_path_is_replaced() {
    let decl = StructDecl {
        name: "Bar".to_string(),
        fields: vec![field("s", path(&["std", "string", "String"])), field("t", path(&["Vec"]))],
    };
    let out = fixed(&tokens(&[("s", "16"), ("t", "2")]), decl).unwrap();
    assert_eq!(out.fields[0], field("s", sized("ArrayString", "16")));
    assert_eq!(out.fields[1], field("t", path(&["Vec"])));
}

#[test]
fn other_types_and_unnamed_fields_are_left_alone() {
    let decl = StructDecl {
        name: "Baz".to_string(),
        fields: vec![
            Field { name: None, ty: path(&["String"]), source: "" },
            field("r", FieldType::Other),
            field("p", path(&["String", "Other"])),
        ],
    };
    let out = fixed(&tokens(&[("r", "1"), ("p", "1")]), decl).unwrap();
    assert_eq!(out.fields[0], Field { name: None, ty: path(&["String"]), source: "" });
    assert_eq!(out.fields[1], field("r", FieldType::Other));
    assert_eq!(out.fields[2], field("p", path(&["String", "Other"])));
}

#[test]
fn replaced_field_keeps_its_source() {
    let args = Args::parse(&tokens(&[("a", "5")])).unwrap();
    let f = Field { name: Some("a".to_string()), ty: path(&["String"]), source: "#[serde(default)] pub" };
    let out = args.fold_field(f);
    assert_eq!(out.source, "#[serde(default)] pub");
    assert_eq!(out.name, Some("a".to_string()));
    assert_eq!(out.ty, sized("ArrayString", "5"));
}

#[test]
fn size_literal_is_kept_as_written() {
    let out = fixed(&tokens(&[("code", "0x10usize")]), sample()).unwrap();
    assert_eq!(out.fields[2].ty, sized("ArrayString", "0x10usize"));
}

#[test]
fn later_assignment_overrides_earlier() {
    let args = Args::parse(&tokens(&[("code", "4"), ("typ", "A"), ("code", "6"), ("typ", "B")])).unwrap();
    assert_eq!(args.size_of(&"code".to_string()).map(|s| s.as_str()), Some("6"));
    assert_eq!(args.typ(), "B");
}

#[test]
fn trailing_comma_is_accepted() {
    let mut t = tokens(&[("code", "4")]);
    t.push(punct(','));
    let out = fixed(&t, sample()).unwrap();
    assert_eq!(out.fields[2].ty, sized("ArrayString", "4"));
}

#[test]
fn typ_may_be_a_field_name_with_a_size() {
    let args = Args::parse(&tokens(&[("typ", "3")])).unwrap();
    assert_eq!(args.size_of(&"typ".to_string()).map(|s| s.as_str()), Some("3"));
    assert_eq!(args.typ(), "ArrayString");
}

#[test]
fn string_literal_size_is_malformed() {
    let t = tokens(&[("x", "\"abc\"")]);
    assert_eq!(Args::parse(&t).unwrap_err(), ArgsError::MalformedArgument { at: 0 });
    assert_eq!(fixed(&t, sample()), Err(ArgsError::MalformedArgument { at: 0 }));
}

#[test]
fn float_size_is_malformed() {
    let t = tokens(&[("code", "4"), ("x", "1.5")]);
    assert_eq!(Args::parse(&t).unwrap_err(), ArgsError::MalformedArgument { at: 4 });
}

#[test]
fn literal_left_side_is_malformed() {
    let t = vec![lit("3"), punct('='), ident("foo")];
    assert_eq!(fixed(&t, sample()), Err(ArgsError::MalformedArgument { at: 0 }));
}

#[test]
fn non_typ_identifier_assignment_is_rejected() {
    let t = tokens(&[("code", "4"), ("foo", "Bar")]);
    assert_eq!(fixed(&t, sample()), Err(ArgsError::InvalidTypAssignment { at: 4 }));
}

#[test]
fn boolean_value_is_malformed() {
    let t = tokens(&[("typ", "true")]);
    assert_eq!(Args::parse(&t).unwrap_err(), ArgsError::MalformedArgument { at: 0 });
}

#[test]
fn incomplete_or_extra_tokens_are_malformed() {
    let cases: Vec<(Vec<Token>, usize)> = vec![
        (vec![ident("x")], 0),
        (vec![ident("x"), punct('=')], 0),
        (vec![ident("x"), punct('='), lit("1"), lit("2")], 0),
        (vec![ident("x"), punct('='), punct('='), lit("2")], 0),
        (vec![punct(',')], 0),
        (vec![ident("x"), punct('='), lit("1"), punct(','), punct(',')], 4),
        (vec![ident("x"), punct('='), Token::Group], 0),
        (vec![ident("a"), punct('='), lit("1"), punct(','), ident("b"), punct(':'), lit("2")], 4),
    ];
    for (t, at) in cases {
        assert_eq!(Args::parse(&t).unwrap_err(), ArgsError::MalformedArgument { at });
    }
}

#[test]
fn errors_report_the_accepted_shapes() {
    let e = Args::parse(&tokens(&[("foo", "Bar")])).unwrap_err();
    assert_eq!(e.message(), "Must specify an Ident=Int or typ=Structname");
    assert_eq!(e.at(), 0);
    let e = Args::parse(&tokens(&[("a", "1"), ("b", "\"x\"")])).unwrap_err();
    assert_eq!(e.message(), "Must specify an Ident=Int or typ=Structname");
    assert_eq!(e.at(), 4);
}

#[test]
fn read_entry_follows_the_integer_judgement() {
    assert_eq!(
        read_entry(&ident("code"), &lit("4"), true, 7),
        Ok(Assignment::Size { field: "code".to_string(), size: "4".to_string() })
    );
    assert_eq!(read_entry(&ident("code"), &lit("4"), false, 7), Err(ArgsError::MalformedArgument { at: 7 }));
    assert_eq!(read_entry(&ident("typ"), &ident("MyFixed"), false, 0), Ok(Assignment::Typ("MyFixed".to_string())));
    assert_eq!(read_entry(&ident("kind"), &ident("MyFixed"), false, 3), Err(ArgsError::InvalidTypAssignment { at: 3 }));
    assert_eq!(read_entry(&lit("3"), &ident("foo"), false, 0), Err(ArgsError::MalformedArgument { at: 0 }));
    assert_eq!(read_entry(&ident("true"), &lit("3"), true, 0), Err(ArgsError::MalformedArgument { at: 0 }));
    assert_eq!(read_entry(&ident("x"), &Token::Group, false, 1), Err(ArgsError::MalformedArgument { at: 1 }));
}

#[test]
fn underscore_and_keywords_are_malformed() {
    let cases: Vec<Vec<Token>> = vec![
        tokens(&[("typ", "_")]),
        tokens(&[("typ", "if")]),
        tokens(&[("fn", "4")]),
        tokens(&[("_", "4")]),
        tokens(&[("typ", "struct")]),
        tokens(&[("type", "Foo")]),
    ];
    for t in cases {
        assert_eq!(Args::parse(&t).unwrap_err(), ArgsError::MalformedArgument { at: 0 });
    }
}

#[test]
fn malformed_entry_after_valid_ones_fails_the_list() {
    let t = tokens(&[("typ", "A"), ("code", "4"), ("typ", "_")]);
    assert_eq!(fixed(&t, sample()), Err(ArgsError::MalformedArgument { at: 8 }));
    let t = tokens(&[("code", "4"), ("x", "false")]);
    assert_eq!(fixed(&t, sample()), Err(ArgsError::MalformedArgument { at: 4 }));
}

#[test]
fn path_keywords_may_name_the_type() {
    let args = Args::parse(&tokens(&[("typ", "Self"), ("self", "2")])).unwrap();
    assert_eq!(args.typ(), "Self");
    assert_eq!(args.size_of(&"self".to_string()).map(|s| s.as_str()), Some("2"));
}
