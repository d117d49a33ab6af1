use seu::macros::derive::code::code_string;
use seu::macros::derive::code::CodeToken;
use seu::macros::derive::main as derive_main;
use seu::macros::derive::DataDef;
use seu::macros::derive::DeriveInputDef;
use seu::macros::derive::FieldsDef;
use seu::macros::derive::GenericParamDef;
use seu::macros::derive::NamedField;
use seu::macros::derive::VariantDef;
use seu::macros::opts::AttrDef;
use seu::macros::MacroError;
use seu::macros::num as num_macro;
use seu::macros::Num;
use seu::macros::names::NameGen;
use seu::macros::nums::decimal;
use seu::macros::nums::main_expr;
use seu::macros::nums::main_ty;
use seu::macros::nums::parse_decimal;
use seu::macros::opts::OptionName;
use seu::macros::opts::Options;
use seu::macros::product::product_expr;
use seu::macros::product::product_ty;

// ---------------------------------------------------------------------------------------------
// Building inputs

/// The tokens of a short piece of code: identifiers, lifetimes, literals, brackets and
/// punctuation; a punctuation character is joined to a punctuation character right after it.
fn code(src: &str) -> Vec<CodeToken> {
    let chars: Vec<char> = src.chars().collect();
    let mut toks = Vec::new();
    let mut i = 0;
    while i < chars.len() {
        let c = chars[i];
        if c.is_whitespace() {
            i += 1;
        } else if c.is_alphanumeric() || c == '_' {
            let start = i;
            while i < chars.len()
                && (chars[i].is_alphanumeric() || chars[i] == '_' || chars[i] == '#')
            {
                i += 1;
            }
            let word: String = chars[start..i].iter().collect();
            if word.chars().next().is_some_and(|c| c.is_ascii_digit()) {
                toks.push(CodeToken::Literal(word));
            } else {
                toks.push(CodeToken::Ident(word));
            }
        } else if "([{".contains(c) {
            toks.push(CodeToken::Open(c));
            i += 1;
        } else if ")]}".contains(c) {
            toks.push(CodeToken::Close(c));
            i += 1;
        } else {
            let next = chars.get(i + 1).copied().unwrap_or(' ');
            let joint = c == '\'' || !(next.is_whitespace()
                || next.is_alphanumeric()
                || next == '_'
                || "([{)]}".contains(next));
            toks.push(CodeToken::Punct { ch: c, joint });
            i += 1;
        }
    }
    toks
}

fn named(fields: &[(&str, &str)]) -> FieldsDef {
    FieldsDef::Named(
        fields
            .iter()
            .map(|(ident, ty)| NamedField { ident: ident.to_string(), ty: code(ty) })
            .collect(),
    )
}

fn unnamed(tys: &[&str]) -> FieldsDef {
    FieldsDef::Unnamed(tys.iter().map(|ty| code(ty)).collect())
}

fn variant(ident: &str, fields: FieldsDef) -> VariantDef {
    VariantDef { ident: ident.to_string(), fields }
}

fn input(ident: &str, data: DataDef) -> DeriveInputDef {
    DeriveInputDef {
        attrs: Vec::new(),
        ident: ident.to_string(),
        params: Vec::new(),
        where_predicates: Vec::new(),
        data,
    }
}

fn ident(s: &str) -> CodeToken {
    CodeToken::Ident(s.to_string())
}

fn punct(ch: char, joint: bool) -> CodeToken {
    CodeToken::Punct { ch, joint }
}

fn datatype_attr(tokens: Vec<CodeToken>) -> AttrDef {
    AttrDef::List { leading_colon: false, segments: vec!["datatype".to_string()], tokens }
}

/// The text between `start` and the next `end` after it.
fn between<'a>(text: &'a str, start: &str, end: &str) -> &'a str {
    let from = text.find(start).expect("start marker") + start.len();
    let len = text[from..].find(end).expect("end marker");
    &text[from..from + len]
}

fn repr_of(code: &str) -> &str {
    between(code, "type Repr = ", "; type ReprRef")
}

fn repr_ref_of(code: &str) -> &str {
    between(code, "type ReprRef<'a> = ", " where Self: 'a; type ReprMut")
}

fn repr_mut_of(code: &str) -> &str {
    between(code, "type ReprMut<'a> = ", " where Self: 'a; #[inline]")
}

fn derive_ok(input: DeriveInputDef) -> String {
    let code = derive_main(input).expect("derive succeeds");
    syn::parse_file(&code).expect("generated code parses");
    code
}

const P: &str = "::seu::generic::";

fn nil() -> String {
    format!("{P}product::Nil")
}

fn cons(head: &str, tail: &str) -> String {
    format!("{P}product::Cons<{head}, {tail}>")
}

fn product(items: &[String]) -> String {
    items.iter().rev().fold(nil(), |acc, item| cons(item, &acc))
}

fn num(n: usize) -> String {
    (0..n).fold(format!("{P}nums::Zero"), |acc, _| format!("{P}nums::Succ<{acc}>"))
}

fn field(marker: &str, ty: &str) -> String {
    format!("{P}fields::Field<{marker}, {ty}>")
}

fn unnamed_marker() -> String {
    format!("{P}names::Unnamed")
}

fn named_marker(ident: &str) -> String {
    format!("{P}names::Named<{ident}Name>")
}

fn structure(name: &str, flavour: &str, fields: &str) -> String {
    format!("{P}structs::Struct<{name}Name, {flavour}, {fields}>")
}

fn var_repr(name: &str, idx: usize, flavour: &str, fields: &str) -> String {
    format!("{P}variants::Variant<{name}Name, {}, {flavour}, {fields}>", num(idx))
}

fn unit_flavour() -> String {
    format!("{P}variants::UnitVariant")
}

fn tuple_flavour() -> String {
    format!("{P}variants::TupleVariant")
}

fn struct_flavour(idx: usize) -> String {
    format!("{P}variants::StructVariant<__SeuNames_{idx}>")
}

// ---------------------------------------------------------------------------------------------
// Tests

#[test]
fn duplicate_names() {
    let input = input(
        "TestDuplicate",
        DataDef::Enum(vec![
            variant("First", named(&[("bar", "usize")])),
            variant("Second", named(&[("bar", "u64")])),
        ]),
    );
    let code = derive_ok(input);
    assert_eq!(code.matches("struct barName;").count(), 1);
    assert_eq!(code.matches("struct FirstName;").count(), 1);
    assert_eq!(code.matches("struct SecondName;").count(), 1);
    assert_eq!(code.matches("struct TestDuplicateName;").count(), 1);
    // Both variants name their fields `bar`, so they share one name sequence.
    assert_eq!(code.matches("struct __SeuNames_0;").count(), 1);
    assert_eq!(code.matches("struct __SeuNames_1;").count(), 1);
    assert_eq!(code.matches("struct __SeuNames_2;").count(), 0);
}

#[test]
fn main() {
    let unit_struct = derive_ok(input("UnitStruct", DataDef::Struct(FieldsDef::Unit)));
    let expected = structure("UnitStruct", &unit_flavour(), &nil());
    assert_eq!(repr_of(&unit_struct), expected);
    assert_eq!(repr_ref_of(&unit_struct), expected);
    assert_eq!(repr_mut_of(&unit_struct), expected);

    let empty_tuple = derive_ok(input("EmptyTupleStruct", DataDef::Struct(unnamed(&[]))));
    let expected = structure("EmptyTupleStruct", &tuple_flavour(), &nil());
    assert_eq!(repr_of(&empty_tuple), expected);
    assert_eq!(repr_ref_of(&empty_tuple), expected);
    assert_eq!(repr_mut_of(&empty_tuple), expected);

    let tuple = derive_ok(input("TupleStruct", DataDef::Struct(unnamed(&["u8", "bool"]))));
    let u = unnamed_marker();
    assert_eq!(
        repr_of(&tuple),
        structure(
            "TupleStruct",
            &tuple_flavour(),
            &product(&[field(&u, "u8"), field(&u, "bool")])
        )
    );
    assert_eq!(
        repr_ref_of(&tuple),
        structure(
            "TupleStruct",
            &tuple_flavour(),
            &product(&[field(&u, "&'a u8"), field(&u, "&'a bool")])
        )
    );
    assert_eq!(
        repr_mut_of(&tuple),
        structure(
            "TupleStruct",
            &tuple_flavour(),
            &product(&[field(&u, "&'a mut u8"), field(&u, "&'a mut bool")])
        )
    );

    let empty_named = derive_ok(input("EmptyNamedStruct", DataDef::Struct(named(&[]))));
    let expected = structure("EmptyNamedStruct", &struct_flavour(0), &nil());
    assert_eq!(repr_of(&empty_named), expected);
    assert_eq!(repr_ref_of(&empty_named), expected);
    assert_eq!(repr_mut_of(&empty_named), expected);

    let named_struct = derive_ok(input(
        "NamedStruct",
        DataDef::Struct(named(&[("first", "u8"), ("second", "bool")])),
    ));
    let (f, s) = (named_marker("first"), named_marker("second"));
    assert_eq!(
        repr_of(&named_struct),
        structure(
            "NamedStruct",
            &struct_flavour(0),
            &product(&[field(&f, "u8"), field(&s, "bool")])
        )
    );
    assert_eq!(
        repr_ref_of(&named_struct),
        structure(
            "NamedStruct",
            &struct_flavour(0),
            &product(&[field(&f, "&'a u8"), field(&s, "&'a bool")])
        )
    );
    assert_eq!(
        repr_mut_of(&named_struct),
        structure(
            "NamedStruct",
            &struct_flavour(0),
            &product(&[field(&f, "&'a mut u8"), field(&s, "&'a mut bool")])
        )
    );

    let empty_enum = derive_ok(input("EmptyEnum", DataDef::Enum(Vec::new())));
    let expected = format!("{P}enums::Enum<EmptyEnumName, __SeuNames_0, {}>", nil());
    assert_eq!(repr_of(&empty_enum), expected);
    assert_eq!(repr_ref_of(&empty_enum), expected);
    assert_eq!(repr_mut_of(&empty_enum), expected);

    let unit_enum =
        derive_ok(input("UnitEnum", DataDef::Enum(vec![variant("Unit", FieldsDef::Unit)])));
    let expected = format!(
        "{P}enums::Enum<UnitEnumName, __SeuNames_0, {}>",
        product(&[var_repr("Unit", 0, &unit_flavour(), &nil())])
    );
    assert_eq!(repr_of(&unit_enum), expected);
    assert_eq!(repr_ref_of(&unit_enum), expected);
    assert_eq!(repr_mut_of(&unit_enum), expected);

    let tuple_enum = derive_ok(input(
        "TupleEnum",
        DataDef::Enum(vec![
            variant("EmptyTuple", unnamed(&[])),
            variant("Tuple", unnamed(&["u8", "bool"])),
        ]),
    ));
    let tuple_enum_repr = |u8_ty: &str, bool_ty: &str| {
        format!(
            "{P}enums::Enum<TupleEnumName, __SeuNames_0, {}>",
            product(&[
                var_repr("EmptyTuple", 0, &tuple_flavour(), &nil()),
                var_repr(
                    "Tuple",
                    1,
                    &tuple_flavour(),
                    &product(&[field(&u, u8_ty), field(&u, bool_ty)])
                ),
            ])
        )
    };
    assert_eq!(repr_of(&tuple_enum), tuple_enum_repr("u8", "bool"));
    assert_eq!(repr_ref_of(&tuple_enum), tuple_enum_repr("&'a u8", "&'a bool"));
    assert_eq!(repr_mut_of(&tuple_enum), tuple_enum_repr("&'a mut u8", "&'a mut bool"));

    // The variants are visited from the last one, so the later variant's field names come
    // first among the name sequences.
    let struct_enum = derive_ok(input(
        "StructEnum",
        DataDef::Enum(vec![
            variant("EmptyStruct", named(&[])),
            variant("Struct", named(&[("first", "u8"), ("second", "bool")])),
        ]),
    ));
    let struct_enum_repr = |u8_ty: &str, bool_ty: &str| {
        format!(
            "{P}enums::Enum<StructEnumName, __SeuNames_2, {}>",
            product(&[
                var_repr("EmptyStruct", 0, &struct_flavour(1), &nil()),
                var_repr(
                    "Struct",
                    1,
                    &struct_flavour(0),
                    &product(&[field(&f, u8_ty), field(&s, bool_ty)])
                ),
            ])
        )
    };
    assert_eq!(repr_of(&struct_enum), struct_enum_repr("u8", "bool"));
    assert_eq!(repr_ref_of(&struct_enum), struct_enum_repr("&'a u8", "&'a bool"));
    assert_eq!(repr_mut_of(&struct_enum), struct_enum_repr("&'a mut u8", "&'a mut bool"));

    let shapes = derive_ok(input(
        "EnumShapes",
        DataDef::Enum(vec![
            variant("Unit", FieldsDef::Unit),
            variant("EmptyTuple", unnamed(&[])),
            variant("Tuple", unnamed(&["u8", "bool"])),
            variant("EmptyStruct", named(&[])),
            variant("Struct", named(&[("first", "u8"), ("second", "bool")])),
        ]),
    ));
    let shapes_repr = |u8_ty: &str, bool_ty: &str| {
        format!(
            "{P}enums::Enum<EnumShapesName, __SeuNames_2, {}>",
            product(&[
                var_repr("Unit", 0, &unit_flavour(), &nil()),
                var_repr("EmptyTuple", 1, &tuple_flavour(), &nil()),
                var_repr(
                    "Tuple",
                    2,
                    &tuple_flavour(),
                    &product(&[field(&u, u8_ty), field(&u, bool_ty)])
                ),
                var_repr("EmptyStruct", 3, &struct_flavour(1), &nil()),
                var_repr(
                    "Struct",
                    4,
                    &struct_flavour(0),
                    &product(&[field(&f, u8_ty), field(&s, bool_ty)])
                ),
            ])
        )
    };
    assert_eq!(repr_of(&shapes), shapes_repr("u8", "bool"));
    assert_eq!(repr_ref_of(&shapes), shapes_repr("&'a u8", "&'a bool"));
    assert_eq!(repr_mut_of(&shapes), shapes_repr("&'a mut u8", "&'a mut bool"));
}

#[test]
fn names_are_declared_once_per_identifier() {
    let mut names = NameGen::default();
    assert_eq!(names.insert("first"), "firstName");
    assert_eq!(names.insert("first"), "firstName");
    let fields = named(&[("first", "u8"), ("second", "bool")]);
    assert_eq!(names.insert_fields(&fields), "__SeuNames_0");
    assert_eq!(names.insert_fields(&fields), "__SeuNames_0");
    assert_eq!(names.insert_fields(&named(&[("second", "bool")])), "__SeuNames_1");
    let items = names.done("::seu");
    assert_eq!(
        items,
        vec![
            "#[automatically_derived] struct firstName;".to_string(),
            "#[automatically_derived] impl ::seu::generic::names::HasName for firstName { const NAME: &'static str = \"first\"; }".to_string(),
            "#[automatically_derived] struct secondName;".to_string(),
            "#[automatically_derived] impl ::seu::generic::names::HasName for secondName { const NAME: &'static str = \"second\"; }".to_string(),
            "struct __SeuNames_0;".to_string(),
            "impl ::seu::generic::names::HasNames for __SeuNames_0 { const NAMES: &'static [&'static str] = &[<firstName as ::seu::generic::names::HasName>::NAME, <secondName as ::seu::generic::names::HasName>::NAME]; }".to_string(),
            "struct __SeuNames_1;".to_string(),
            "impl ::seu::generic::names::HasNames for __SeuNames_1 { const NAMES: &'static [&'static str] = &[<secondName as ::seu::generic::names::HasName>::NAME]; }".to_string(),
        ]
    );
}

#[test]
fn generates_whole_unit_struct_impl() {
    let code = derive_ok(input("Unit", DataDef::Struct(FieldsDef::Unit)));
    let repr = "::seu::generic::structs::Struct<UnitName, ::seu::generic::variants::UnitVariant, ::seu::generic::product::Nil>";
    let expected = format!(
        "const _: () = {{ #[automatically_derived] struct UnitName; \
         #[automatically_derived] impl ::seu::generic::names::HasName for UnitName {{ const NAME: &'static str = \"Unit\"; }} \
         #[automatically_derived] impl<> ::seu::generic::datatypes::DataType for Unit<> where  {{ \
         const TYPE_NAME: &'static str = \"Unit\"; type Repr = {repr}; \
         type ReprRef<'a> = {repr} where Self: 'a; type ReprMut<'a> = {repr} where Self: 'a; \
         #[inline] fn into_repr(self) -> Self::Repr {{ ::seu::generic::structs::Struct::new(::seu::generic::product::Nil) }} \
         #[inline] fn as_repr(&self) -> Self::ReprRef<'_> {{ ::seu::generic::structs::Struct::new(::seu::generic::product::Nil) }} \
         #[inline] fn as_repr_mut(&mut self) -> Self::ReprMut<'_> {{ ::seu::generic::structs::Struct::new(::seu::generic::product::Nil) }} \
         #[inline] fn from_repr(repr: Self::Repr) -> Self {{ {{ let ::seu::generic::structs::Struct {{ fields: ::seu::generic::product::Nil, .. }} = repr; Self }} }} }} }};"
    );
    assert_eq!(code, expected);
}

#[test]
fn converts_named_fields_by_place() {
    let input = input("Point", DataDef::Struct(named(&[("x", "i32"), ("y", "i32")])));
    let code = derive_ok(input);
    let field = |member: &str| format!("{P}fields::Field::new({member})");
    let to = |prefix: &str| {
        format!(
            "{P}structs::Struct::new({})",
            format!(
                "{P}product::Cons({}, {P}product::Cons({}, {P}product::Nil))",
                field(&format!("{prefix}self.x")),
                field(&format!("{prefix}self.y"))
            )
        )
    };
    assert!(code.contains(&format!("fn into_repr(self) -> Self::Repr {{ {} }}", to(""))));
    assert!(code.contains(&format!("fn as_repr(&self) -> Self::ReprRef<'_> {{ {} }}", to("&"))));
    assert!(code.contains(&format!(
        "fn as_repr_mut(&mut self) -> Self::ReprMut<'_> {{ {} }}",
        to("&mut ")
    )));
    assert!(code.contains(&format!(
        "{{ let {P}structs::Struct {{ fields: {P}product::Cons({P}fields::Field {{ value: field0, .. }}, {P}product::Cons({P}fields::Field {{ value: field1, .. }}, {P}product::Nil)), .. }} = repr; Self {{ x: field0, y: field1 }} }}"
    )));
}

#[test]
fn converts_tuple_fields_by_position() {
    let code = derive_ok(input("Pair", DataDef::Struct(unnamed(&["u8", "u16"]))));
    assert!(code.contains(&format!("{P}fields::Field::new(&self.0)")));
    assert!(code.contains(&format!("{P}fields::Field::new(&mut self.1)")));
    assert!(code.contains("Self(field0, field1)"));
}

#[test]
fn matches_enum_variants_into_sums() {
    let input = input(
        "Shape",
        DataDef::Enum(vec![
            variant("Dot", FieldsDef::Unit),
            variant("Line", unnamed(&["u8"])),
            variant("Rect", named(&[("w", "u8")])),
        ]),
    );
    let code = derive_ok(input);
    let zero = format!("{P}nums::Zero");
    let one = format!("{P}nums::Succ({P}nums::Zero)");
    let two = format!("{P}nums::Succ({P}nums::Succ({P}nums::Zero))");
    let nil = format!("{P}product::Nil");
    assert!(code.contains(&format!(
        "{P}enums::Enum::new(match self {{ Self::Dot => {{ {P}sum::Sum::new({zero}, {P}variants::Variant::new({nil}),) }}, \
         Self::Line(_0) => {{ {P}sum::Sum::new({one}, {P}variants::Variant::new({P}product::Cons({P}fields::Field::new(_0), {nil})),) }}, \
         Self::Rect {{ w }} => {{ {P}sum::Sum::new({two}, {P}variants::Variant::new({P}product::Cons({P}fields::Field::new(w), {nil})),) }} }})"
    )));
    assert!(code.contains(&format!(
        "repr.variant.reduce({P}product::Cons(|var| {{ let {P}variants::Variant {{ fields: {nil}, .. }} = var; Self::Dot }}, \
         {P}product::Cons(|var| {{ let {P}variants::Variant {{ fields: {P}product::Cons({P}fields::Field {{ value: field0, .. }}, {nil}), .. }} = var; Self::Line(field0) }}, \
         {P}product::Cons(|var| {{ let {P}variants::Variant {{ fields: {P}product::Cons({P}fields::Field {{ value: field0, .. }}, {nil}), .. }} = var; Self::Rect {{ w: field0 }} }}, {nil}))))"
    )));
}

#[test]
fn enums_without_variants_cannot_convert() {
    let code = derive_ok(input("Never", DataDef::Enum(Vec::new())));
    assert!(code.contains("fn into_repr(self) -> Self::Repr { unreachable!(\"Enum has no variants\") }"));
    assert!(code.contains(&format!("repr.variant.reduce({P}product::Nil)")));
}

#[test]
fn passes_generic_parameters_on() {
    let mut input = input("Wrapper", DataDef::Struct(unnamed(&["&'b T"])));
    input.params = vec![
        GenericParamDef::Lifetime { lifetime: "'b".to_string(), decl: code("'b") },
        GenericParamDef::Type { ident: "T".to_string(), decl: code("T : Clone") },
        GenericParamDef::Const { ident: "N".to_string(), decl: code("const N : usize") },
    ];
    input.where_predicates = vec![code("T : Default"), code("T : 'b")];
    let code = derive_ok(input);
    assert!(code.contains(
        "impl<'b, T : Clone, const N : usize> ::seu::generic::datatypes::DataType for Wrapper<'b, T, N> where T : Default, T : 'b,  {"
    ));
    assert!(code.contains(&field(&unnamed_marker(), "&'a &'b T")));
}

#[test]
fn rejects_unions() {
    let err = derive_main(input("Bits", DataDef::Union)).unwrap_err();
    assert_eq!(err, MacroError::UnionUnsupported);
    assert_eq!(err.message(), "DataType: Union data types are not yet supported");
}

#[test]
fn reads_the_target_crate_from_options() {
    let mut input = input("Unit", DataDef::Struct(FieldsDef::Unit));
    input.attrs = vec![
        AttrDef::Other,
        datatype_attr(vec![
            ident("crate"),
            punct('=', false),
            punct(':', true),
            punct(':', false),
            ident("first"),
        ]),
        datatype_attr(vec![
            ident("NAME"),
            punct('=', false),
            ident("my_crate"),
            punct(':', true),
            punct(':', false),
            ident("seu"),
        ]),
    ];
    let code = derive_ok(input);
    assert!(code.contains("impl my_crate :: seu::generic::names::HasName for UnitName"));
    assert!(code.contains("impl<> my_crate :: seu::generic::datatypes::DataType for Unit<>"));
    assert!(!code.contains("::first"));
}

#[test]
fn ignores_other_attributes() {
    let mut input = input("Unit", DataDef::Struct(FieldsDef::Unit));
    input.attrs = vec![
        AttrDef::List {
            leading_colon: false,
            segments: vec!["serde".to_string()],
            tokens: vec![ident("crate"), punct('=', false), ident("x")],
        },
        AttrDef::List {
            leading_colon: true,
            segments: vec!["datatype".to_string()],
            tokens: vec![ident("oops")],
        },
    ];
    let code = derive_ok(input);
    assert!(code.contains("impl<> ::seu::generic::datatypes::DataType for Unit<>"));
}

fn option_error(tokens: Vec<CodeToken>) -> MacroError {
    let mut input = input("Unit", DataDef::Struct(FieldsDef::Unit));
    input.attrs = vec![datatype_attr(tokens)];
    derive_main(input).unwrap_err()
}

#[test]
fn reports_option_errors() {
    let unknown = option_error(vec![ident("Path"), punct('=', false), ident("x")]);
    assert_eq!(unknown, MacroError::UnknownOption("path".to_string()));
    assert_eq!(unknown.message(), "Unknown option name path");
    assert_eq!(
        option_error(vec![ident("fn"), punct('=', false), ident("x")]),
        MacroError::ExpectedOptionName
    );
    assert_eq!(option_error(vec![]), MacroError::MissingOptionName);
    assert_eq!(
        MacroError::MissingOptionName.message(),
        "unexpected end of input, expected `crate` or identifier"
    );
    assert_eq!(
        option_error(vec![CodeToken::Literal("\"x\"".to_string())]),
        MacroError::ExpectedOptionName
    );
    assert_eq!(option_error(vec![ident("crate"), ident("x")]), MacroError::ExpectedEquals);
    let parse_message = |tokens: Vec<CodeToken>| match option_error(tokens) {
        MacroError::Parse(message) => message,
        other => panic!("expected a parse error, got {other:?}"),
    };
    assert!(parse_message(vec![ident("crate"), punct('=', false)]).contains("expected identifier"));
    assert_eq!(
        parse_message(vec![ident("crate"), punct('=', false), ident("type")]),
        "expected identifier, found keyword `type`"
    );
    assert_eq!(
        parse_message(vec![ident("crate"), punct('=', false), ident("x"), punct(',', false)]),
        "unexpected token"
    );
}

#[test]
fn accepts_generic_arguments_in_the_target_crate() {
    let mut input = input("Unit", DataDef::Struct(FieldsDef::Unit));
    input.attrs = vec![datatype_attr(vec![
        ident("crate"),
        punct('=', false),
        ident("x"),
        punct('<', false),
        ident("T"),
        punct('>', false),
    ])];
    let code = derive_main(input).expect("derive succeeds");
    assert!(code.contains("impl x < T >::generic::names::HasName for UnitName"));
}

#[test]
fn accepts_path_keywords_in_the_target_crate() {
    let mut input = input("Unit", DataDef::Struct(FieldsDef::Unit));
    input.attrs = vec![datatype_attr(vec![
        ident("crate"),
        punct('=', false),
        ident("crate"),
        punct(':', true),
        punct(':', false),
        ident("Self"),
        punct(':', true),
        punct(':', false),
        ident("r#type"),
    ])];
    let code = derive_ok(input);
    assert!(code.contains("impl crate :: Self :: r#type::generic::names::HasName for UnitName"));
}

#[test]
fn reads_integer_literals_for_number_macros() {
    assert_eq!(
        num_macro("2").unwrap(),
        "::seu::generic::nums::Succ(::seu::generic::nums::Succ(::seu::generic::nums::Zero))"
    );
    assert_eq!(Num("0x1").unwrap(), "::seu::generic::nums::Succ<::seu::generic::nums::Zero>");
    assert_eq!(Num("1_0u8").unwrap(), Num("10").unwrap());
    assert_eq!(num_macro("99999999999999999999999"), Err(MacroError::NumberTooLarge));
    let err = num_macro("x").unwrap_err();
    assert_eq!(err, MacroError::Parse("expected integer literal".to_string()));
    assert_eq!(err.message(), "expected integer literal");
    assert!(matches!(Num("1 2"), Err(MacroError::Parse(_))));
}

#[test]
fn builds_peano_numbers() {
    assert_eq!(main_ty("0").unwrap(), "::seu::generic::nums::Zero");
    assert_eq!(
        main_ty("2").unwrap(),
        "::seu::generic::nums::Succ<::seu::generic::nums::Succ<::seu::generic::nums::Zero>>"
    );
    assert_eq!(
        main_expr("1").unwrap(),
        "::seu::generic::nums::Succ(::seu::generic::nums::Zero)"
    );
    assert_eq!(main_expr("1a"), Err(MacroError::InvalidDigit));
    assert_eq!(MacroError::InvalidDigit.message(), "invalid digit found in string");
    assert_eq!(main_ty(""), Err(MacroError::EmptyNumber));
    assert_eq!(MacroError::EmptyNumber.message(), "cannot parse integer from empty string");
    assert_eq!(main_ty("99999999999999999999999"), Err(MacroError::NumberTooLarge));
    assert_eq!(MacroError::NumberTooLarge.message(), "number too large to fit in target type");
}

#[test]
fn writes_decimal_numbers() {
    assert_eq!(decimal(0), "0");
    assert_eq!(decimal(7), "7");
    assert_eq!(decimal(1204), "1204");
    assert_eq!(decimal(usize::MAX), usize::MAX.to_string());
    assert_eq!(parse_decimal("0042"), Some(42));
    assert_eq!(parse_decimal(&usize::MAX.to_string()), Some(usize::MAX));
    assert_eq!(parse_decimal("-1"), None);
}

#[test]
fn builds_products_first_item_outermost() {
    let items = vec!["A".to_string(), "B".to_string()];
    assert_eq!(product_ty("k", &items), "k::generic::product::Cons<A, k::generic::product::Cons<B, k::generic::product::Nil>>");
    assert_eq!(product_expr("k", &items), "k::generic::product::Cons(A, k::generic::product::Cons(B, k::generic::product::Nil))");
    assert_eq!(product_ty("k", &Vec::new()), "k::generic::product::Nil");
}

#[test]
fn lowercases_option_names_before_matching() {
    assert!(OptionName::from_lowercase("name").is_ok());
    assert_eq!(
        OptionName::from_lowercase("Name").err(),
        Some(MacroError::UnknownOption("Name".to_string()))
    );
}

#[test]
fn prints_code_tokens() {
    assert_eq!(code_string("::seu", &code("Vec<(u8, [bool; 2])>")), "Vec < ( u8 , [ bool ; 2 ] ) >");
    assert_eq!(code_string("::seu", &code("&'a mut T")), "&'a mut T");
    assert_eq!(code_string("::seu", &code("<T as Tr>::Out")), "< T as Tr >:: Out");
}

#[test]
fn points_seu_paths_at_the_target_crate() {
    let k = "my_crate";
    assert_eq!(code_string(k, &code("seu::Foo")), "my_crate :: Foo");
    assert_eq!(code_string(k, &code("::seu::Foo")), "my_crate :: Foo");
    assert_eq!(code_string(k, &code("Vec<seu::X>")), "Vec < my_crate :: X >");
    assert_eq!(code_string(k, &code("dyn ::seu::Tr")), "dyn my_crate :: Tr");
    assert_eq!(code_string(k, &code("<T as seu::Tr>::Out")), "< T as my_crate :: Tr >:: Out");
    assert_eq!(code_string(k, &code("seu")), "my_crate");
    assert_eq!(code_string(k, &code("other::seu::Foo")), "other :: seu :: Foo");
    assert_eq!(code_string(k, &code("crate::seu")), "crate :: seu");
    assert_eq!(code_string(k, &code("Vec<T>::seu")), "Vec < T >:: seu");
    assert_eq!(code_string(k, &code("&'seu u8")), "&'seu u8");
    assert_eq!(code_string(k, &code("seus::Foo")), "seus :: Foo");
}

#[test]
fn leaves_macro_arguments_as_written() {
    let k = "my_crate";
    assert_eq!(code_string(k, &code("m!(seu::X)")), "m ! ( seu :: X )");
    assert_eq!(code_string(k, &code("seu::m!(seu::X)")), "my_crate :: m ! ( seu :: X )");
    assert_eq!(code_string(k, &code("m![(seu::A), ::seu::B]")), "m ! [ ( seu :: A ) , :: seu :: B ]");
    assert_eq!(
        code_string(k, &code("(m!{seu::X}, seu::Y)")),
        "( m ! { seu :: X } , my_crate :: Y )"
    );
}

#[test]
fn rewrites_seu_paths_in_field_types() {
    let holder = || input("Holder", DataDef::Struct(named(&[("inner", "seu::Inner")])));
    let code_default = derive_ok(holder());
    assert!(code_default.contains(&field(&named_marker("inner"), "::seu :: Inner")));
    let mut input = holder();
    input.attrs = vec![datatype_attr(vec![ident("crate"), punct('=', false), ident("other")])];
    let code_other = derive_ok(input);
    assert!(code_other.contains("other::generic::fields::Field<other::generic::names::Named<innerName>, other :: Inner>"));
    assert!(code_other.contains("&'a mut other :: Inner"));
}

fn is_datatype(attr: &AttrDef) -> bool {
    matches!(attr, AttrDef::List { leading_colon: false, segments, .. } if segments == &vec!["datatype".to_string()])
}

#[test]
fn loading_options_takes_out_datatype_attributes() {
    let mut opts = Options::default();
    let mut attrs = vec![
        AttrDef::Other,
        datatype_attr(vec![ident("crate"), punct('=', false), ident("crate")]),
    ];
    assert_eq!(opts.load_from(&mut attrs), Ok(()));
    assert_eq!(opts.target_crate, "crate");
    assert_eq!(attrs.len(), 1);
    assert!(matches!(attrs[0], AttrDef::Other));
}

#[test]
fn loading_options_stops_at_the_first_unreadable_attribute() {
    let mut opts = Options::default();
    let serde_attr = AttrDef::List {
        leading_colon: false,
        segments: vec!["serde".to_string()],
        tokens: vec![ident("default")],
    };
    let mut attrs = vec![
        datatype_attr(vec![ident("crate"), punct('=', false), ident("first")]),
        AttrDef::Other,
        datatype_attr(vec![ident("oops")]),
        serde_attr,
        datatype_attr(vec![ident("crate"), punct('=', false), ident("last")]),
    ];
    assert_eq!(opts.load_from(&mut attrs), Err(MacroError::UnknownOption("oops".to_string())));
    assert_eq!(opts.target_crate, "first");
    assert_eq!(attrs.len(), 3);
    assert!(matches!(attrs[0], AttrDef::Other));
    assert!(matches!(&attrs[1], AttrDef::List { segments, .. } if segments == &vec!["serde".to_string()]));
    assert!(is_datatype(&attrs[2]));
}

#[test]
fn loading_options_keeps_the_last_crate_path() {
    let mut opts = Options::default();
    let mut attrs = vec![
        datatype_attr(vec![ident("crate"), punct('=', false), ident("first")]),
        AttrDef::Other,
        datatype_attr(vec![ident("NAME"), punct('=', false), ident("last")]),
    ];
    assert_eq!(opts.load_from(&mut attrs), Ok(()));
    assert_eq!(opts.target_crate, "last");
    assert_eq!(attrs.len(), 1);
    assert!(!is_datatype(&attrs[0]));
}
