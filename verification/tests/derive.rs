//! The whole way from source text: `syn` parses a declaration, the helpers below write it
//! down as a `Declaration`, and the library does the rest.

use darling::ast::NestedMeta;
use darling::util::{parse_attribute_to_meta_list, path_to_string};
use detail_error::business_error::BusinessError;
use detail_error::declaration::{Attribute, Declaration, MetaItem, MetaValue, Shape, VariantDecl};
use detail_error::error::{GenerateError, SchemaError, SchemaErrorKind, ShapeError};
use detail_error::extract::extract;
use detail_error::fields::{Fields, LoremField, Style};
use detail_error::{detail_error_fn, handler};
use proc_macro2::TokenStream;
use quote::ToTokens;
use syn::{Data, DeriveInput, Expr, Lit, Meta};

fn is_skip(attr: &syn::Attribute) -> bool {
    if !attr.path().is_ident("lorem") {
        return false;
    }
    let list = parse_attribute_to_meta_list(attr).unwrap();
    NestedMeta::parse_meta_list(list.tokens)
        .unwrap()
        .iter()
        .any(|item| matches!(item, NestedMeta::Meta(Meta::Path(path)) if path.is_ident("skip")))
}

fn fields_of(fields: &syn::Fields) -> Fields {
    let style = match fields {
        syn::Fields::Named(_) => Style::Struct,
        syn::Fields::Unnamed(_) => Style::Tuple,
        syn::Fields::Unit => Style::Unit,
    };
    let fields = fields
        .iter()
        .map(|field| LoremField {
            ident: field.ident.as_ref().map(|ident| ident.to_string()),
            ty: field.ty.to_token_stream().to_string(),
            skip: field.attrs.iter().any(is_skip),
        })
        .collect();
    Fields { style, fields }
}

fn value_of(expr: &Expr) -> MetaValue {
    match expr {
        Expr::Lit(literal) => match &literal.lit {
            Lit::Int(int) => int.base10_parse::<u64>().map(MetaValue::Int).unwrap_or(MetaValue::Other),
            Lit::Str(text) => MetaValue::Str(text.value()),
            _ => MetaValue::Other,
        },
        Expr::Group(group) => value_of(&group.expr),
        _ => MetaValue::Other,
    }
}

fn item_of(nested: &NestedMeta) -> MetaItem {
    match nested {
        NestedMeta::Meta(Meta::NameValue(pair)) => {
            MetaItem { key: path_to_string(&pair.path), value: value_of(&pair.value) }
        }
        NestedMeta::Meta(other) => {
            MetaItem { key: path_to_string(other.path()), value: MetaValue::Other }
        }
        NestedMeta::NameValueInvalidExpr(pair) => {
            MetaItem { key: path_to_string(&pair.path), value: MetaValue::Other }
        }
        NestedMeta::Lit(literal) => {
            MetaItem { key: literal.to_token_stream().to_string(), value: MetaValue::Other }
        }
    }
}

fn attribute_of(attr: &syn::Attribute) -> Attribute {
    let path = path_to_string(attr.path());
    let items = if path == "detail" {
        let list = parse_attribute_to_meta_list(attr).unwrap();
        NestedMeta::parse_meta_list(list.tokens).unwrap().iter().map(item_of).collect()
    } else {
        Vec::new()
    };
    Attribute { path, items }
}

fn declaration_of(source: &str) -> Declaration {
    let tokens: TokenStream = source.parse().unwrap();
    let input = syn::parse2::<DeriveInput>(tokens).unwrap();
    let shape = match &input.data {
        Data::Enum(data) => Shape::Enum(
            data.variants
                .iter()
                .map(|variant| VariantDecl {
                    ident: variant.ident.to_string(),
                    fields: fields_of(&variant.fields),
                    attrs: variant.attrs.iter().map(attribute_of).collect(),
                })
                .collect(),
        ),
        Data::Struct(data) => Shape::Struct(fields_of(&data.fields)),
        Data::Union(data) => Shape::Union(fields_of(&syn::Fields::Named(data.fields.clone()))),
    };
    Declaration { ident: input.ident.to_string(), shape }
}

fn tokens_of(text: &str) -> String {
    text.parse::<TokenStream>().unwrap().to_string()
}

const BUSINESS_ERROR: &str = "
    pub enum BusinessError {
        InvalidEmail,
        #[detail(code = 500, message = \"this is an invalid password\")]
        InvalidPassword
    }
";

#[test]
fn it_works() {
    let input = declaration_of(
        "pub enum A {
            A,

        }",
    );
    let expected_output = "
        impl A {
            pub fn get_http_code(&self) -> u16 {
                match self {
                    A::A => 400u16,
                }
            }
            pub fn get_code(&self) -> String {
                match self {
                    A::A => String::from(\"A\"),
                }
            }
            pub fn get_message(&self) -> String {
                match self {
                    A::A => String::from(\"A\"),
                }
            }
        }
    ";
    let output = handler(&input).unwrap();
    assert_eq!(tokens_of(expected_output), tokens_of(&output));
}

#[test]
fn it_enum_output() {
    let source = "pub enum A {
        A,

    }";
    println!("{:?}", tokens_of(source));
    let input = declaration_of(source);
    let detail_error = extract(&input).unwrap();
    println!("{:?}", &detail_error);
    assert_eq!(detail_error.ident, "A");
    assert_eq!(detail_error.variants.len(), 1);
    assert_eq!(detail_error.variants[0].ident, "A");
    assert_eq!(detail_error.variants[0].fields, Fields { style: Style::Unit, fields: vec![] });
    assert_eq!(detail_error.variants[0].code, None);
    assert_eq!(detail_error.variants[0].message, None);
}

#[test]
fn it_struct_output() {
    let source = "pub struct ShippingEvent<Moment> {
        id: ShippingEventId,
        event_type: ShippingEventType,
        shipment_id: ShipmentId,
        location: Option<ReadPoint>,
        #[lorem(skip)]
        readings: Vec<Reading<Moment>>,
        timestamp: Moment,
    }";
    println!("{:?}", tokens_of(source));
    let input = declaration_of(source);
    println!("{:?}", &input);
    assert_eq!(input.ident, "ShippingEvent");
    let fields = match &input.shape {
        Shape::Struct(fields) => fields,
        other => panic!("not a struct: {:?}", other),
    };
    assert_eq!(fields.style, Style::Struct);
    let names: Vec<&str> = fields.fields.iter().map(|f| f.ident.as_deref().unwrap()).collect();
    assert_eq!(names, vec!["id", "event_type", "shipment_id", "location", "readings", "timestamp"]);
    let skipped: Vec<bool> = fields.fields.iter().map(|f| f.skip).collect();
    assert_eq!(skipped, vec![false, false, false, false, true, false]);
    assert_eq!(tokens_of(&fields.fields[3].ty), tokens_of("Option<ReadPoint>"));
}

#[test]
fn a_struct_is_refused_with_a_shape_error() {
    let input = declaration_of("pub struct Point { x: u8, y: u8 }");
    let expected = GenerateError::Shape(ShapeError { ident: "Point".to_string() });
    assert_eq!(handler(&input), Err(expected.clone()));
    assert_eq!(extract(&input), Err(expected));
}

#[test]
fn a_union_is_refused_with_a_shape_error() {
    let input = declaration_of("pub union Bits { whole: u32, half: u16 }");
    assert_eq!(
        handler(&input),
        Err(GenerateError::Shape(ShapeError { ident: "Bits".to_string() }))
    );
}

#[test]
fn a_struct_is_refused_even_with_a_wrong_attribute_inside() {
    let input = declaration_of("pub struct Point { #[detail(nonsense = 1)] x: u8 }");
    assert_eq!(
        handler(&input),
        Err(GenerateError::Shape(ShapeError { ident: "Point".to_string() }))
    );
}

#[test]
fn business_error_source_gives_the_accessors_written_by_hand() {
    let input = declaration_of(BUSINESS_ERROR);
    assert_eq!(input, BusinessError::declaration());
    let expected = "
        impl BusinessError {
            pub fn get_http_code(&self) -> u16 {
                match self {
                    BusinessError::InvalidEmail => 400u16,
                    BusinessError::InvalidPassword => 500u16,
                }
            }
            pub fn get_code(&self) -> String {
                match self {
                    BusinessError::InvalidEmail => String::from(\"INVALID_EMAIL\"),
                    BusinessError::InvalidPassword => String::from(\"INVALID_PASSWORD\"),
                }
            }
            pub fn get_message(&self) -> String {
                match self {
                    BusinessError::InvalidEmail => String::from(\"Invalid email\"),
                    BusinessError::InvalidPassword => String::from(\"this is an invalid password\"),
                }
            }
        }
    ";
    assert_eq!(tokens_of(&handler(&input).unwrap()), tokens_of(expected));
    assert_eq!(detail_error_fn(&input), handler(&input).unwrap());
}

#[test]
fn the_output_is_one_impl_block_with_three_methods() {
    let input = declaration_of(BUSINESS_ERROR);
    let block = syn::parse_str::<syn::ItemImpl>(&handler(&input).unwrap()).unwrap();
    assert_eq!(block.self_ty.to_token_stream().to_string(), "BusinessError");
    let names: Vec<String> = block
        .items
        .iter()
        .map(|item| match item {
            syn::ImplItem::Fn(method) => method.sig.ident.to_string(),
            other => panic!("not a method: {:?}", other.to_token_stream().to_string()),
        })
        .collect();
    assert_eq!(names, vec!["get_http_code", "get_code", "get_message"]);
}

fn arms_of(method: &syn::ImplItem) -> Vec<(String, String)> {
    let method = match method {
        syn::ImplItem::Fn(method) => method,
        _ => panic!("not a method"),
    };
    let dispatch = match method.block.stmts.as_slice() {
        [syn::Stmt::Expr(Expr::Match(dispatch), None)] => dispatch,
        _ => panic!("the body is not a single match"),
    };
    assert_eq!(dispatch.expr.to_token_stream().to_string(), "self");
    dispatch
        .arms
        .iter()
        .map(|arm| {
            (arm.pat.to_token_stream().to_string(), arm.body.to_token_stream().to_string())
        })
        .collect()
}

#[test]
fn each_dispatch_has_one_arm_for_each_variant_in_declaration_order() {
    let input = declaration_of(
        "enum E {
            First,
            #[detail(code = 404)]
            Second(u8, String),
            #[detail(message = \"third\")]
            Third { why: String },
            #[doc = \"the last\"]
            Fourth,
        }",
    );
    let block = syn::parse_str::<syn::ItemImpl>(&handler(&input).unwrap()).unwrap();
    assert_eq!(block.items.len(), 3);
    let patterns = vec!["E :: First", "E :: Second(..)", "E :: Third { .. }", "E :: Fourth"];
    let bodies = [
        vec!["400u16", "404u16", "400u16", "400u16"],
        vec![
            "String :: from (\"FIRST\")",
            "String :: from (\"SECOND\")",
            "String :: from (\"THIRD\")",
            "String :: from (\"FOURTH\")",
        ],
        vec![
            "String :: from (\"First\")",
            "String :: from (\"Second\")",
            "String :: from (\"third\")",
            "String :: from (\"Fourth\")",
        ],
    ];
    for (method, expected) in block.items.iter().zip(bodies.iter()) {
        let arms = arms_of(method);
        assert_eq!(arms.len(), 4);
        for (k, (pattern, body)) in arms.iter().enumerate() {
            assert_eq!(tokens_of(pattern), tokens_of(patterns[k]));
            assert_eq!(tokens_of(body), tokens_of(expected[k]));
        }
    }
}

#[test]
fn the_arms_ignore_the_fields_and_bind_none() {
    let input = declaration_of("enum E { Unit, Pair(u8, String), Named { why: String }, Empty() }");
    let block = syn::parse_str::<syn::ItemImpl>(&handler(&input).unwrap()).unwrap();
    for method in block.items.iter() {
        let method = match method {
            syn::ImplItem::Fn(method) => method,
            _ => panic!("not a method"),
        };
        let dispatch = match method.block.stmts.as_slice() {
            [syn::Stmt::Expr(Expr::Match(dispatch), None)] => dispatch,
            _ => panic!("the body is not a single match"),
        };
        assert_eq!(dispatch.arms.len(), 4);
        assert!(matches!(&dispatch.arms[0].pat, syn::Pat::Path(_)));
        for k in [1, 3] {
            match &dispatch.arms[k].pat {
                syn::Pat::TupleStruct(pattern) => {
                    assert_eq!(pattern.elems.len(), 1);
                    assert!(matches!(pattern.elems[0], syn::Pat::Rest(_)));
                }
                _ => panic!("not a tuple pattern"),
            }
        }
        match &dispatch.arms[2].pat {
            syn::Pat::Struct(pattern) => {
                assert!(pattern.fields.is_empty());
                assert!(pattern.rest.is_some());
            }
            _ => panic!("not a struct pattern"),
        }
    }
}

#[test]
fn fields_are_carried_into_the_descriptor_as_declared() {
    let input = declaration_of("enum E { Pair(u8, String), Named { why: String } }");
    let descriptor = extract(&input).unwrap();
    assert_eq!(descriptor.variants[0].fields.style, Style::Tuple);
    assert_eq!(
        descriptor.variants[0].fields.fields,
        vec![LoremField::unnamed("u8"), LoremField::unnamed("String")]
    );
    assert_eq!(descriptor.variants[1].fields.style, Style::Struct);
    assert_eq!(descriptor.variants[1].fields.fields, vec![LoremField::named("why", "String")]);
}

#[test]
fn an_unknown_key_in_the_source_is_a_schema_error() {
    let input = declaration_of("enum E { A, #[detail(status = 500)] B }");
    let expected = GenerateError::Schema(SchemaError {
        variant: "B".to_string(),
        key: "status".to_string(),
        kind: SchemaErrorKind::UnknownKey,
    });
    assert_eq!(handler(&input), Err(expected));
}

#[test]
fn a_status_that_does_not_fit_in_sixteen_bits_is_a_schema_error() {
    let accepted = declaration_of("enum E { #[detail(code = 65535)] A }");
    assert_eq!(extract(&accepted).unwrap().variants[0].code, Some(65535));
    for source in [
        "enum E { #[detail(code = 65536)] A }",
        "enum E { #[detail(code = 340282366920938463463374607431768211456)] A }",
        "enum E { #[detail(code = \"500\")] A }",
        "enum E { #[detail(code = 5.0)] A }",
        "enum E { #[detail(code)] A }",
        "enum E { #[detail(code(500))] A }",
    ] {
        let expected = GenerateError::Schema(SchemaError {
            variant: "A".to_string(),
            key: "code".to_string(),
            kind: SchemaErrorKind::InvalidValue,
        });
        assert_eq!(handler(&declaration_of(source)), Err(expected), "{}", source);
    }
}

#[test]
fn a_message_that_is_no_string_literal_is_a_schema_error() {
    for source in [
        "enum E { #[detail(message = 5)] A }",
        "enum E { #[detail(message = true)] A }",
        "enum E { #[detail(message)] A }",
    ] {
        let expected = GenerateError::Schema(SchemaError {
            variant: "A".to_string(),
            key: "message".to_string(),
            kind: SchemaErrorKind::InvalidValue,
        });
        assert_eq!(handler(&declaration_of(source)), Err(expected), "{}", source);
    }
}

#[test]
fn a_key_given_twice_is_a_schema_error() {
    for source in [
        "enum E { #[detail(code = 1, code = 2)] A }",
        "enum E { #[detail(code = 1)] #[detail(code = 1)] A }",
        "enum E { #[detail(code = 1)] #[doc = \"between\"] #[detail(message = \"m\", code = 7)] A }",
    ] {
        let expected = GenerateError::Schema(SchemaError {
            variant: "A".to_string(),
            key: "code".to_string(),
            kind: SchemaErrorKind::DuplicateKey,
        });
        assert_eq!(handler(&declaration_of(source)), Err(expected), "{}", source);
    }
}

#[test]
fn the_keys_may_come_in_either_order_and_in_several_attributes() {
    for source in [
        "enum E { #[detail(message = \"m\", code = 7)] A }",
        "enum E { #[detail(code = 7, message = \"m\")] A }",
        "enum E { #[detail(code = 7)] #[detail(message = \"m\")] A }",
        "enum E { #[detail()] #[detail(message = \"m\")] #[allow(dead_code)] #[detail(code = 7,)] A }",
    ] {
        let descriptor = extract(&declaration_of(source)).unwrap();
        assert_eq!(descriptor.variants[0].code, Some(7), "{}", source);
        assert_eq!(descriptor.variants[0].message, Some("m".to_string()), "{}", source);
    }
}

#[test]
fn a_message_with_quotes_and_other_characters_reads_back_as_written() {
    let message = "say \"hi\" \\ to\n\tthe\rworld \u{0} \u{7f} caf\u{e9} \u{202e} \u{1f600} 'x'";
    let input = Declaration::enumeration(
        "E",
        vec![VariantDecl::unit("A")
            .with_attribute(Attribute::new("detail", vec![MetaItem::text("message", message)]))],
    );
    let text = handler(&input).unwrap();
    assert!(text.is_ascii());
    let block = syn::parse_str::<syn::ItemImpl>(&text).unwrap();
    let arms = arms_of(&block.items[2]);
    assert_eq!(arms.len(), 1);
    let call = syn::parse_str::<syn::ExprCall>(&arms[0].1).unwrap();
    assert_eq!(call.args.len(), 1);
    match &call.args[0] {
        Expr::Lit(literal) => match &literal.lit {
            Lit::Str(text) => assert_eq!(text.value(), message),
            _ => panic!("not a string literal"),
        },
        _ => panic!("not a literal"),
    }
}

#[test]
fn a_refused_declaration_expands_to_a_compile_error() {
    let input = declaration_of("struct S;");
    let text = detail_error_fn(&input);
    assert_eq!(
        text,
        "compile_error!(\"DetailError can only be derived for an enum, and `S` is not one\");\n"
    );
    let invocation = syn::parse_str::<syn::ItemMacro>(&text).unwrap();
    assert!(invocation.mac.path.is_ident("compile_error"));
    let message = invocation.mac.parse_body::<syn::LitStr>().unwrap();
    assert_eq!(
        message.value(),
        handler(&input).unwrap_err().diagnostic()
    );
}

#[test]
fn the_diagnostic_of_a_schema_error_names_the_variant_and_the_key() {
    let input = declaration_of("enum E { A, #[detail(code = 1, \"odd\")] B }");
    let text = detail_error_fn(&input);
    assert_eq!(
        text,
        "compile_error!(\"unknown key `\\\"odd\\\"` in a `detail` attribute of variant `B`\");\n"
    );
    assert!(syn::parse_str::<syn::ItemMacro>(&text).is_ok());
    let input = declaration_of("enum E { A, #[detail(code = 1, colour = \"red\")] B }");
    let text = detail_error_fn(&input);
    assert_eq!(
        text,
        "compile_error!(\"unknown key `colour` in a `detail` attribute of variant `B`\");\n"
    );
}

#[test]
fn an_enum_without_variants_gets_dispatches_without_arms() {
    let input = declaration_of("enum Never {}");
    let block = syn::parse_str::<syn::ItemImpl>(&handler(&input).unwrap()).unwrap();
    assert_eq!(block.items.len(), 3);
    for method in block.items.iter() {
        assert!(arms_of(method).is_empty());
    }
}

#[test]
fn the_same_source_gives_the_same_text_every_time() {
    let first = handler(&declaration_of(BUSINESS_ERROR)).unwrap();
    let second = handler(&declaration_of(BUSINESS_ERROR)).unwrap();
    assert_eq!(first.as_bytes(), second.as_bytes());
    let refused = "enum E { #[detail(code = 1, code = 2)] A }";
    assert_eq!(handler(&declaration_of(refused)), handler(&declaration_of(refused)));
    assert_eq!(detail_error_fn(&declaration_of(refused)), detail_error_fn(&declaration_of(refused)));
}
