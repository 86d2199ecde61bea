//! An error enum of two variants with its accessors written out by hand: the first variant
//! configures nothing, the second a status and a message.

use vstd::prelude::*;
use vstd::string::StringExecFns;
use crate::declaration::{Attribute, AttributeModel, Declaration, DeclarationModel, MetaItem, MetaItemModel, MetaValueModel, ShapeModel, VariantDecl, VariantDeclModel};
use crate::descriptor::{DetailErrorEnumModel, DetailErrorVariantModel};
use crate::emit::{http_code_of, message_of};
use crate::error::GenerateErrorModel;
use crate::extract::{described, described_all, extracted};
use crate::fields::{FieldsModel, Style};
use crate::model::views;
use crate::schema::{lemma_keys_differ, options, read_items};

verus! {

/// What can go wrong when an account is opened.
///
/// ```text
/// pub enum BusinessError {
///     InvalidEmail,
///     #[detail(code = 500, message = "this is an invalid password")]
///     InvalidPassword,
/// }
/// ```
#[derive(Clone, Copy, Debug, PartialEq, Eq, Structural)]
pub enum BusinessError {
    InvalidEmail,
    InvalidPassword,
}

/// The declaration of [`BusinessError`].
pub open spec fn business_error_declaration() -> DeclarationModel {
    DeclarationModel {
        ident: "BusinessError"@,
        shape: ShapeModel::Enum(
            seq![
                VariantDeclModel {
                    ident: "InvalidEmail"@,
                    fields: FieldsModel { style: Style::Unit, fields: Seq::empty() },
                    attrs: Seq::empty(),
                },
                VariantDeclModel {
                    ident: "InvalidPassword"@,
                    fields: FieldsModel { style: Style::Unit, fields: Seq::empty() },
                    attrs: seq![
                        AttributeModel {
                            path: "detail"@,
                            items: seq![
                                MetaItemModel { key: "code"@, value: MetaValueModel::Int(500) },
                                MetaItemModel {
                                    key: "message"@,
                                    value: MetaValueModel::Str("this is an invalid password"@),
                                },
                            ],
                        },
                    ],
                },
            ],
        ),
    }
}

impl BusinessError {
    /// The status to answer with.
    pub fn get_http_code(&self) -> (status: u16)
        ensures
            status == match self {
                BusinessError::InvalidEmail => 400u16,
                BusinessError::InvalidPassword => 500u16,
            },
    {
        match self {
            BusinessError::InvalidEmail => 400u16,
            BusinessError::InvalidPassword => 500u16,
        }
    }

    /// The code by which a program tells the errors apart.
    pub fn get_code(&self) -> (code: String)
        ensures
            code@ == match self {
                BusinessError::InvalidEmail => "INVALID_EMAIL"@,
                BusinessError::InvalidPassword => "INVALID_PASSWORD"@,
            },
    {
        match self {
            BusinessError::InvalidEmail => String::from_str("INVALID_EMAIL"),
            BusinessError::InvalidPassword => String::from_str("INVALID_PASSWORD"),
        }
    }

    /// The message to show.
    pub fn get_message(&self) -> (message: String)
        ensures
            message@ == match self {
                BusinessError::InvalidEmail => "Invalid email"@,
                BusinessError::InvalidPassword => "this is an invalid password"@,
            },
    {
        match self {
            BusinessError::InvalidEmail => String::from_str("Invalid email"),
            BusinessError::InvalidPassword => String::from_str("this is an invalid password"),
        }
    }

    /// The declaration of this enum, as the generator reads it.
    pub fn declaration() -> (declaration: Declaration)
        ensures
            declaration@ == business_error_declaration(),
    {
        let mut items: Vec<MetaItem> = Vec::new();
        items.push(MetaItem::integer("code", 500));
        items.push(MetaItem::text("message", "this is an invalid password"));
        let detail = Attribute::new("detail", items);
        let mut variants: Vec<VariantDecl> = Vec::new();
        variants.push(VariantDecl::unit("InvalidEmail"));
        variants.push(VariantDecl::unit("InvalidPassword").with_attribute(detail));
        let declaration = Declaration::enumeration("BusinessError", variants);
        proof {
            let expected = business_error_declaration();
            assert(detail@.items =~= expected.shape->Enum_0[1].attrs[0].items);
            assert(variants@[1]@.attrs =~= expected.shape->Enum_0[1].attrs);
            assert(views(variants@) =~= expected.shape->Enum_0);
        }
        declaration
    }
}

/// The descriptor of [`BusinessError`]: what its declaration is read into.
pub open spec fn business_error_descriptor() -> DetailErrorEnumModel {
    DetailErrorEnumModel {
        ident: "BusinessError"@,
        variants: seq![
            DetailErrorVariantModel {
                ident: "InvalidEmail"@,
                fields: FieldsModel { style: Style::Unit, fields: Seq::empty() },
                code: None,
                message: None,
            },
            DetailErrorVariantModel {
                ident: "InvalidPassword"@,
                fields: FieldsModel { style: Style::Unit, fields: Seq::empty() },
                code: Some(500u16),
                message: Some("this is an invalid password"@),
            },
        ],
    }
}

/// The declaration of [`BusinessError`] is accepted, and the statuses and the configured
/// message that the accessors above return are those of its descriptor.
pub proof fn lemma_business_error_is_accepted()
    ensures
        extracted(business_error_declaration()) == Ok::<DetailErrorEnumModel, GenerateErrorModel>(
            business_error_descriptor(),
        ),
        http_code_of(business_error_descriptor().variants[0]) == 400,
        http_code_of(business_error_descriptor().variants[1]) == 500,
        message_of(business_error_descriptor().variants[1]) == "this is an invalid password"@,
{
    lemma_keys_differ();
    let declared = business_error_declaration().shape->Enum_0;
    let plain = declared[0];
    let configured = declared[1];
    assert(options(plain.attrs) =~= Seq::<MetaItemModel>::empty());
    assert(described(plain) is Ok);
    let detail = configured.attrs[0];
    assert(configured.attrs.drop_first() =~= Seq::<AttributeModel>::empty());
    assert(options(configured.attrs.drop_first()) =~= Seq::<MetaItemModel>::empty());
    assert(options(configured.attrs) =~= detail.items);
    let items = detail.items;
    assert(items.drop_first() =~= seq![items[1]]);
    assert(items.drop_first().drop_first() =~= Seq::<MetaItemModel>::empty());
    reveal_with_fuel(read_items, 3);
    assert(described(configured) is Ok);
    assert(declared.drop_first() =~= seq![configured]);
    assert(declared.drop_first().drop_first() =~= Seq::<VariantDeclModel>::empty());
    reveal_with_fuel(described_all, 3);
    assert(described_all(declared)->Ok_0 =~= business_error_descriptor().variants);
}

} // verus!
