//! From a descriptor to the three dispatch tables: defaults are applied, and each accessor
//! gets one arm for each variant, in declaration order.

use vstd::prelude::*;
use crate::descriptor::{DetailErrorEnum, DetailErrorEnumModel, DetailErrorVariant, DetailErrorVariantModel};
use crate::fields::Style;
use crate::model::{lemma_views_push, views};
use crate::naming::{default_code, default_message, screaming_snake_case, sentence_case};
use crate::schema::DEFAULT_HTTP_CODE;

verus! {

/// One arm of `get_http_code`: the variant it matches, how that variant's fields are
/// written, and the status it returns.
#[derive(Clone, Debug, PartialEq, Eq)]
pub struct StatusArm {
    pub variant: String,
    pub style: Style,
    pub status: u16,
}

/// The model of a [`StatusArm`].
pub struct StatusArmModel {
    pub variant: Seq<char>,
    pub style: Style,
    pub status: u16,
}

impl View for StatusArm {
    type V = StatusArmModel;

    open spec fn view(&self) -> StatusArmModel {
        StatusArmModel { variant: self.variant@, style: self.style, status: self.status }
    }
}

/// One arm of `get_code` or of `get_message`: the variant it matches, how that variant's
/// fields are written, and the string it returns.
#[derive(Clone, Debug, PartialEq, Eq)]
pub struct TextArm {
    pub variant: String,
    pub style: Style,
    pub text: String,
}

/// The model of a [`TextArm`].
pub struct TextArmModel {
    pub variant: Seq<char>,
    pub style: Style,
    pub text: Seq<char>,
}

impl View for TextArm {
    type V = TextArmModel;

    open spec fn view(&self) -> TextArmModel {
        TextArmModel { variant: self.variant@, style: self.style, text: self.text@ }
    }
}

impl StatusArm {
    /// The arm that returns `status` for `variant`.
    pub fn new(variant: &str, style: Style, status: u16) -> (arm: StatusArm)
        ensures
            arm@ == (StatusArmModel { variant: variant@, style, status }),
    {
        StatusArm { variant: variant.to_owned(), style, status }
    }
}

impl TextArm {
    /// The arm that returns `text` for `variant`.
    pub fn new(variant: &str, style: Style, text: String) -> (arm: TextArm)
        ensures
            arm@ == (TextArmModel { variant: variant@, style, text: text@ }),
    {
        TextArm { variant: variant.to_owned(), style, text }
    }
}

/// The accessors of one enum, each as its list of arms.
#[derive(Clone, Debug, PartialEq, Eq)]
pub struct Implementation {
    /// The name of the enum.
    pub ident: String,
    /// The arms of `get_http_code`.
    pub http_code: Vec<StatusArm>,
    /// The arms of `get_code`.
    pub code: Vec<TextArm>,
    /// The arms of `get_message`.
    pub message: Vec<TextArm>,
}

/// The model of an [`Implementation`].
pub struct ImplementationModel {
    pub ident: Seq<char>,
    pub http_code: Seq<StatusArmModel>,
    pub code: Seq<TextArmModel>,
    pub message: Seq<TextArmModel>,
}

impl View for Implementation {
    type V = ImplementationModel;

    open spec fn view(&self) -> ImplementationModel {
        ImplementationModel {
            ident: self.ident@,
            http_code: views(self.http_code@),
            code: views(self.code@),
            message: views(self.message@),
        }
    }
}

/// The status of a variant: the configured one, 400 where none is.
pub open spec fn http_code_of(variant: DetailErrorVariantModel) -> u16 {
    match variant.code {
        Some(code) => code,
        None => DEFAULT_HTTP_CODE,
    }
}

/// The code string of a variant: its name in upper snake case.
pub open spec fn code_of(variant: DetailErrorVariantModel) -> Seq<char> {
    screaming_snake_case(variant.ident)
}

/// The message of a variant: the configured one, its name in sentence case where none is.
pub open spec fn message_of(variant: DetailErrorVariantModel) -> Seq<char> {
    match variant.message {
        Some(message) => message,
        None => sentence_case(variant.ident),
    }
}

/// The arm of `get_http_code` for a variant.
pub open spec fn http_code_arm(variant: DetailErrorVariantModel) -> StatusArmModel {
    StatusArmModel {
        variant: variant.ident,
        style: variant.fields.style,
        status: http_code_of(variant),
    }
}

/// The arm of `get_code` for a variant.
pub open spec fn code_arm(variant: DetailErrorVariantModel) -> TextArmModel {
    TextArmModel { variant: variant.ident, style: variant.fields.style, text: code_of(variant) }
}

/// The arm of `get_message` for a variant.
pub open spec fn message_arm(variant: DetailErrorVariantModel) -> TextArmModel {
    TextArmModel {
        variant: variant.ident,
        style: variant.fields.style,
        text: message_of(variant),
    }
}

/// The accessors of an enum: each has one arm for each variant, in declaration order.
pub open spec fn emitted(container: DetailErrorEnumModel) -> ImplementationModel {
    ImplementationModel {
        ident: container.ident,
        http_code: Seq::new(container.variants.len(), |i: int| http_code_arm(container.variants[i])),
        code: Seq::new(container.variants.len(), |i: int| code_arm(container.variants[i])),
        message: Seq::new(container.variants.len(), |i: int| message_arm(container.variants[i])),
    }
}

impl DetailErrorVariant {
    /// The status that `get_http_code` returns for this variant.
    pub fn http_code(&self) -> (status: u16)
        ensures
            status == http_code_of(self@),
    {
        match self.code {
            Some(code) => code,
            None => DEFAULT_HTTP_CODE,
        }
    }

    /// The string that `get_code` returns for this variant.
    pub fn code_string(&self) -> (text: String)
        ensures
            text@ == code_of(self@),
    {
        default_code(self.ident.as_str())
    }

    /// The string that `get_message` returns for this variant.
    pub fn message_string(&self) -> (text: String)
        ensures
            text@ == message_of(self@),
    {
        match &self.message {
            Some(message) => message.clone(),
            None => default_message(self.ident.as_str()),
        }
    }
}

/// Writes the three dispatch tables of an enum.
///
/// Each table has exactly one arm for each variant, in declaration order, under the
/// variant's name and with the variant's way of writing its fields, whatever the variants
/// configure.
pub fn emit(container: &DetailErrorEnum) -> (implementation: Implementation)
    ensures
        implementation@ == emitted(container@),
        implementation@.http_code.len() == container@.variants.len(),
        implementation@.code.len() == container@.variants.len(),
        implementation@.message.len() == container@.variants.len(),
        forall|i: int|
            0 <= i < container@.variants.len() ==> {
                &&& (#[trigger] implementation@.http_code[i]).variant
                    == container@.variants[i].ident
                &&& (#[trigger] implementation@.code[i]).variant == container@.variants[i].ident
                &&& (#[trigger] implementation@.message[i]).variant
                    == container@.variants[i].ident
                &&& implementation@.http_code[i].style == container@.variants[i].fields.style
                &&& implementation@.code[i].style == container@.variants[i].fields.style
                &&& implementation@.message[i].style == container@.variants[i].fields.style
            },
{
    let ghost all = views(container.variants@);
    let mut http_code: Vec<StatusArm> = Vec::new();
    let mut code: Vec<TextArm> = Vec::new();
    let mut message: Vec<TextArm> = Vec::new();
    let mut i: usize = 0;
    while i < container.variants.len()
        invariant
            i <= container.variants.len(),
            all == views(container.variants@),
            views(http_code@) =~= Seq::new(i as nat, |k: int| http_code_arm(all[k])),
            views(code@) =~= Seq::new(i as nat, |k: int| code_arm(all[k])),
            views(message@) =~= Seq::new(i as nat, |k: int| message_arm(all[k])),
        decreases container.variants.len() - i,
    {
        let variant = &container.variants[i];
        let name = variant.ident.as_str();
        let style = variant.fields.style;
        let status_arm = StatusArm::new(name, style, variant.http_code());
        let code_arm = TextArm::new(name, style, variant.code_string());
        let message_arm = TextArm::new(name, style, variant.message_string());
        proof {
            lemma_views_push(http_code@, status_arm);
            lemma_views_push(code@, code_arm);
            lemma_views_push(message@, message_arm);
        }
        http_code.push(status_arm);
        code.push(code_arm);
        message.push(message_arm);
        i += 1;
    }
    let implementation = Implementation {
        ident: container.ident.clone(),
        http_code,
        code,
        message,
    };
    proof {
        assert(implementation@.http_code =~= emitted(container@).http_code);
        assert(implementation@.code =~= emitted(container@).code);
        assert(implementation@.message =~= emitted(container@).message);
    }
    implementation
}

} // verus!
