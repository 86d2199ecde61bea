//! What holds of every declaration, stated over the models that the contracts use.

use vstd::prelude::*;
use crate::declaration::{Declaration, MetaItemModel, MetaValueModel, VariantDecl};
use crate::descriptor::{DetailErrorEnum, DetailErrorVariantModel};
use crate::emit::{code_arm, code_of, emitted, http_code_arm, http_code_of, message_arm, message_of};
use crate::error::{diagnostic, GenerateErrorModel, SchemaErrorModel, ShapeErrorModel};
use crate::extract::{accepted, described, described_before, extracted, lemma_described_all_by_variant, lemma_extracted_when_accepted};
use crate::literal::{decimal, digit_value, lemma_numeral_reads_back, lemma_string_literal_reads_back, numeral_value, read_literal, string_literal};
use crate::naming::{screaming_snake_case, sentence_case};
use crate::schema::{accepted_before, code_key, lemma_read_items_by_item, mentions, message_key, options, refusal_of, settings_of, writes_code, writes_message, DEFAULT_HTTP_CODE};

use crate::{expansion, generated, refusal};

verus! {

/// The output is a function of the declaration: two declarations that are equal as values
/// give the same text, character for character, or the same error.
pub proof fn law_generation_is_deterministic(first: Declaration, second: Declaration)
    requires
        first@ == second@,
    ensures
        generated(first@) == generated(second@),
        expansion(first@) == expansion(second@),
{
}

/// Each of the three dispatches has exactly one arm for each variant of the descriptor, in
/// declaration order: the arm at a variant's place matches that variant and returns that
/// variant's status, code or message.
pub proof fn law_dispatch_is_exhaustive(container: DetailErrorEnum)
    ensures
        emitted(container@).ident == container@.ident,
        emitted(container@).http_code.len() == container@.variants.len(),
        emitted(container@).code.len() == container@.variants.len(),
        emitted(container@).message.len() == container@.variants.len(),
        forall|i: int|
            0 <= i < container@.variants.len() ==> {
                let variant = #[trigger] container@.variants[i];
                &&& emitted(container@).http_code[i] == http_code_arm(variant)
                &&& emitted(container@).code[i] == code_arm(variant)
                &&& emitted(container@).message[i] == message_arm(variant)
                &&& emitted(container@).http_code[i].variant == variant.ident
                &&& emitted(container@).code[i].variant == variant.ident
                &&& emitted(container@).message[i].variant == variant.ident
                &&& emitted(container@).http_code[i].style == variant.fields.style
                &&& emitted(container@).code[i].style == variant.fields.style
                &&& emitted(container@).message[i].style == variant.fields.style
            },
{
}

/// The dispatches of an accepted declaration cover the declared variants: as many arms as
/// the enum declares variants, and the arm at a variant's place carries the declared name
/// and ignores fields written the declared way.
pub proof fn law_every_declared_variant_has_its_arms(declaration: Declaration)
    requires
        extracted(declaration@) is Ok,
    ensures
        declaration@.shape is Enum,
        ({
            let declared = declaration@.shape->Enum_0;
            let implementation = emitted(extracted(declaration@)->Ok_0);
            &&& implementation.ident == declaration@.ident
            &&& implementation.http_code.len() == declared.len()
            &&& implementation.code.len() == declared.len()
            &&& implementation.message.len() == declared.len()
            &&& forall|i: int|
                0 <= i < declared.len() ==> {
                    &&& implementation.http_code[i].variant == (#[trigger] declared[i]).ident
                    &&& implementation.code[i].variant == declared[i].ident
                    &&& implementation.message[i].variant == declared[i].ident
                    &&& implementation.http_code[i].style == declared[i].fields.style
                    &&& implementation.code[i].style == declared[i].fields.style
                    &&& implementation.message[i].style == declared[i].fields.style
                }
        }),
{
    let declared = declaration@.shape->Enum_0;
    lemma_described_all_by_variant(declared);
}

/// A declaration that is not an enum is refused with a shape error that names it, and
/// expands to nothing but the diagnostic; no accessor is written for it.
pub proof fn law_what_is_no_enum_is_refused(declaration: Declaration)
    requires
        !(declaration@.shape is Enum),
    ensures
        generated(declaration@) == Err::<Seq<char>, GenerateErrorModel>(
            GenerateErrorModel::Shape(ShapeErrorModel { ident: declaration@.ident }),
        ),
        extracted(declaration@) is Err,
{
}

/// A declaration gets its accessors exactly when it is an enum and the `detail` items of
/// each of its variants meet the schema: every key known and given once, every value of its
/// key's type.
pub proof fn law_accepted_declarations(declaration: Declaration)
    ensures
        generated(declaration@) is Ok <==> accepted(declaration@),
{
    lemma_extracted_when_accepted(declaration@);
}

/// The schema error of a declaration is that of the first variant that is refused, and
/// there that of the first refused item: it carries the variant's name, the item's key and
/// what is wrong with the item.
pub proof fn law_schema_error_is_the_first_refusal(declaration: Declaration)
    requires
        generated(declaration@) matches Err(GenerateErrorModel::Schema(_)),
    ensures
        declaration@.shape is Enum,
        ({
            let declared = declaration@.shape->Enum_0;
            let error = generated(declaration@)->Err_0->Schema_0;
            exists|v: int, k: int|
                {
                    &&& 0 <= v < declared.len()
                    &&& described_before(declared, v)
                    &&& error.variant == declared[v].ident
                    &&& 0 <= k < options(declared[v].attrs).len()
                    &&& accepted_before(options(declared[v].attrs), k)
                    &&& #[trigger] refusal_of(options(declared[v].attrs), k) == Some(error.kind)
                    &&& options(declared[v].attrs)[k].key == error.key
                }
        }),
{
    let declared = declaration@.shape->Enum_0;
    let error = generated(declaration@)->Err_0->Schema_0;
    lemma_described_all_by_variant(declared);
    let v = choose|v: int|
        {
            &&& 0 <= v < declared.len()
            &&& described_before(declared, v)
            &&& described(#[trigger] declared[v]) == Err::<
                DetailErrorVariantModel,
                SchemaErrorModel,
            >(error)
        };
    let items = options(declared[v].attrs);
    lemma_read_items_by_item(items);
    let fault = settings_of(declared[v].attrs)->Err_0;
    let k = choose|k: int|
        {
            &&& 0 <= k < items.len()
            &&& accepted_before(items, k)
            &&& #[trigger] refusal_of(items, k) == Some(fault.kind)
            &&& items[k].key == fault.key
        };
    assert(refusal_of(options(declared[v].attrs), k) == Some(error.kind));
}

/// A key that an accepted variant does not write gets its default: the status 400, the
/// message the variant's name in sentence case. The code string is the name in upper snake
/// case whatever is written.
pub proof fn law_unwritten_keys_get_the_defaults(variant: VariantDecl)
    requires
        described(variant@) is Ok,
    ensures
        described(variant@)->Ok_0.ident == variant@.ident,
        described(variant@)->Ok_0.fields == variant@.fields,
        code_of(described(variant@)->Ok_0) == screaming_snake_case(variant@.ident),
        !mentions(options(variant@.attrs), code_key()) ==> http_code_of(described(variant@)->Ok_0)
            == DEFAULT_HTTP_CODE,
        !mentions(options(variant@.attrs), message_key()) ==> message_of(
            described(variant@)->Ok_0,
        ) == sentence_case(variant@.ident),
{
    let items = options(variant@.attrs);
    lemma_read_items_by_item(items);
    let settings = settings_of(variant@.attrs)->Ok_0;
    if settings.code is Some {
        let status = settings.code->Some_0;
        let k = choose|k: int|
            0 <= k < items.len() && #[trigger] items[k] == (MetaItemModel {
                key: code_key(),
                value: MetaValueModel::Int(status as u64),
            });
        assert(items[k].key == code_key());
        assert(mentions(items, code_key()));
    }
    if settings.message is Some {
        let text = settings.message->Some_0;
        let k = choose|k: int|
            0 <= k < items.len() && #[trigger] items[k] == (MetaItemModel {
                key: message_key(),
                value: MetaValueModel::Str(text),
            });
        assert(items[k].key == message_key());
        assert(mentions(items, message_key()));
    }
}

/// What an accepted variant writes is what its accessors return: `code = status` makes the
/// status `status`, `message = "text"` makes the message `text`, and the defaults play no
/// part.
pub proof fn law_written_values_take_precedence(variant: VariantDecl, status: u16, text: Seq<char>)
    requires
        described(variant@) is Ok,
    ensures
        writes_code(options(variant@.attrs), status) ==> http_code_of(described(variant@)->Ok_0)
            == status,
        writes_message(options(variant@.attrs), text) ==> message_of(described(variant@)->Ok_0)
            == text,
{
    let items = options(variant@.attrs);
    lemma_read_items_by_item(items);
    let settings = settings_of(variant@.attrs)->Ok_0;
    if writes_code(items, status) {
        let k = choose|k: int|
            0 <= k < items.len() && #[trigger] items[k] == (MetaItemModel {
                key: code_key(),
                value: MetaValueModel::Int(status as u64),
            });
        assert(items[k].key == code_key());
        assert(mentions(items, code_key()));
        let held = settings.code->Some_0;
        let j = choose|j: int|
            0 <= j < items.len() && #[trigger] items[j] == (MetaItemModel {
                key: code_key(),
                value: MetaValueModel::Int(held as u64),
            });
        if j < k {
            assert(items[j].key == items[k].key);
            assert(refusal_of(items, k) is None);
        } else if k < j {
            assert(items[k].key == items[j].key);
            assert(refusal_of(items, j) is None);
        }
        assert(held == status);
    }
    if writes_message(items, text) {
        let k = choose|k: int|
            0 <= k < items.len() && #[trigger] items[k] == (MetaItemModel {
                key: message_key(),
                value: MetaValueModel::Str(text),
            });
        assert(items[k].key == message_key());
        assert(mentions(items, message_key()));
        let held = settings.message->Some_0;
        let j = choose|j: int|
            0 <= j < items.len() && #[trigger] items[j] == (MetaItemModel {
                key: message_key(),
                value: MetaValueModel::Str(held),
            });
        if j < k {
            assert(items[j].key == items[k].key);
            assert(refusal_of(items, k) is None);
        } else if k < j {
            assert(items[k].key == items[j].key);
            assert(refusal_of(items, j) is None);
        }
        assert(held == text);
    }
}

/// The status in an arm of `get_http_code` is written so that it reads back as the status:
/// its digits are decimal digits and denote that number.
pub proof fn law_status_reads_back(status: u16)
    ensures
        decimal(status as nat).len() >= 1,
        forall|i: int|
            0 <= i < decimal(status as nat).len() ==> digit_value(
                #[trigger] decimal(status as nat)[i],
            ) < 10,
        numeral_value(decimal(status as nat), 10) == status,
{
    lemma_numeral_reads_back(status as nat, 10);
}

/// The string literal in an arm of `get_code` or `get_message` denotes the arm's string,
/// whatever characters that holds, and ends where it was closed: nothing in the string can
/// end the literal early or run into the text after it.
pub proof fn law_string_literal_reads_back(text: Seq<char>, rest: Seq<char>)
    ensures
        read_literal(string_literal(text) + rest) == (text, rest),
{
    lemma_string_literal_reads_back(text, rest);
}

/// A refused declaration expands to one invocation of `compile_error!`, and the literal in
/// it denotes the diagnostic of the error: the build fails with the reason, and nothing of
/// an accessor is written.
pub proof fn law_refusal_carries_the_diagnostic(declaration: Declaration)
    requires
        generated(declaration@) is Err,
    ensures
        expansion(declaration@) == refusal(diagnostic(generated(declaration@)->Err_0)),
        read_literal(string_literal(diagnostic(generated(declaration@)->Err_0)) + ");\n"@) == (
            diagnostic(generated(declaration@)->Err_0),
            ");\n"@,
        ),
{
    lemma_string_literal_reads_back(diagnostic(generated(declaration@)->Err_0), ");\n"@);
}

} // verus!
