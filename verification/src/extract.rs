//! From a declaration to its descriptor: only an enum has one, and the attributes of each
//! variant are read against the schema.

use vstd::prelude::*;
use crate::declaration::{Declaration, DeclarationModel, Shape, ShapeModel, VariantDecl, VariantDeclModel};
use crate::descriptor::{DetailErrorEnum, DetailErrorEnumModel, DetailErrorVariant, DetailErrorVariantModel};
use crate::error::{GenerateError, GenerateErrorModel, SchemaError, SchemaErrorModel, ShapeError, ShapeErrorModel};
use crate::model::{lemma_views_push, outcome, views};
use crate::schema::{lemma_read_items_by_item, meets_schema, options, read, settings_of};

verus! {

/// The descriptor of one variant, or the first item of its `detail` attributes that the
/// schema refuses.
pub open spec fn described(variant: VariantDeclModel) -> Result<
    DetailErrorVariantModel,
    SchemaErrorModel,
> {
    match settings_of(variant.attrs) {
        Ok(settings) => Ok(
            DetailErrorVariantModel {
                ident: variant.ident,
                fields: variant.fields,
                code: settings.code,
                message: settings.message,
            },
        ),
        Err(fault) => Err(
            SchemaErrorModel { variant: variant.ident, key: fault.key, kind: fault.kind },
        ),
    }
}

/// `done`, followed by what `rest` holds; the error of `rest` where it holds one.
pub open spec fn followed<V, E>(done: Seq<V>, rest: Result<Seq<V>, E>) -> Result<Seq<V>, E> {
    match rest {
        Ok(more) => Ok(done + more),
        Err(error) => Err(error),
    }
}

/// The descriptors of the variants in declaration order, or the error of the first variant
/// that has one.
pub open spec fn described_all(variants: Seq<VariantDeclModel>) -> Result<
    Seq<DetailErrorVariantModel>,
    SchemaErrorModel,
>
    decreases variants.len(),
{
    if variants.len() == 0 {
        Ok(Seq::empty())
    } else {
        match described(variants[0]) {
            Ok(first) => followed(seq![first], described_all(variants.drop_first())),
            Err(error) => Err(error),
        }
    }
}

/// The descriptor of a declaration. A declaration that is not an enum has none: that is a
/// shape error, whatever its attributes hold.
pub open spec fn extracted(declaration: DeclarationModel) -> Result<
    DetailErrorEnumModel,
    GenerateErrorModel,
> {
    match declaration.shape {
        ShapeModel::Enum(variants) => match described_all(variants) {
            Ok(list) => Ok(DetailErrorEnumModel { ident: declaration.ident, variants: list }),
            Err(error) => Err(GenerateErrorModel::Schema(error)),
        },
        _ => Err(GenerateErrorModel::Shape(ShapeErrorModel { ident: declaration.ident })),
    }
}

/// Whether a declaration is accepted: it is an enum, and the `detail` items of each of its
/// variants meet the schema.
pub open spec fn accepted(declaration: DeclarationModel) -> bool {
    &&& declaration.shape is Enum
    &&& forall|i: int|
        0 <= i < declaration.shape->Enum_0.len() ==> meets_schema(
            options((#[trigger] declaration.shape->Enum_0[i]).attrs),
        )
}

/// No variant before `k` is refused.
pub open spec fn described_before(variants: Seq<VariantDeclModel>, k: int) -> bool {
    forall|j: int| 0 <= j < k ==> described(#[trigger] variants[j]) is Ok
}

/// What reading the variants gives, said variant by variant.
///
/// Where every variant is accepted, there is one descriptor for each, in declaration order;
/// otherwise the error is that of the first variant that is refused.
pub proof fn lemma_described_all_by_variant(variants: Seq<VariantDeclModel>)
    ensures
        match described_all(variants) {
            Ok(list) => {
                &&& list.len() == variants.len()
                &&& forall|i: int|
                    0 <= i < variants.len() ==> described(#[trigger] variants[i]) == Ok::<
                        DetailErrorVariantModel,
                        SchemaErrorModel,
                    >(list[i])
            },
            Err(error) => exists|k: int|
                {
                    &&& 0 <= k < variants.len()
                    &&& described_before(variants, k)
                    &&& described(#[trigger] variants[k]) == Err::<
                        DetailErrorVariantModel,
                        SchemaErrorModel,
                    >(error)
                },
        },
    decreases variants.len(),
{
    if variants.len() > 0 {
        let rest = variants.drop_first();
        lemma_described_all_by_variant(rest);
        match described(variants[0]) {
            Ok(first) => {
                match described_all(rest) {
                    Ok(tail) => {
                        let list = seq![first] + tail;
                        assert(described_all(variants) == Ok::<
                            Seq<DetailErrorVariantModel>,
                            SchemaErrorModel,
                        >(list));
                        assert forall|i: int| 0 <= i < variants.len() implies described(
                            #[trigger] variants[i],
                        ) == Ok::<DetailErrorVariantModel, SchemaErrorModel>(list[i]) by {
                            if i > 0 {
                                assert(variants[i] == rest[i - 1]);
                                assert(list[i] == tail[i - 1]);
                            }
                        }
                    },
                    Err(error) => {
                        let k = choose|k: int|
                            {
                                &&& 0 <= k < rest.len()
                                &&& described_before(rest, k)
                                &&& described(#[trigger] rest[k]) == Err::<
                                    DetailErrorVariantModel,
                                    SchemaErrorModel,
                                >(error)
                            };
                        assert(variants[k + 1] == rest[k]);
                        assert forall|j: int| 0 <= j < k + 1 implies described(
                            #[trigger] variants[j],
                        ) is Ok by {
                            if j > 0 {
                                assert(variants[j] == rest[j - 1]);
                            }
                        }
                        assert(described_before(variants, k + 1));
                    },
                }
            },
            Err(error) => {
                assert(described_before(variants, 0));
            },
        }
    }
}

/// A declaration has a descriptor exactly when it is accepted.
pub proof fn lemma_extracted_when_accepted(declaration: DeclarationModel)
    ensures
        extracted(declaration) is Ok <==> accepted(declaration),
{
    if declaration.shape is Enum {
        let declared = declaration.shape->Enum_0;
        lemma_described_all_by_variant(declared);
        assert forall|i: int| 0 <= i < declared.len() implies (described(
            #[trigger] declared[i],
        ) is Ok <==> meets_schema(options(declared[i].attrs))) by {
            lemma_read_items_by_item(options(declared[i].attrs));
        }
    }
}

/// Reads one variant.
///
/// Succeeds exactly when the `detail` items of the variant meet the schema.
pub fn describe(variant: &VariantDecl) -> (result: Result<DetailErrorVariant, SchemaError>)
    ensures
        outcome(result) == described(variant@),
        result is Ok <==> meets_schema(options(variant@.attrs)),
{
    proof {
        lemma_read_items_by_item(options(variant@.attrs));
    }
    match read(&variant.attrs) {
        Ok(settings) => Ok(
            DetailErrorVariant {
                ident: variant.ident.clone(),
                fields: variant.fields.copied(),
                code: settings.code,
                message: settings.message,
            },
        ),
        Err(fault) => Err(
            SchemaError { variant: variant.ident.clone(), key: fault.key, kind: fault.kind },
        ),
    }
}

/// Reads a declaration into its descriptor.
///
/// Fails with a shape error exactly when the declaration is not an enum, and with a schema
/// error exactly when it is one and some variant carries a `detail` item that the schema
/// refuses; the error then names the first such variant and the key of its first such item.
pub fn extract(declaration: &Declaration) -> (result: Result<DetailErrorEnum, GenerateError>)
    ensures
        outcome(result) == extracted(declaration@),
        result is Ok <==> accepted(declaration@),
        !(declaration@.shape is Enum) ==> outcome(result) == Err::<
            DetailErrorEnumModel,
            GenerateErrorModel,
        >(GenerateErrorModel::Shape(ShapeErrorModel { ident: declaration@.ident })),
{
    proof {
        lemma_extracted_when_accepted(declaration@);
    }
    match &declaration.shape {
        Shape::Enum(variants) => {
            let ghost all = views(variants@);
            let mut list: Vec<DetailErrorVariant> = Vec::new();
            let mut i: usize = 0;
            assert(all.skip(0) =~= all);
            while i < variants.len()
                invariant
                    i <= variants.len(),
                    all == views(variants@),
                    declaration@.shape == ShapeModel::Enum(all),
                    described_all(all) == followed(
                        views(list@),
                        described_all(all.skip(i as int)),
                    ),
                decreases variants.len() - i,
            {
                let ghost rest = all.skip(i as int);
                proof {
                    assert(rest[0] == variants@[i as int]@);
                    assert(rest.drop_first() =~= all.skip(i + 1));
                }
                match describe(&variants[i]) {
                    Ok(variant) => {
                        proof {
                            lemma_views_push(list@, variant);
                            let tail = described_all(all.skip(i + 1));
                            if tail is Ok {
                                assert(views(list@) + (seq![variant@] + tail->Ok_0) =~= views(
                                    list@,
                                ).push(variant@) + tail->Ok_0);
                            }
                        }
                        list.push(variant);
                    },
                    Err(error) => {
                        return Err(GenerateError::Schema(error));
                    },
                }
                i += 1;
            }
            proof {
                assert(all.skip(i as int).len() == 0);
                assert(views(list@) + Seq::<DetailErrorVariantModel>::empty() =~= views(list@));
            }
            Ok(DetailErrorEnum { ident: declaration.ident.clone(), variants: list })
        },
        _ => Err(GenerateError::Shape(ShapeError { ident: declaration.ident.clone() })),
    }
}

} // verus!
