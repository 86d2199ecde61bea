//! The fields of a variant or of a record. They are carried along and never read.

use vstd::prelude::*;
use crate::model::{lemma_views_push, optional_text, views};

verus! {

/// How a list of fields is written: not at all, in round brackets, or in braces with names.
#[derive(Clone, Copy, Debug, PartialEq, Eq, Structural)]
pub enum Style {
    Unit,
    Tuple,
    Struct,
}

/// One field: its name, where it has one, the text of its type, and whether it is marked to
/// be skipped.
#[derive(Clone, Debug, PartialEq, Eq)]
pub struct LoremField {
    pub ident: Option<String>,
    pub ty: String,
    pub skip: bool,
}

/// The model of a [`LoremField`].
pub struct LoremFieldModel {
    pub ident: Option<Seq<char>>,
    pub ty: Seq<char>,
    pub skip: bool,
}

impl View for LoremField {
    type V = LoremFieldModel;

    open spec fn view(&self) -> LoremFieldModel {
        LoremFieldModel { ident: optional_text(self.ident), ty: self.ty@, skip: self.skip }
    }
}

impl LoremField {
    /// A field with a name.
    pub fn named(ident: &str, ty: &str) -> (field: LoremField)
        ensures
            field@ == (LoremFieldModel { ident: Some(ident@), ty: ty@, skip: false }),
    {
        LoremField { ident: Some(ident.to_owned()), ty: ty.to_owned(), skip: false }
    }

    /// A field without a name, as in a tuple.
    pub fn unnamed(ty: &str) -> (field: LoremField)
        ensures
            field@ == (LoremFieldModel { ident: None, ty: ty@, skip: false }),
    {
        LoremField { ident: None, ty: ty.to_owned(), skip: false }
    }

    /// The same field, marked to be skipped.
    pub fn skipped(self) -> (field: LoremField)
        ensures
            field@ == (LoremFieldModel { skip: true, ..self@ }),
    {
        LoremField { ident: self.ident, ty: self.ty, skip: true }
    }

    /// A field equal to this one.
    pub fn copied(&self) -> (field: LoremField)
        ensures
            field@ == self@,
    {
        LoremField { ident: self.ident.clone(), ty: self.ty.clone(), skip: self.skip }
    }
}

/// A list of fields and the way it is written.
#[derive(Clone, Debug, PartialEq, Eq)]
pub struct Fields {
    pub style: Style,
    pub fields: Vec<LoremField>,
}

/// The model of [`Fields`].
pub struct FieldsModel {
    pub style: Style,
    pub fields: Seq<LoremFieldModel>,
}

impl View for Fields {
    type V = FieldsModel;

    open spec fn view(&self) -> FieldsModel {
        FieldsModel { style: self.style, fields: views(self.fields@) }
    }
}

impl Fields {
    /// No fields at all.
    pub fn unit() -> (fields: Fields)
        ensures
            fields@ == (FieldsModel { style: Style::Unit, fields: Seq::empty() }),
    {
        let fields = Fields { style: Style::Unit, fields: Vec::new() };
        assert(fields@.fields =~= Seq::empty());
        fields
    }

    /// Fields equal to these, in the same order.
    pub fn copied(&self) -> (fields: Fields)
        ensures
            fields@ == self@,
    {
        let mut list: Vec<LoremField> = Vec::new();
        let mut i: usize = 0;
        while i < self.fields.len()
            invariant
                i <= self.fields.len(),
                views(list@) == views(self.fields@.take(i as int)),
            decreases self.fields.len() - i,
        {
            let field = self.fields[i].copied();
            proof {
                lemma_views_push(list@, field);
                lemma_views_push(self.fields@.take(i as int), self.fields@[i as int]);
                assert(self.fields@.take(i as int).push(self.fields@[i as int])
                    =~= self.fields@.take(i + 1));
            }
            list.push(field);
            i += 1;
        }
        assert(self.fields@.take(i as int) =~= self.fields@);
        Fields { style: self.style, fields: list }
    }
}

} // verus!
