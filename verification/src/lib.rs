//! Accessors for error enums, written out from the declaration.
//!
//! An error enum whose variants carry an optional numeric status and an optional message gets
//! three accessors: `get_http_code`, `get_code` and `get_message`. This crate holds the whole
//! transformation on plain values: a [`declaration::Declaration`] goes in, the text of an
//! `impl` block comes out.
//!
//! The stages are [`extract::extract`] (shape and attribute schema), [`emit::emit`] (defaults
//! and the three dispatch tables) and [`render::render`] (source text); [`handler`] runs them
//! in turn.

pub mod business_error;
pub mod declaration;
pub mod descriptor;
pub mod emit;
pub mod error;
pub mod extract;
pub mod fields;
pub mod laws;
pub mod literal;
pub mod model;
pub mod naming;
pub mod render;
pub mod schema;

use vstd::prelude::*;
use vstd::string::StringExecFns;
use crate::declaration::{Declaration, DeclarationModel};
use crate::emit::{emit, emitted};
use crate::error::{diagnostic, GenerateError, GenerateErrorModel, ShapeErrorModel};
use crate::extract::{accepted, extract, extracted};
use crate::literal::{push_string_literal, string_literal};
use crate::model::outcome;
use crate::render::{render, rendered};

verus! {

/// The text of the accessors of a declaration, or the reason why it has none.
pub open spec fn generated(declaration: DeclarationModel) -> Result<Seq<char>, GenerateErrorModel> {
    match extracted(declaration) {
        Ok(container) => Ok(rendered(emitted(container))),
        Err(error) => Err(error),
    }
}

/// An invocation of `compile_error!` with `message`: text that stops the build with that
/// message.
pub open spec fn refusal(message: Seq<char>) -> Seq<char> {
    "compile_error!("@ + string_literal(message) + ");\n"@
}

/// What a declaration expands to: its accessors, or a `compile_error!` that says why it has
/// none.
pub open spec fn expansion(declaration: DeclarationModel) -> Seq<char> {
    match generated(declaration) {
        Ok(text) => text,
        Err(error) => refusal(diagnostic(error)),
    }
}

/// Writes the accessors of a declaration.
///
/// Succeeds exactly when the declaration is an enum whose `detail` attributes all meet the
/// schema; the text is then an `impl` block with `get_http_code`, `get_code` and
/// `get_message`. A declaration that is not an enum is refused with a shape error before
/// anything is written.
pub fn handler(declaration: &Declaration) -> (result: Result<String, GenerateError>)
    ensures
        outcome(result) == generated(declaration@),
        result is Ok <==> accepted(declaration@),
        !(declaration@.shape is Enum) ==> outcome(result) == Err::<Seq<char>, GenerateErrorModel>(
            GenerateErrorModel::Shape(ShapeErrorModel { ident: declaration@.ident }),
        ),
{
    match extract(declaration) {
        Ok(container) => {
            let implementation = emit(&container);
            Ok(render(&implementation))
        },
        Err(error) => Err(error),
    }
}

/// Expands a declaration: the accessors where it is accepted, and otherwise a
/// `compile_error!` that carries the diagnostic, so that the build fails with it.
pub fn detail_error_fn(input: &Declaration) -> (output: String)
    ensures
        output@ == expansion(input@),
{
    match handler(input) {
        Ok(text) => text,
        Err(error) => {
            let message = error.diagnostic();
            let mut out = String::new();
            out.append("compile_error!(");
            push_string_literal(&mut out, message.as_str());
            out.append(");\n");
            assert(out@ =~= refusal(diagnostic(error@)));
            out
        },
    }
}

} // verus!
