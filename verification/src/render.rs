//! The accessors as source text.

use vstd::prelude::*;
use vstd::string::StringExecFns;
use crate::emit::{Implementation, ImplementationModel, StatusArm, StatusArmModel, TextArm, TextArmModel};
use crate::fields::Style;
use crate::literal::{decimal, push_numeral, push_string_literal, string_literal};
use crate::model::views;

verus! {

/// What stands for the fields in a pattern that binds none of them: nothing for a variant
/// without fields, `(..)` for fields in round brackets, `{ .. }` for fields in braces.
pub open spec fn ignored_fields(style: Style) -> Seq<char> {
    match style {
        Style::Unit => ""@,
        Style::Tuple => "(..)"@,
        Style::Struct => " { .. }"@,
    }
}

/// The pattern that matches one variant whatever its fields hold: the path of the variant,
/// and the fields ignored.
pub open spec fn pattern_text(ident: Seq<char>, variant: Seq<char>, style: Style) -> Seq<char> {
    ident + "::"@ + variant + ignored_fields(style)
}

/// One arm of `get_http_code`, on a line of its own: the pattern of the variant, `=>`, and
/// the status as a `u16` literal.
pub open spec fn status_arm_text(ident: Seq<char>, arm: StatusArmModel) -> Seq<char> {
    "            "@ + pattern_text(ident, arm.variant, arm.style) + " => "@ + decimal(
        arm.status as nat,
    ) + "u16,\n"@
}

/// One arm of `get_code` or `get_message`, on a line of its own: the pattern of the
/// variant, `=>`, and the string, made from a literal.
pub open spec fn text_arm_text(ident: Seq<char>, arm: TextArmModel) -> Seq<char> {
    "            "@ + pattern_text(ident, arm.variant, arm.style) + " => String::from("@
        + string_literal(arm.text) + "),\n"@
}

/// The arms of `get_http_code`, one after the other.
pub open spec fn status_arms_text(ident: Seq<char>, arms: Seq<StatusArmModel>) -> Seq<char>
    decreases arms.len(),
{
    if arms.len() == 0 {
        Seq::empty()
    } else {
        status_arms_text(ident, arms.drop_last()) + status_arm_text(ident, arms.last())
    }
}

/// The arms of `get_code` or `get_message`, one after the other.
pub open spec fn text_arms_text(ident: Seq<char>, arms: Seq<TextArmModel>) -> Seq<char>
    decreases arms.len(),
{
    if arms.len() == 0 {
        Seq::empty()
    } else {
        text_arms_text(ident, arms.drop_last()) + text_arm_text(ident, arms.last())
    }
}

/// The first lines of an accessor, down to the `match`.
pub open spec fn accessor_head(name: Seq<char>, result_type: Seq<char>) -> Seq<char> {
    "    pub fn "@ + name + "(&self) -> "@ + result_type + " {\n        match self {\n"@
}

/// The last lines of an accessor.
pub open spec fn accessor_tail() -> Seq<char> {
    "        }\n    }\n"@
}

/// The `impl` block with the three accessors, each a single `match` on `self` whose arms
/// bind no fields.
pub open spec fn rendered(implementation: ImplementationModel) -> Seq<char> {
    "impl "@ + implementation.ident + " {\n"@
        + accessor_head("get_http_code"@, "u16"@)
        + status_arms_text(implementation.ident, implementation.http_code)
        + accessor_tail()
        + accessor_head("get_code"@, "String"@)
        + text_arms_text(implementation.ident, implementation.code)
        + accessor_tail()
        + accessor_head("get_message"@, "String"@)
        + text_arms_text(implementation.ident, implementation.message)
        + accessor_tail()
        + "}\n"@
}

/// What stands for the fields in a pattern that binds none of them.
pub fn ignored_fields_text(style: Style) -> (text: &'static str)
    ensures
        text@ == ignored_fields(style),
{
    match style {
        Style::Unit => "",
        Style::Tuple => "(..)",
        Style::Struct => " { .. }",
    }
}

/// Appends the pattern that matches one variant to `out`.
pub fn push_pattern(out: &mut String, ident: &str, variant: &str, style: Style)
    ensures
        final(out)@ == old(out)@ + pattern_text(ident@, variant@, style),
{
    out.append(ident);
    out.append("::");
    out.append(variant);
    out.append(ignored_fields_text(style));
    assert(out@ =~= old(out)@ + pattern_text(ident@, variant@, style));
}

/// Appends one arm of `get_http_code` to `out`.
pub fn push_status_arm(out: &mut String, ident: &str, arm: &StatusArm)
    ensures
        final(out)@ == old(out)@ + status_arm_text(ident@, arm@),
{
    out.append("            ");
    push_pattern(out, ident, arm.variant.as_str(), arm.style);
    out.append(" => ");
    push_numeral(out, arm.status as u32, 10);
    out.append("u16,\n");
    assert(out@ =~= old(out)@ + status_arm_text(ident@, arm@));
}

/// Appends one arm of `get_code` or `get_message` to `out`.
pub fn push_text_arm(out: &mut String, ident: &str, arm: &TextArm)
    ensures
        final(out)@ == old(out)@ + text_arm_text(ident@, arm@),
{
    out.append("            ");
    push_pattern(out, ident, arm.variant.as_str(), arm.style);
    out.append(" => String::from(");
    push_string_literal(out, arm.text.as_str());
    out.append("),\n");
    assert(out@ =~= old(out)@ + text_arm_text(ident@, arm@));
}

/// Appends the arms of `get_http_code` to `out`.
pub fn push_status_arms(out: &mut String, ident: &str, arms: &Vec<StatusArm>)
    ensures
        final(out)@ == old(out)@ + status_arms_text(ident@, views(arms@)),
{
    let ghost all = views(arms@);
    let mut i: usize = 0;
    assert(out@ =~= old(out)@ + status_arms_text(ident@, all.take(0)));
    while i < arms.len()
        invariant
            i <= arms.len(),
            all == views(arms@),
            out@ == old(out)@ + status_arms_text(ident@, all.take(i as int)),
        decreases arms.len() - i,
    {
        push_status_arm(out, ident, &arms[i]);
        proof {
            assert(all.take(i + 1).drop_last() =~= all.take(i as int));
            assert(all.take(i + 1).last() == arms@[i as int]@);
            assert(out@ =~= old(out)@ + status_arms_text(ident@, all.take(i + 1)));
        }
        i += 1;
    }
    assert(all.take(i as int) =~= all);
}

/// Appends the arms of `get_code` or `get_message` to `out`.
pub fn push_text_arms(out: &mut String, ident: &str, arms: &Vec<TextArm>)
    ensures
        final(out)@ == old(out)@ + text_arms_text(ident@, views(arms@)),
{
    let ghost all = views(arms@);
    let mut i: usize = 0;
    assert(out@ =~= old(out)@ + text_arms_text(ident@, all.take(0)));
    while i < arms.len()
        invariant
            i <= arms.len(),
            all == views(arms@),
            out@ == old(out)@ + text_arms_text(ident@, all.take(i as int)),
        decreases arms.len() - i,
    {
        push_text_arm(out, ident, &arms[i]);
        proof {
            assert(all.take(i + 1).drop_last() =~= all.take(i as int));
            assert(all.take(i + 1).last() == arms@[i as int]@);
            assert(out@ =~= old(out)@ + text_arms_text(ident@, all.take(i + 1)));
        }
        i += 1;
    }
    assert(all.take(i as int) =~= all);
}

/// Appends the first lines of an accessor to `out`.
fn push_accessor_head(out: &mut String, name: &str, result_type: &str)
    ensures
        final(out)@ == old(out)@ + accessor_head(name@, result_type@),
{
    out.append("    pub fn ");
    out.append(name);
    out.append("(&self) -> ");
    out.append(result_type);
    out.append(" {\n        match self {\n");
    assert(out@ =~= old(out)@ + accessor_head(name@, result_type@));
}

/// Writes the accessors out as the text of an `impl` block.
pub fn render(implementation: &Implementation) -> (text: String)
    ensures
        text@ == rendered(implementation@),
{
    let ident = implementation.ident.as_str();
    let mut out = String::new();
    out.append("impl ");
    out.append(ident);
    out.append(" {\n");
    push_accessor_head(&mut out, "get_http_code", "u16");
    push_status_arms(&mut out, ident, &implementation.http_code);
    out.append("        }\n    }\n");
    push_accessor_head(&mut out, "get_code", "String");
    push_text_arms(&mut out, ident, &implementation.code);
    out.append("        }\n    }\n");
    push_accessor_head(&mut out, "get_message", "String");
    push_text_arms(&mut out, ident, &implementation.message);
    out.append("        }\n    }\n");
    out.append("}\n");
    assert(out@ =~= rendered(implementation@));
    out
}

} // verus!
