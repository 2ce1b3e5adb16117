//! What holds of every verdict and every report of the rule.

use vstd::prelude::*;
use crate::call_site::{CallSiteView, ExprView};
use crate::diagnostic::{Confidence, VerdictView};
use crate::owned_to_owned::{
    build_spec, check_spec, classify_spec, equivalent_to_clone, in_table, is_redundant,
    is_to_owned,
};
use crate::span::{lemma_replace_keeps_text_before, lemma_replace_moves_text_after, replace};
use crate::types::TypeContextView;

verus! {

/// The table holds two methods and no other: `to_vec` of `alloc::vec::Vec`
/// and `to_path_buf` of `std::path::PathBuf`. A path that is shorter or
/// longer, or a name that is, is not in it.
pub proof fn lemma_table_is_exact(type_path: Seq<Seq<char>>, method: Seq<char>)
    ensures
        in_table(type_path, method) <==> (type_path == seq!["alloc"@, "vec"@, "Vec"@] && method
            == "to_vec"@) || (type_path == seq!["std"@, "path"@, "PathBuf"@] && method
            == "to_path_buf"@),
{
    let table = equivalent_to_clone();
    assert(table[0].names(type_path, method) || table[1].names(type_path, method) ==> in_table(
        type_path,
        method,
    ));
}

/// A call that returns another type than that of its receiver is never a
/// match, whatever it was resolved to and whatever it is named.
pub proof fn lemma_type_change_is_no_match(site: CallSiteView, context: TypeContextView)
    requires
        context.types.result != context.types.receiver,
    ensures
        classify_spec(site, context) is NoMatch,
        check_spec((ExprView::MethodCall { site, context })) is None,
{
}

/// A match on a type that is `Copy`, be it through `to_owned` or through the
/// table, suggests the receiver's source text, letter for letter, in place of
/// the whole call.
pub proof fn lemma_copy_suggests_receiver(site: CallSiteView, context: TypeContextView)
    requires
        is_redundant(site, context),
        context.result_is_copy,
    ensures
        classify_spec(site, context) is Match,
        classify_spec(site, context)->replacement_text == site.args[0].snippet->0,
        check_spec((ExprView::MethodCall { site, context })) is Some,
        check_spec((ExprView::MethodCall { site, context }))->0.suggested_replacement
            == site.args[0].snippet->0,
        check_spec((ExprView::MethodCall { site, context }))->0.span == site.span,
{
}

/// A match on a type that is not `Copy`, be it through the table or through
/// `to_owned`, suggests the name `clone` in place of the method's name, and
/// of nothing else.
pub proof fn lemma_rename_replaces_the_name(site: CallSiteView, context: TypeContextView)
    requires
        is_redundant(site, context),
        !context.result_is_copy,
    ensures
        classify_spec(site, context) is Match,
        classify_spec(site, context)->replacement_text == "clone"@,
        check_spec((ExprView::MethodCall { site, context })) is Some,
        check_spec((ExprView::MethodCall { site, context }))->0.suggested_replacement == "clone"@,
        check_spec((ExprView::MethodCall { site, context }))->0.span == site.method.span,
{
}

/// In `fixed`, the text of the receiver of `site` stands where it stood in
/// `source`, and the text of every other operand stands `by` units further
/// on; each is as it was.
pub open spec fn operands_kept<A>(
    site: CallSiteView,
    source: Seq<A>,
    fixed: Seq<A>,
    by: int,
) -> bool {
    &&& site.args[0].span.text(fixed) == site.args[0].span.text(source)
    &&& forall|i: int|
        1 <= i < site.args.len() ==> fixed.subrange(
            site.args[i].span.lo + by,
            site.args[i].span.hi + by,
        ) == (#[trigger] site.args[i]).span.text(source)
}

/// Applying the suggestion to rename the method leaves the receiver and the
/// arguments untouched: in the source text with `with` written at the
/// report's range, each operand reads as before, the receiver in its place
/// and the others moved by the difference in length between `with` and the
/// old name. This holds whatever the offsets count, bytes or characters.
pub proof fn lemma_rename_keeps_operands<A>(
    site: CallSiteView,
    context: TypeContextView,
    source: Seq<A>,
    with: Seq<A>,
)
    requires
        is_redundant(site, context),
        !context.result_is_copy,
        site.laid_out(source.len()),
    ensures
        check_spec((ExprView::MethodCall { site, context })) is Some,
        operands_kept(
            site,
            source,
            replace(source, check_spec((ExprView::MethodCall { site, context }))->0.span, with),
            with.len() - (site.method.span.hi - site.method.span.lo),
        ),
{
    let name = site.method.span;
    let fixed = replace(source, name, with);
    let by = with.len() - (name.hi - name.lo);
    lemma_replace_keeps_text_before(source, name, with, site.args[0].span);
    assert forall|i: int| 1 <= i < site.args.len() implies fixed.subrange(
        site.args[i].span.lo + by,
        site.args[i].span.hi + by,
    ) == (#[trigger] site.args[i]).span.text(source) by {
        lemma_replace_moves_text_after(source, name, with, site.args[i].span);
    }
}

/// A call of the name `clone`, resolved to a definition of that name, is
/// never a match.
pub proof fn lemma_clone_is_no_match(site: CallSiteView, context: TypeContextView)
    requires
        site.method.name == "clone"@,
        site.resolves_by_name(),
    ensures
        classify_spec(site, context) is NoMatch,
{
    reveal_strlit("clone");
    reveal_strlit("to_owned");
    reveal_strlit("to_vec");
    reveal_strlit("to_path_buf");
    if is_to_owned(site) {
        assert("clone"@.len() != "to_owned"@.len());
    }
    if in_table(context.types.receiver.constructor, site.method.name) {
        assert("clone"@.len() != "to_path_buf"@.len());
    }
}

/// `fixed` is the node that stands where the call `site` stood once the
/// rule's suggestion was applied and the program was type-checked again.
///
/// For a type that is `Copy` the call gave way to `receiver`, the node of
/// its first operand. For any other type the call is still a method call on
/// the same operands, now of the name `clone` and resolved to a definition
/// of that name.
pub open spec fn rewrites_to(
    site: CallSiteView,
    context: TypeContextView,
    receiver: ExprView,
    fixed: ExprView,
) -> bool {
    if context.result_is_copy {
        fixed == receiver
    } else {
        &&& fixed is MethodCall
        &&& fixed->site.method.name == "clone"@
        &&& fixed->site.args == site.args
        &&& fixed->site.resolves_by_name()
    }
}

/// The fix is a fixed point: where a matching call was rewritten as
/// suggested, the node in its place draws no further report. The one
/// exception is a call that gave way to a receiver which draws a report of
/// its own, as the inner call of `k.to_owned().to_owned()` does.
pub proof fn lemma_fix_draws_no_report(
    site: CallSiteView,
    context: TypeContextView,
    receiver: ExprView,
    fixed: ExprView,
)
    requires
        is_redundant(site, context),
        rewrites_to(site, context, receiver, fixed),
        context.result_is_copy ==> check_spec(receiver) is None,
    ensures
        check_spec(fixed) is None,
{
    if !context.result_is_copy {
        lemma_clone_is_no_match(fixed->site, fixed->context);
    }
}

/// Every verdict and every report leaves the decision to a person: none is
/// marked `Certain`, not even a report built from a verdict that is.
pub proof fn lemma_reports_are_maybe_incorrect(expr: ExprView, verdict: VerdictView)
    ensures
        check_spec(expr) is Some ==> check_spec(expr)->0.confidence == Confidence::MaybeIncorrect,
        expr is MethodCall && classify_spec(expr->site, expr->context) is Match ==> classify_spec(
            expr->site,
            expr->context,
        )->confidence == Confidence::MaybeIncorrect,
        expr is MethodCall ==> build_spec(expr->site, expr->context, verdict).confidence
            == Confidence::MaybeIncorrect,
{
}

} // verus!
