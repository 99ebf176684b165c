use crate::error::{caused_by, chain_of, causes_text, head_text, raised, relabeled, render, ErrorView};
use crate::location::{location_text, LocationView};
use crate::propagate::{ensure_result, raise_result, wrapped};
use vstd::prelude::*;

verus! {

/// `part` stands somewhere in `whole` as a contiguous piece.
pub open spec fn occurs_in(part: Seq<char>, whole: Seq<char>) -> bool {
    exists|i: int|
        0 <= i && i + part.len() <= whole.len() && #[trigger] whole.subrange(i, i + part.len())
            == part
}

/// A fresh error with message `m` renders as `m`, four spaces and its location, so its
/// rendering holds both the message and the location where it was raised.
pub proof fn lemma_fresh_error_shows_message_and_location(m: Seq<char>, location: LocationView)
    ensures
        render(raised(Some(m), location)) == m + "    "@ + location_text(location),
        occurs_in(m, render(raised(Some(m), location))),
        occurs_in(location_text(location), render(raised(Some(m), location))),
        render(raised(None, location)) == location_text(location),
{
    let whole = render(raised(Some(m), location));
    assert(causes_text(Seq::empty()) =~= Seq::<char>::empty());
    assert(whole =~= m + "    "@ + location_text(location));
    assert(whole.subrange(0, 0 + m.len() as int) =~= m);
    let at = (m + "    "@).len() as int;
    assert(whole.subrange(at, at + location_text(location).len()) =~= location_text(location));
    assert(render(raised(None, location)) =~= location_text(location));
}

/// `ensure` succeeds exactly when its condition holds, and otherwise fails just as
/// `raise` does with the same message and location.
pub proof fn lemma_ensure_is_conditional_raise(
    condition: bool,
    message: Seq<char>,
    location: LocationView,
)
    ensures
        ensure_result(condition, message, location) is Ok <==> condition,
        !condition ==> ensure_result(condition, message, location) == raise_result::<()>(
            message,
            location,
        ),
{
}

/// Rendering depends on the error's value alone: rendering the same error twice gives
/// the same text.
pub proof fn lemma_rendering_is_repeatable(first: ErrorView, second: ErrorView)
    requires
        first == second,
    ensures
        render(first) == render(second),
{
}

/// Wrapping an error `outer` that itself wraps `inner` gives a chain of exactly three
/// elements: the new error, `outer`, then `inner`.
pub proof fn lemma_wrapped_chain_has_three_links(
    context: Seq<char>,
    location: LocationView,
    outer: Seq<char>,
    inner: Seq<char>,
)
    ensures
        chain_of(wrapped(context, location, seq![outer] + seq![inner])).len() == 3,
        chain_of(wrapped(context, location, seq![outer] + seq![inner])) == seq![
            render(wrapped(context, location, seq![outer] + seq![inner])),
            outer,
            inner,
        ],
{
    let e = wrapped(context, location, seq![outer] + seq![inner]);
    assert(chain_of(e) =~= seq![render(e), outer, inner]);
}

/// Replacing the context of an error keeps its location and causes, and its rendering
/// then opens with the new message followed by four spaces.
pub proof fn lemma_context_replaces_only_message(e: ErrorView, context: Seq<char>)
    ensures
        relabeled(e, context).location == e.location,
        relabeled(e, context).causes == e.causes,
        relabeled(e, context).message == Some(context),
        head_text(relabeled(e, context)) == context + "    "@ + location_text(e.location),
        render(relabeled(e, context)).subrange(0, context.len() as int) == context,
        relabeled(e, context) == caused_by(raised(Some(context), e.location), e.causes),
{
    let r = relabeled(e, context);
    assert(render(r).subrange(0, context.len() as int) =~= context);
}

} // verus!
