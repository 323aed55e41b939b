//! Finding the tag that closes an element.
//!
//! Once the opening tag of an element has been read, the stream is scanned for
//! the tag that closes it. Only tags of the element's own name count: each
//! opening tag of that name on the way is one more element to be closed
//! first. Whatever else stands in between is passed over.

use vstd::prelude::*;
use crate::stream::Pending;
use crate::token::TokenView;

verus! {

/// The nesting depth, counted in elements called `name`, after `token` has
/// been passed at depth `depth`.
pub open spec fn depth_after(depth: nat, token: TokenView, name: Seq<u8>) -> nat {
    if token.opens(name) {
        depth + 1
    } else if token.closes(name) && depth > 0 {
        (depth - 1) as nat
    } else {
        depth
    }
}

/// Scans `s` from position `from`, with `depth` elements called `name` open
/// inside the one that is to be closed, for the closing tag of that element.
///
/// The result is the position of the closing tag, or `None` where the stream
/// ends or fails before the tag is reached.
pub open spec fn closing_from(s: Pending, name: Seq<u8>, depth: nat, from: int) -> Option<int>
    decreases s.len() - from,
{
    if from < 0 || from >= s.len() {
        None
    } else {
        match s[from] {
            None => None,
            Some(token) => if token.closes(name) && depth == 0 {
                Some(from)
            } else {
                closing_from(s, name, depth_after(depth, token, name), from + 1)
            },
        }
    }
}

/// The position in `s` of the tag that closes an element called `name` whose
/// opening tag has just been read, so that `s` begins with the element's
/// content.
pub open spec fn closing(s: Pending, name: Seq<u8>) -> Option<int> {
    closing_from(s, name, 0, 0)
}

/// A position moved `by` places to the right.
pub open spec fn moved(at: Option<int>, by: int) -> Option<int> {
    match at {
        Some(k) => Some(k + by),
        None => None,
    }
}

/// A scan that finds the closing tag finds it at or after the place where it
/// began and inside the stream; every read up to there succeeds, and the
/// token found closes `name`.
pub proof fn closing_from_is_a_closing_tag(s: Pending, name: Seq<u8>, depth: nat, from: int)
    requires
        closing_from(s, name, depth, from) is Some,
    ensures
        from <= closing_from(s, name, depth, from)->0 < s.len(),
        s[closing_from(s, name, depth, from)->0] == Some(TokenView::EndTag { name }),
        forall|j: int| from <= j <= closing_from(s, name, depth, from)->0 ==> (#[trigger] s[j]) is Some,
    decreases s.len() - from,
{
    let token = s[from]->0;
    if !(token.closes(name) && depth == 0) {
        closing_from_is_a_closing_tag(s, name, depth_after(depth, token, name), from + 1);
    }
}

/// The tag that closes an element lies inside the stream and is a closing tag
/// of the element's name, and no read before it fails.
pub proof fn closing_is_a_closing_tag(s: Pending, name: Seq<u8>)
    requires
        closing(s, name) is Some,
    ensures
        0 <= closing(s, name)->0 < s.len(),
        s[closing(s, name)->0] == Some(TokenView::EndTag { name }),
        forall|j: int| 0 <= j <= closing(s, name)->0 ==> (#[trigger] s[j]) is Some,
{
    closing_from_is_a_closing_tag(s, name, 0, 0);
}

/// The nesting depth, counted in elements called `name`, at which the token
/// at position `at` is met when `s` is read from its start: the number of
/// elements of that name that have been opened before it and not yet closed.
pub open spec fn depth_at(s: Pending, name: Seq<u8>, at: int) -> nat
    decreases at,
{
    if at <= 0 {
        0
    } else {
        match s[at - 1] {
            Some(token) => depth_after(depth_at(s, name, at - 1), token, name),
            None => depth_at(s, name, at - 1),
        }
    }
}

/// Whether the scan for the closing tag ends at position `at`: the read
/// there fails, or it hands out a closing tag of the element's name while no
/// element of that name is open.
pub open spec fn ends_scan(s: Pending, name: Seq<u8>, at: int) -> bool {
    match s[at] {
        Some(token) => token.closes(name) && depth_at(s, name, at) == 0,
        None => true,
    }
}

/// As long as nothing has ended the scan, it stands at the depth that was
/// reached by counting from the start.
pub proof fn closing_is_scan_from(s: Pending, name: Seq<u8>, at: int)
    requires
        0 <= at <= s.len(),
        forall|j: int| 0 <= j < at ==> !ends_scan(s, name, j),
    ensures
        closing(s, name) == closing_from(s, name, depth_at(s, name, at), at),
    decreases at,
{
    if at > 0 {
        closing_is_scan_from(s, name, at - 1);
        assert(!ends_scan(s, name, at - 1));
    }
}

/// Whether position `at` holds the first closing tag of the element's name
/// that is met while no other element of that name is open, with no read
/// before it failing.
pub open spec fn is_first_end(s: Pending, name: Seq<u8>, at: int) -> bool {
    &&& 0 <= at < s.len()
    &&& s[at] == Some(TokenView::EndTag { name })
    &&& depth_at(s, name, at) == 0
    &&& forall|j: int| 0 <= j < at ==> !ends_scan(s, name, j)
}

/// The tag that closes an element is the first closing tag of its name that
/// is met while no other element of that name is open, provided that no read
/// before it fails. No other position is the closing one.
pub proof fn closing_is_first_end(s: Pending, name: Seq<u8>, at: int)
    ensures
        closing(s, name) == Some(at) <==> is_first_end(s, name, at),
{
    if closing(s, name) == Some(at) {
        closing_is_a_closing_tag(s, name);
        assert forall|j: int| 0 <= j < at implies !ends_scan(s, name, j) by {
            no_earlier_end(s, name, at, j);
        }
        closing_is_scan_from(s, name, at);
        if depth_at(s, name, at) != 0 {
            let token = s[at]->0;
            closing_from_is_a_closing_tag(
                s,
                name,
                depth_after(depth_at(s, name, at), token, name),
                at + 1,
            );
        }
    }
    if is_first_end(s, name, at) {
        closing_is_scan_from(s, name, at);
    }
}

/// Nothing ends the scan before the closing tag.
proof fn no_earlier_end(s: Pending, name: Seq<u8>, at: int, j: int)
    requires
        closing(s, name) == Some(at),
        0 <= j < at,
    ensures
        !ends_scan(s, name, j),
    decreases j,
{
    closing_is_a_closing_tag(s, name);
    assert forall|i: int| 0 <= i < j implies !ends_scan(s, name, i) by {
        no_earlier_end(s, name, at, i);
    }
    closing_is_scan_from(s, name, j);
}

/// A stream that begins with a closing tag of the element's name closes the
/// element at once: the element has no content.
pub proof fn closing_at_front(rest: Pending, name: Seq<u8>)
    ensures
        closing(seq![Some(TokenView::EndTag { name })] + rest, name) == Some(0int),
{
}

/// What came before the place where a scan begins has no part in it.
pub proof fn closing_from_forgets_prefix(
    before: Pending,
    s: Pending,
    name: Seq<u8>,
    depth: nat,
    from: int,
)
    requires
        0 <= from,
    ensures
        closing_from(before + s, name, depth, before.len() + from) == moved(
            closing_from(s, name, depth, from),
            before.len() as int,
        ),
    decreases s.len() - from,
{
    if from < s.len() {
        match s[from] {
            None => {},
            Some(token) => {
                if !(token.closes(name) && depth == 0) {
                    closing_from_forgets_prefix(
                        before,
                        s,
                        name,
                        depth_after(depth, token, name),
                        from + 1,
                    );
                }
            },
        }
    }
}

/// A token that is no tag of the element's name is passed over.
pub proof fn closing_passes_over(token: TokenView, rest: Pending, name: Seq<u8>)
    requires
        !token.opens(name),
        !token.closes(name),
    ensures
        closing(seq![Some(token)] + rest, name) == moved(closing(rest, name), 1),
{
    closing_from_forgets_prefix(seq![Some(token)], rest, name, 0, 0);
}

/// What follows the closing tag has no part in finding it.
pub proof fn closing_from_ignores_what_follows(
    inner: Pending,
    rest: Pending,
    name: Seq<u8>,
    depth: nat,
    from: int,
)
    requires
        closing_from(inner, name, depth, from) is Some,
    ensures
        closing_from(inner + rest, name, depth, from) == closing_from(inner, name, depth, from),
    decreases inner.len() - from,
{
    let token = inner[from]->0;
    if !(token.closes(name) && depth == 0) {
        closing_from_ignores_what_follows(
            inner,
            rest,
            name,
            depth_after(depth, token, name),
            from + 1,
        );
    }
}

/// The tag that closes an element is found in the same place whatever
/// follows it.
pub proof fn closing_ignores_what_follows(inner: Pending, rest: Pending, name: Seq<u8>)
    requires
        closing(inner, name) is Some,
    ensures
        closing(inner + rest, name) == closing(inner, name),
{
    closing_from_ignores_what_follows(inner, rest, name, 0, 0);
}

/// With one more element of the same name open, a scan gets as far as the
/// tag that would have ended it, takes that tag as the end of the inner
/// element and goes on behind it at the depth it began with.
pub proof fn closing_from_one_deeper(
    inner: Pending,
    rest: Pending,
    name: Seq<u8>,
    depth: nat,
    from: int,
)
    requires
        closing_from(inner, name, depth, from) is Some,
    ensures
        closing_from(inner + rest, name, depth + 1, from) == closing_from(
            inner + rest,
            name,
            0,
            closing_from(inner, name, depth, from)->0 + 1,
        ),
    decreases inner.len() - from,
{
    let token = inner[from]->0;
    if !(token.closes(name) && depth == 0) {
        closing_from_one_deeper(inner, rest, name, depth_after(depth, token, name), from + 1);
    }
}

/// An element of the same name that stands whole inside the content is
/// skipped with all it holds: its closing tag does not end the scan.
///
/// `inner` is the content of the nested element together with the tag that
/// closes it; `rest` is what follows.
pub proof fn closing_skips_nested_element(inner: Pending, rest: Pending, name: Seq<u8>)
    requires
        closing(inner, name) == Some(inner.len() - 1),
    ensures
        closing(seq![Some(TokenView::StartTag { name })] + inner + rest, name) == moved(
            closing(rest, name),
            inner.len() as int + 1,
        ),
{
    let start = seq![Some(TokenView::StartTag { name })];
    assert(start + inner + rest =~= start + (inner + rest));
    closing_from_forgets_prefix(start, inner + rest, name, 1, 0);
    closing_from_one_deeper(inner, rest, name, 0, 0);
    closing_from_forgets_prefix(inner, rest, name, 0, 0);
}

} // verus!
