use vstd::prelude::*;

use crate::error::ClipdError;
use crate::fmt::{FormatFeature, FormatResult, Formatter};
use crate::text::{char_is_whitespace, chars_to_string, is_unicode_whitespace, str_to_chars};

verus! {

// ---------------------------------------------------------------------------
// Specification of the normalization pass.
//
// A text is scanned left to right. Until the first character has been
// accepted, a leading line feed is dropped under `trim_start_lf`, and any
// leading whitespace character under the whitespace superset rule. A carriage
// return is dropped anywhere under `trim_cr`. After the forward scan,
// trailing line feeds and trailing whitespace are dropped from the end. A NUL
// sentinel, if present, ends the meaningful body before the scan begins.
// ---------------------------------------------------------------------------
/// Number of characters before the first NUL sentinel.
pub open spec fn body_end(s: Seq<char>) -> int
    decreases s.len(),
{
    if s.len() == 0 {
        0
    } else if s[0] == '\0' {
        0
    } else {
        1 + body_end(s.subrange(1, s.len() as int))
    }
}

pub proof fn lemma_body_end_bounds(s: Seq<char>)
    ensures
        0 <= body_end(s) <= s.len(),
    decreases s.len(),
{
    if s.len() > 0 && s[0] != '\0' {
        lemma_body_end_bounds(s.subrange(1, s.len() as int));
    }
}

/// `body_end` is the index of the first NUL, or the length when there is none.
pub proof fn lemma_body_end_first_nul(s: Seq<char>, k: int)
    requires
        0 <= k <= s.len(),
        forall|j: int| 0 <= j < k ==> s[j] != '\0',
        k == s.len() || s[k] == '\0',
    ensures
        body_end(s) == k,
    decreases s.len(),
{
    if s.len() == 0 {
    } else if s[0] == '\0' {
        assert(k == 0);
    } else {
        let rest = s.subrange(1, s.len() as int);
        assert(k >= 1);
        assert(forall|j: int| 0 <= j < k - 1 ==> rest[j] == s[j + 1] && rest[j] != '\0');
        lemma_body_end_first_nul(rest, k - 1);
    }
}

/// The meaningful body of a text: everything before the first NUL sentinel.
pub open spec fn body_text(s: Seq<char>) -> Seq<char> {
    s.subrange(0, body_end(s))
}

/// Whether a leading character is dropped before any character was accepted.
pub open spec fn start_droppable(f: FormatFeature, c: char) -> bool {
    (c == '\n' && f.trim_start_lf) || (is_unicode_whitespace(c) && f.starts_whitespace_active())
}

/// Whether a trailing character is dropped by the backward pass.
pub open spec fn end_droppable(f: FormatFeature, c: char) -> bool {
    (c == '\n' && f.trim_end_lf) || (is_unicode_whitespace(c) && f.ends_whitespace_active())
}

/// The forward scan: leading trimming while nothing was accepted yet, and
/// carriage-return removal everywhere. `accepted` records whether an earlier
/// character was kept.
pub open spec fn forward_pass(f: FormatFeature, s: Seq<char>, accepted: bool) -> Seq<char>
    decreases s.len(),
{
    if s.len() == 0 {
        s
    } else {
        let c = s[0];
        let rest = s.subrange(1, s.len() as int);
        if !accepted && c == '\n' && f.trim_start_lf {
            forward_pass(f, rest, false)
        } else if !accepted && is_unicode_whitespace(c) && f.starts_whitespace_active() {
            forward_pass(f, rest, false)
        } else if c == '\r' && f.trim_cr {
            forward_pass(f, rest, accepted)
        } else {
            seq![c] + forward_pass(f, rest, true)
        }
    }
}

/// The rules that removed at least one character during the forward scan.
pub open spec fn forward_fired(f: FormatFeature, s: Seq<char>, accepted: bool) -> FormatFeature
    decreases s.len(),
{
    if s.len() == 0 {
        FormatFeature::spec_empty()
    } else {
        let c = s[0];
        let rest = s.subrange(1, s.len() as int);
        if !accepted && c == '\n' && f.trim_start_lf {
            FormatFeature::spec_trim_start_lf().spec_union(forward_fired(f, rest, false))
        } else if !accepted && is_unicode_whitespace(c) && f.starts_whitespace_active() {
            FormatFeature::spec_trim_start_whitespace().spec_union(forward_fired(f, rest, false))
        } else if c == '\r' && f.trim_cr {
            FormatFeature::spec_trim_cr().spec_union(forward_fired(f, rest, accepted))
        } else {
            forward_fired(f, rest, true)
        }
    }
}

/// The backward pass: trailing line feeds and trailing whitespace are removed
/// until neither rule applies.
pub open spec fn backward_pass(f: FormatFeature, s: Seq<char>) -> Seq<char>
    decreases s.len(),
{
    if s.len() == 0 {
        s
    } else if end_droppable(f, s[s.len() - 1]) {
        backward_pass(f, s.subrange(0, s.len() - 1))
    } else {
        s
    }
}

/// The rules that removed at least one character during the backward pass.
pub open spec fn backward_fired(f: FormatFeature, s: Seq<char>) -> FormatFeature
    decreases s.len(),
{
    if s.len() == 0 {
        FormatFeature::spec_empty()
    } else {
        let c = s[s.len() - 1];
        if c == '\n' && f.trim_end_lf {
            FormatFeature::spec_trim_end_lf().spec_union(
                backward_fired(f, s.subrange(0, s.len() - 1)),
            )
        } else if is_unicode_whitespace(c) && f.ends_whitespace_active() {
            FormatFeature::spec_trim_end_whitespace().spec_union(
                backward_fired(f, s.subrange(0, s.len() - 1)),
            )
        } else {
            FormatFeature::spec_empty()
        }
    }
}

/// The normalized text of the meaningful body.
pub open spec fn normalize_text(f: FormatFeature, s: Seq<char>) -> Seq<char> {
    backward_pass(f, forward_pass(f, body_text(s), false))
}

/// The rules that removed at least one character over the whole pass.
pub open spec fn matched_rules(f: FormatFeature, s: Seq<char>) -> FormatFeature {
    forward_fired(f, body_text(s), false).spec_union(
        backward_fired(f, forward_pass(f, body_text(s), false)),
    )
}

// ---------------------------------------------------------------------------
// Laws of the normalization pass.
// ---------------------------------------------------------------------------
/// Everything before the first NUL is itself not NUL.
proof fn lemma_body_end_no_nul(s: Seq<char>)
    ensures
        forall|j: int| 0 <= j < body_end(s) ==> s[j] != '\0',
    decreases s.len(),
{
    lemma_body_end_bounds(s);
    if s.len() > 0 && s[0] != '\0' {
        let rest = s.subrange(1, s.len() as int);
        lemma_body_end_no_nul(rest);
        lemma_body_end_bounds(rest);
        assert(forall|j: int| 1 <= j < body_end(s) ==> s[j] == rest[j - 1] && rest[j - 1] != '\0');
    }
}

/// The forward pass keeps only characters of its input.
proof fn lemma_forward_preserves(f: FormatFeature, s: Seq<char>, accepted: bool, p: spec_fn(char) -> bool)
    requires
        forall|j: int| 0 <= j < s.len() ==> p(s[j]),
    ensures
        forall|j: int|
            0 <= j < forward_pass(f, s, accepted).len() ==> p(forward_pass(f, s, accepted)[j]),
    decreases s.len(),
{
    if s.len() > 0 {
        let c = s[0];
        let rest = s.subrange(1, s.len() as int);
        assert(forall|j: int| 0 <= j < rest.len() ==> p(rest[j]));
        lemma_forward_preserves(f, rest, false, p);
        lemma_forward_preserves(f, rest, accepted, p);
        lemma_forward_preserves(f, rest, true, p);
        let res = forward_pass(f, s, accepted);
        if !(!accepted && c == '\n' && f.trim_start_lf) && !(!accepted && is_unicode_whitespace(c)
            && f.starts_whitespace_active()) && !(c == '\r' && f.trim_cr) {
            assert(res == seq![c] + forward_pass(f, rest, true));
            assert forall|j: int| 0 <= j < res.len() implies p(res[j]) by {
                if j > 0 {
                    assert(res[j] == forward_pass(f, rest, true)[j - 1]);
                }
            }
        }
    }
}

/// When carriage returns are trimmed, none survives the forward pass.
proof fn lemma_forward_no_cr(f: FormatFeature, s: Seq<char>, accepted: bool)
    requires
        f.trim_cr,
    ensures
        forall|j: int|
            0 <= j < forward_pass(f, s, accepted).len() ==> forward_pass(f, s, accepted)[j] != '\r',
    decreases s.len(),
{
    if s.len() > 0 {
        let c = s[0];
        let rest = s.subrange(1, s.len() as int);
        lemma_forward_no_cr(f, rest, false);
        lemma_forward_no_cr(f, rest, accepted);
        lemma_forward_no_cr(f, rest, true);
        let res = forward_pass(f, s, accepted);
        if !(!accepted && c == '\n' && f.trim_start_lf) && !(!accepted && is_unicode_whitespace(c)
            && f.starts_whitespace_active()) && !(c == '\r' && f.trim_cr) {
            assert(res == seq![c] + forward_pass(f, rest, true));
            assert forall|j: int| 0 <= j < res.len() implies res[j] != '\r' by {
                if j > 0 {
                    assert(res[j] == forward_pass(f, rest, true)[j - 1]);
                }
            }
        }
    }
}

/// The first surviving character of the forward pass is not droppable at the
/// start, nor a trimmed carriage return.
proof fn lemma_forward_first(f: FormatFeature, s: Seq<char>)
    ensures
        forward_pass(f, s, false).len() > 0 ==> !start_droppable(f, forward_pass(f, s, false)[0])
            && !(forward_pass(f, s, false)[0] == '\r' && f.trim_cr),
    decreases s.len(),
{
    if s.len() > 0 {
        let rest = s.subrange(1, s.len() as int);
        lemma_forward_first(f, rest);
    }
}

/// After a character was accepted, the forward pass only removes trimmed
/// carriage returns; without any, it is the identity and fires nothing.
proof fn lemma_forward_noop_accepted(f: FormatFeature, s: Seq<char>)
    requires
        forall|j: int| 0 <= j < s.len() ==> !(s[j] == '\r' && f.trim_cr),
    ensures
        forward_pass(f, s, true) == s,
        forward_fired(f, s, true) == FormatFeature::spec_empty(),
    decreases s.len(),
{
    if s.len() > 0 {
        let rest = s.subrange(1, s.len() as int);
        lemma_forward_noop_accepted(f, rest);
        assert(seq![s[0]] + rest =~= s);
    }
}

/// A text whose head is not droppable and which holds no trimmed carriage
/// return passes the forward scan unchanged, firing nothing.
proof fn lemma_forward_noop(f: FormatFeature, s: Seq<char>)
    requires
        s.len() > 0 ==> !start_droppable(f, s[0]),
        forall|j: int| 0 <= j < s.len() ==> !(s[j] == '\r' && f.trim_cr),
    ensures
        forward_pass(f, s, false) == s,
        forward_fired(f, s, false) == FormatFeature::spec_empty(),
{
    if s.len() > 0 {
        let rest = s.subrange(1, s.len() as int);
        lemma_forward_noop_accepted(f, rest);
        assert(seq![s[0]] + rest =~= s);
    }
}

/// The backward pass returns a prefix of its input.
proof fn lemma_backward_prefix(f: FormatFeature, s: Seq<char>)
    ensures
        backward_pass(f, s).len() <= s.len(),
        forall|j: int| 0 <= j < backward_pass(f, s).len() ==> backward_pass(f, s)[j] == s[j],
    decreases s.len(),
{
    if s.len() > 0 && end_droppable(f, s[s.len() - 1]) {
        let sub = s.subrange(0, s.len() - 1);
        lemma_backward_prefix(f, sub);
        let res = backward_pass(f, s);
        assert(res == backward_pass(f, sub));
        assert forall|j: int| 0 <= j < res.len() implies res[j] == s[j] by {
            assert(res[j] == sub[j]);
        }
    }
}

/// The last surviving character of the backward pass is not droppable at the
/// end.
proof fn lemma_backward_last(f: FormatFeature, s: Seq<char>)
    ensures
        backward_pass(f, s).len() > 0 ==> !end_droppable(
            f,
            backward_pass(f, s)[backward_pass(f, s).len() - 1],
        ),
    decreases s.len(),
{
    if s.len() > 0 && end_droppable(f, s[s.len() - 1]) {
        lemma_backward_last(f, s.subrange(0, s.len() - 1));
    }
}

/// A text whose last character is not droppable passes the backward pass
/// unchanged, firing nothing.
proof fn lemma_backward_noop(f: FormatFeature, s: Seq<char>)
    requires
        s.len() > 0 ==> !end_droppable(f, s[s.len() - 1]),
    ensures
        backward_pass(f, s) == s,
        backward_fired(f, s) == FormatFeature::spec_empty(),
{
}

/// The forward pass shortens its input exactly when it fires a rule.
proof fn lemma_forward_len(f: FormatFeature, s: Seq<char>, accepted: bool)
    ensures
        forward_pass(f, s, accepted).len() <= s.len(),
        forward_fired(f, s, accepted).spec_is_empty() ==> forward_pass(f, s, accepted) == s,
        !forward_fired(f, s, accepted).spec_is_empty() ==> forward_pass(f, s, accepted).len()
            < s.len(),
    decreases s.len(),
{
    if s.len() > 0 {
        let rest = s.subrange(1, s.len() as int);
        lemma_forward_len(f, rest, false);
        lemma_forward_len(f, rest, accepted);
        lemma_forward_len(f, rest, true);
        assert(seq![s[0]] + rest =~= s);
    }
}

/// The backward pass shortens its input exactly when it fires a rule.
proof fn lemma_backward_len(f: FormatFeature, s: Seq<char>)
    ensures
        backward_pass(f, s).len() <= s.len(),
        backward_fired(f, s).spec_is_empty() ==> backward_pass(f, s) == s,
        !backward_fired(f, s).spec_is_empty() ==> backward_pass(f, s).len() < s.len(),
    decreases s.len(),
{
    if s.len() > 0 && end_droppable(f, s[s.len() - 1]) {
        lemma_backward_len(f, s.subrange(0, s.len() - 1));
    }
}

/// A normalized text is a fixed point of both passes: running them again
/// changes nothing and fires no rule, and the text holds no NUL, so it is its
/// own meaningful body.
proof fn lemma_second_pass(f: FormatFeature, s: Seq<char>)
    ensures
        forward_pass(f, normalize_text(f, s), false) == normalize_text(f, s),
        forward_fired(f, normalize_text(f, s), false) == FormatFeature::spec_empty(),
        backward_pass(f, normalize_text(f, s)) == normalize_text(f, s),
        backward_fired(f, normalize_text(f, s)) == FormatFeature::spec_empty(),
        body_end(normalize_text(f, s)) == normalize_text(f, s).len(),
{
    let body = body_text(s);
    let fwd = forward_pass(f, body, false);
    let out = backward_pass(f, fwd);
    lemma_backward_prefix(f, fwd);
    // No NUL survives: the body has none, and both passes only keep input
    // characters.
    lemma_body_end_no_nul(s);
    lemma_body_end_bounds(s);
    assert(forall|j: int| 0 <= j < body.len() ==> body[j] != '\0');
    let no_nul = |c: char| c != '\0';
    lemma_forward_preserves(f, body, false, no_nul);
    assert forall|j: int| 0 <= j < out.len() implies out[j] != '\0' by {
        assert(out[j] == fwd[j]);
        assert(no_nul(fwd[j]));
    }
    lemma_body_end_first_nul(out, out.len() as int);
    // The second forward pass finds nothing: the head is not droppable and no
    // trimmed carriage return survives.
    lemma_forward_first(f, body);
    if f.trim_cr {
        lemma_forward_no_cr(f, body, false);
    }
    assert(forall|j: int| 0 <= j < out.len() ==> out[j] == fwd[j]);
    assert(forall|j: int| 0 <= j < out.len() ==> !(out[j] == '\r' && f.trim_cr));
    assert(out.len() > 0 ==> !start_droppable(f, out[0]));
    lemma_forward_noop(f, out);
    // The second backward pass finds nothing either.
    lemma_backward_last(f, fwd);
    lemma_backward_noop(f, out);
}

/// Idempotence of normalization: a second pass over an already normalized
/// text returns it unchanged and fires no rule.
pub proof fn lemma_normalize_idempotent(f: FormatFeature, s: Seq<char>)
    ensures
        normalize_text(f, normalize_text(f, s)) == normalize_text(f, s),
        matched_rules(f, normalize_text(f, s)).spec_is_empty(),
{
    let out = normalize_text(f, s);
    lemma_second_pass(f, s);
    assert(body_text(out) =~= out);
}

/// Idempotence at the formatter level, with the sentinel accounted for: a
/// formatter fed its own output returns that output, and its matched rule
/// set is empty.
pub proof fn lemma_formatter_idempotent(fm: UnicodeFormatter, s: Seq<char>)
    ensures
        fm.spec_output(fm.spec_output(s)) == fm.spec_output(s),
        matched_rules(fm.feature, fm.spec_output(s)).spec_is_empty(),
{
    let f = fm.feature;
    let out = normalize_text(f, s);
    lemma_second_pass(f, s);
    if fm.ends_with_zero {
        let outz = out.push('\0');
        lemma_body_end_no_nul(out);
        assert(forall|j: int| 0 <= j < out.len() ==> outz[j] == out[j] && outz[j] != '\0');
        lemma_body_end_first_nul(outz, out.len() as int);
        assert(body_text(outz) =~= out);
    } else {
        assert(body_text(out) =~= out);
    }
}

/// Every rule the forward pass fires was requested.
proof fn lemma_forward_fired_within(f: FormatFeature, s: Seq<char>, accepted: bool)
    ensures
        f.spec_contains(forward_fired(f, s, accepted)),
    decreases s.len(),
{
    if s.len() > 0 {
        let rest = s.subrange(1, s.len() as int);
        lemma_forward_fired_within(f, rest, false);
        lemma_forward_fired_within(f, rest, accepted);
        lemma_forward_fired_within(f, rest, true);
    }
}

/// Every rule the backward pass fires was requested.
proof fn lemma_backward_fired_within(f: FormatFeature, s: Seq<char>)
    ensures
        f.spec_contains(backward_fired(f, s)),
    decreases s.len(),
{
    if s.len() > 0 {
        lemma_backward_fired_within(f, s.subrange(0, s.len() - 1));
    }
}

/// The matched rule set is a subset of the requested one: only requested
/// rules can fire.
pub proof fn lemma_matched_within_requested(f: FormatFeature, s: Seq<char>)
    ensures
        f.spec_contains(matched_rules(f, s)),
{
    lemma_forward_fired_within(f, body_text(s), false);
    lemma_backward_fired_within(f, forward_pass(f, body_text(s), false));
}

/// `has_changed` consistency: a rule fired if and only if the normalized text
/// differs from the meaningful body of the input.
pub proof fn lemma_has_changed_consistency(f: FormatFeature, s: Seq<char>)
    ensures
        !matched_rules(f, s).spec_is_empty() <==> normalize_text(f, s) != body_text(s),
{
    let body = body_text(s);
    let fwd = forward_pass(f, body, false);
    lemma_forward_len(f, body, false);
    lemma_backward_len(f, fwd);
    lemma_backward_prefix(f, fwd);
}

/// `has_changed` consistency at the formatter level, with the sentinel
/// appended consistently to both sides of the comparison.
pub proof fn lemma_formatter_has_changed(fm: UnicodeFormatter, s: Seq<char>)
    ensures
        !matched_rules(fm.feature, s).spec_is_empty() <==> fm.spec_output(s) != (
        if fm.ends_with_zero {
            body_text(s).push('\0')
        } else {
            body_text(s)
        }),
{
    let f = fm.feature;
    let body = body_text(s);
    let out = normalize_text(f, s);
    lemma_has_changed_consistency(f, s);
    if fm.ends_with_zero {
        if out == body {
            assert(out.push('\0') =~= body.push('\0'));
        }
        if out.push('\0') == body.push('\0') {
            assert(out.push('\0').len() == body.push('\0').len());
            assert forall|j: int| 0 <= j < out.len() implies out[j] == body[j] by {
                assert(out.push('\0')[j] == out[j]);
                assert(body.push('\0')[j] == body[j]);
            }
            assert(out =~= body);
        }
    }
}

// ---------------------------------------------------------------------------
// The executable formatter.
// ---------------------------------------------------------------------------
/// Normalizes decoded character text, optionally appending a NUL sentinel for
/// platforms whose clipboard buffers are NUL-terminated.
#[derive(Debug)]
pub struct UnicodeFormatter {
    pub feature: FormatFeature,
    pub ends_with_zero: bool,
}

impl UnicodeFormatter {
    /// The text carried by a successful pass of this formatter.
    pub open spec fn spec_output(self, s: Seq<char>) -> Seq<char> {
        if self.ends_with_zero {
            normalize_text(self.feature, s).push('\0')
        } else {
            normalize_text(self.feature, s)
        }
    }

    /// Requests a NUL sentinel at the end of every formatted text.
    pub fn ends_with_zero(self) -> (r: UnicodeFormatter)
        ensures
            r == (UnicodeFormatter { ends_with_zero: true, ..self }),
    {
        UnicodeFormatter { ends_with_zero: true, ..self }
    }

    /// Normalizes `text`. Fails exactly when the configured rule set is
    /// empty; otherwise returns the rewritten text and the set of rules that
    /// removed at least one character.
    pub fn fmt(&self, text: &String) -> (r: Result<FormatResult<String>, ClipdError>)
        ensures
            self.feature.spec_is_empty() <==> r is Err,
            r is Err ==> r->Err_0 == ClipdError::EmptyFeatureSet,
            r is Ok ==> r->Ok_0.data@ == self.spec_output(text@),
            r is Ok ==> r->Ok_0.matched_feature == matched_rules(self.feature, text@),
    {
        if self.feature.is_empty() {
            return Err(ClipdError::EmptyFeatureSet);
        }
        let f = self.feature;
        let chars = str_to_chars(text.as_str());
        let n = chars.len();

        // The meaningful body ends at the first NUL sentinel.
        let mut k: usize = 0;
        while k < n && chars[k] != '\0'
            invariant
                k <= n,
                n == chars@.len(),
                forall|j: int| 0 <= j < k ==> chars@[j] != '\0',
            decreases n - k,
        {
            k = k + 1;
        }
        proof {
            lemma_body_end_first_nul(chars@, k as int);
        }
        let ghost body = body_text(chars@);
        assert(body =~= chars@.subrange(0, k as int));

        // Forward scan.
        let mut out: Vec<char> = Vec::new();
        let mut matched = FormatFeature::empty();
        let mut i: usize = 0;
        proof {
            assert(body.subrange(0, k as int) =~= body);
            assert(out@ + forward_pass(f, body, false) =~= forward_pass(f, body, false));
        }
        while i < k
            invariant
                i <= k <= chars@.len(),
                body == chars@.subrange(0, k as int),
                forward_pass(f, body, false) == out@ + forward_pass(
                    f,
                    body.subrange(i as int, k as int),
                    out@.len() > 0,
                ),
                forward_fired(f, body, false) == matched.spec_union(
                    forward_fired(f, body.subrange(i as int, k as int), out@.len() > 0),
                ),
            decreases k - i,
        {
            let c = chars[i];
            let ghost rem = body.subrange(i as int, k as int);
            proof {
                assert(rem[0] == c);
                assert(rem.subrange(1, rem.len() as int) =~= body.subrange(
                    i as int + 1,
                    k as int,
                ));
            }
            if out.len() == 0 && c == '\n' && f.trim_start_lf {
                matched = matched.union(FormatFeature::trim_start_lf());
            } else if out.len() == 0 && char_is_whitespace(c) && f.trim_start_lf
                && f.trim_start_ws {
                matched = matched.union(FormatFeature::trim_start_whitespace());
            } else if c == '\r' && f.trim_cr {
                matched = matched.union(FormatFeature::trim_cr());
            } else {
                let ghost out0 = out@;
                out.push(c);
                proof {
                    assert(out@ =~= out0 + seq![c]);
                    assert(out0 + (seq![c] + forward_pass(
                        f,
                        rem.subrange(1, rem.len() as int),
                        true,
                    )) =~= out@ + forward_pass(f, rem.subrange(1, rem.len() as int), true));
                }
            }
            i = i + 1;
        }
        proof {
            assert(body.subrange(k as int, k as int) =~= Seq::<char>::empty());
            assert(out@ + Seq::<char>::empty() =~= out@);
        }
        let ghost fwd_full = forward_pass(f, body, false);
        assert(fwd_full == out@);

        // Backward trim.
        let ghost target = forward_fired(f, body, false).spec_union(
            backward_fired(f, fwd_full),
        );
        let mut trimming = true;
        while trimming && out.len() > 0
            invariant
                backward_pass(f, fwd_full) == backward_pass(f, out@),
                target == matched.spec_union(backward_fired(f, out@)),
                !trimming ==> backward_pass(f, out@) == out@ && backward_fired(f, out@)
                    == FormatFeature::spec_empty(),
            decreases out.len(), (if trimming { 1int } else { 0int }),
        {
            let c = out[out.len() - 1];
            let ghost cur = out@;
            if c == '\n' && f.trim_end_lf {
                out.pop();
                matched = matched.union(FormatFeature::trim_end_lf());
                proof {
                    assert(out@ =~= cur.subrange(0, cur.len() - 1));
                }
            } else if char_is_whitespace(c) && f.trim_end_lf && f.trim_end_ws {
                out.pop();
                matched = matched.union(FormatFeature::trim_end_whitespace());
                proof {
                    assert(out@ =~= cur.subrange(0, cur.len() - 1));
                }
            } else {
                trimming = false;
            }
        }
        assert(backward_pass(f, out@) == out@);
        assert(normalize_text(f, chars@) == out@);
        assert(matched == matched_rules(f, chars@));

        if self.ends_with_zero {
            out.push('\0');
        }
        let data = chars_to_string(&out);
        assert(chars@ == text@);
        Ok(FormatResult { data, matched_feature: matched })
    }
}

impl Default for UnicodeFormatter {
    /// The default formatter uses the default rule preset and appends no
    /// sentinel.
    fn default() -> (r: UnicodeFormatter)
        ensures
            r.feature == FormatFeature::spec_default_preset(),
            !r.ends_with_zero,
    {
        UnicodeFormatter { feature: FormatFeature::all(), ends_with_zero: false }
    }
}

impl Formatter<String, String> for UnicodeFormatter {
    open spec fn spec_feature(&self) -> FormatFeature {
        self.feature
    }

    fn new(feature: FormatFeature) -> Result<UnicodeFormatter, ClipdError> {
        Ok(UnicodeFormatter { feature, ends_with_zero: false })
    }

    fn fmt(&self, text: &String) -> Result<FormatResult<String>, ClipdError> {
        let r = UnicodeFormatter::fmt(self, text);
        proof {
            lemma_matched_within_requested(self.feature, text@);
        }
        r
    }
}

} // verus!
