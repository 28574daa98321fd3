use vstd::prelude::*;

use crate::error::ClipdError;
use crate::fmt::{FormatFeature, FormatResult, Formatter};

verus! {

// ---------------------------------------------------------------------------
// Specification of the normalization pass over raw 8-bit text. It mirrors
// the character-level pass, with the ASCII whitespace class in place of the
// Unicode `White_Space` property.
// ---------------------------------------------------------------------------
/// The ASCII whitespace class: space, tab, line feed, form feed, carriage
/// return.
pub open spec fn is_ascii_whitespace_byte(b: u8) -> bool {
    b == 0x20 || b == 0x09 || b == 0x0A || b == 0x0C || b == 0x0D
}

/// Number of bytes before the first NUL sentinel.
pub open spec fn body_end_bytes(s: Seq<u8>) -> int
    decreases s.len(),
{
    if s.len() == 0 {
        0
    } else if s[0] == 0 {
        0
    } else {
        1 + body_end_bytes(s.subrange(1, s.len() as int))
    }
}

pub proof fn lemma_body_end_bytes_bounds(s: Seq<u8>)
    ensures
        0 <= body_end_bytes(s) <= s.len(),
    decreases s.len(),
{
    if s.len() > 0 && s[0] != 0 {
        lemma_body_end_bytes_bounds(s.subrange(1, s.len() as int));
    }
}

/// `body_end_bytes` is the index of the first NUL, or the length when there
/// is none.
pub proof fn lemma_body_end_bytes_first_nul(s: Seq<u8>, k: int)
    requires
        0 <= k <= s.len(),
        forall|j: int| 0 <= j < k ==> s[j] != 0,
        k == s.len() || s[k] == 0,
    ensures
        body_end_bytes(s) == k,
    decreases s.len(),
{
    if s.len() == 0 {
    } else if s[0] == 0 {
        assert(k == 0);
    } else {
        let rest = s.subrange(1, s.len() as int);
        assert(k >= 1);
        assert(forall|j: int| 0 <= j < k - 1 ==> rest[j] == s[j + 1] && rest[j] != 0);
        lemma_body_end_bytes_first_nul(rest, k - 1);
    }
}

/// The meaningful body of a buffer: everything before the first NUL sentinel.
pub open spec fn body_bytes(s: Seq<u8>) -> Seq<u8> {
    s.subrange(0, body_end_bytes(s))
}

/// The forward scan over bytes; see the character-level pass.
pub open spec fn forward_pass_bytes(f: FormatFeature, s: Seq<u8>, accepted: bool) -> Seq<u8>
    decreases s.len(),
{
    if s.len() == 0 {
        s
    } else {
        let b = s[0];
        let rest = s.subrange(1, s.len() as int);
        if !accepted && b == 0x0A && f.trim_start_lf {
            forward_pass_bytes(f, rest, false)
        } else if !accepted && is_ascii_whitespace_byte(b) && f.starts_whitespace_active() {
            forward_pass_bytes(f, rest, false)
        } else if b == 0x0D && f.trim_cr {
            forward_pass_bytes(f, rest, accepted)
        } else {
            seq![b] + forward_pass_bytes(f, rest, true)
        }
    }
}

/// The rules that removed at least one byte during the forward scan.
pub open spec fn forward_fired_bytes(f: FormatFeature, s: Seq<u8>, accepted: bool) -> FormatFeature
    decreases s.len(),
{
    if s.len() == 0 {
        FormatFeature::spec_empty()
    } else {
        let b = s[0];
        let rest = s.subrange(1, s.len() as int);
        if !accepted && b == 0x0A && f.trim_start_lf {
            FormatFeature::spec_trim_start_lf().spec_union(forward_fired_bytes(f, rest, false))
        } else if !accepted && is_ascii_whitespace_byte(b) && f.starts_whitespace_active() {
            FormatFeature::spec_trim_start_whitespace().spec_union(
                forward_fired_bytes(f, rest, false),
            )
        } else if b == 0x0D && f.trim_cr {
            FormatFeature::spec_trim_cr().spec_union(forward_fired_bytes(f, rest, accepted))
        } else {
            forward_fired_bytes(f, rest, true)
        }
    }
}

/// The backward pass over bytes.
pub open spec fn backward_pass_bytes(f: FormatFeature, s: Seq<u8>) -> Seq<u8>
    decreases s.len(),
{
    if s.len() == 0 {
        s
    } else {
        let b = s[s.len() - 1];
        if (b == 0x0A && f.trim_end_lf) || (is_ascii_whitespace_byte(b)
            && f.ends_whitespace_active()) {
            backward_pass_bytes(f, s.subrange(0, s.len() - 1))
        } else {
            s
        }
    }
}

/// The rules that removed at least one byte during the backward pass.
pub open spec fn backward_fired_bytes(f: FormatFeature, s: Seq<u8>) -> FormatFeature
    decreases s.len(),
{
    if s.len() == 0 {
        FormatFeature::spec_empty()
    } else {
        let b = s[s.len() - 1];
        if b == 0x0A && f.trim_end_lf {
            FormatFeature::spec_trim_end_lf().spec_union(
                backward_fired_bytes(f, s.subrange(0, s.len() - 1)),
            )
        } else if is_ascii_whitespace_byte(b) && f.ends_whitespace_active() {
            FormatFeature::spec_trim_end_whitespace().spec_union(
                backward_fired_bytes(f, s.subrange(0, s.len() - 1)),
            )
        } else {
            FormatFeature::spec_empty()
        }
    }
}

/// The normalized body of a raw buffer, without the trailing sentinel.
pub open spec fn normalize_bytes(f: FormatFeature, s: Seq<u8>) -> Seq<u8> {
    backward_pass_bytes(f, forward_pass_bytes(f, body_bytes(s), false))
}

/// The rules that removed at least one byte over the whole pass.
pub open spec fn matched_rules_bytes(f: FormatFeature, s: Seq<u8>) -> FormatFeature {
    forward_fired_bytes(f, body_bytes(s), false).spec_union(
        backward_fired_bytes(f, forward_pass_bytes(f, body_bytes(s), false)),
    )
}

// ---------------------------------------------------------------------------
// Laws of the byte-level pass, mirroring the character-level ones.
// ---------------------------------------------------------------------------
/// Everything before the first NUL is itself not NUL.
proof fn lemma_body_end_bytes_no_nul(s: Seq<u8>)
    ensures
        forall|j: int| 0 <= j < body_end_bytes(s) ==> s[j] != 0,
    decreases s.len(),
{
    lemma_body_end_bytes_bounds(s);
    if s.len() > 0 && s[0] != 0 {
        let rest = s.subrange(1, s.len() as int);
        lemma_body_end_bytes_no_nul(rest);
        lemma_body_end_bytes_bounds(rest);
        assert(forall|j: int|
            1 <= j < body_end_bytes(s) ==> s[j] == rest[j - 1] && rest[j - 1] != 0);
    }
}

/// The forward pass keeps only bytes of its input.
proof fn lemma_forward_bytes_preserves(
    f: FormatFeature,
    s: Seq<u8>,
    accepted: bool,
    p: spec_fn(u8) -> bool,
)
    requires
        forall|j: int| 0 <= j < s.len() ==> p(s[j]),
    ensures
        forall|j: int|
            0 <= j < forward_pass_bytes(f, s, accepted).len() ==> p(
                forward_pass_bytes(f, s, accepted)[j],
            ),
    decreases s.len(),
{
    if s.len() > 0 {
        let b = s[0];
        let rest = s.subrange(1, s.len() as int);
        assert(forall|j: int| 0 <= j < rest.len() ==> p(rest[j]));
        lemma_forward_bytes_preserves(f, rest, false, p);
        lemma_forward_bytes_preserves(f, rest, accepted, p);
        lemma_forward_bytes_preserves(f, rest, true, p);
        let res = forward_pass_bytes(f, s, accepted);
        if !(!accepted && b == 0x0A && f.trim_start_lf) && !(!accepted && is_ascii_whitespace_byte(
            b,
        ) && f.starts_whitespace_active()) && !(b == 0x0D && f.trim_cr) {
            assert(res == seq![b] + forward_pass_bytes(f, rest, true));
            assert forall|j: int| 0 <= j < res.len() implies p(res[j]) by {
                if j > 0 {
                    assert(res[j] == forward_pass_bytes(f, rest, true)[j - 1]);
                }
            }
        }
    }
}

/// When carriage returns are trimmed, none survives the forward pass.
proof fn lemma_forward_bytes_no_cr(f: FormatFeature, s: Seq<u8>, accepted: bool)
    requires
        f.trim_cr,
    ensures
        forall|j: int|
            0 <= j < forward_pass_bytes(f, s, accepted).len() ==> forward_pass_bytes(
                f,
                s,
                accepted,
            )[j] != 0x0D,
    decreases s.len(),
{
    if s.len() > 0 {
        let b = s[0];
        let rest = s.subrange(1, s.len() as int);
        lemma_forward_bytes_no_cr(f, rest, false);
        lemma_forward_bytes_no_cr(f, rest, accepted);
        lemma_forward_bytes_no_cr(f, rest, true);
        let res = forward_pass_bytes(f, s, accepted);
        if !(!accepted && b == 0x0A && f.trim_start_lf) && !(!accepted && is_ascii_whitespace_byte(
            b,
        ) && f.starts_whitespace_active()) && !(b == 0x0D && f.trim_cr) {
            assert(res == seq![b] + forward_pass_bytes(f, rest, true));
            assert forall|j: int| 0 <= j < res.len() implies res[j] != 0x0D by {
                if j > 0 {
                    assert(res[j] == forward_pass_bytes(f, rest, true)[j - 1]);
                }
            }
        }
    }
}

/// Whether a leading byte is dropped before anything was accepted.
pub open spec fn start_droppable_byte(f: FormatFeature, b: u8) -> bool {
    (b == 0x0A && f.trim_start_lf) || (is_ascii_whitespace_byte(b) && f.starts_whitespace_active())
}

/// Whether a trailing byte is dropped by the backward pass.
pub open spec fn end_droppable_byte(f: FormatFeature, b: u8) -> bool {
    (b == 0x0A && f.trim_end_lf) || (is_ascii_whitespace_byte(b) && f.ends_whitespace_active())
}

/// The first surviving byte of the forward pass is not droppable at the
/// start, nor a trimmed carriage return.
proof fn lemma_forward_bytes_first(f: FormatFeature, s: Seq<u8>)
    ensures
        forward_pass_bytes(f, s, false).len() > 0 ==> !start_droppable_byte(
            f,
            forward_pass_bytes(f, s, false)[0],
        ) && !(forward_pass_bytes(f, s, false)[0] == 0x0D && f.trim_cr),
    decreases s.len(),
{
    if s.len() > 0 {
        let rest = s.subrange(1, s.len() as int);
        lemma_forward_bytes_first(f, rest);
    }
}

/// After a byte was accepted, the forward pass only removes trimmed carriage
/// returns; without any, it is the identity and fires nothing.
proof fn lemma_forward_bytes_noop_accepted(f: FormatFeature, s: Seq<u8>)
    requires
        forall|j: int| 0 <= j < s.len() ==> !(s[j] == 0x0D && f.trim_cr),
    ensures
        forward_pass_bytes(f, s, true) == s,
        forward_fired_bytes(f, s, true) == FormatFeature::spec_empty(),
    decreases s.len(),
{
    if s.len() > 0 {
        let rest = s.subrange(1, s.len() as int);
        lemma_forward_bytes_noop_accepted(f, rest);
        assert(seq![s[0]] + rest =~= s);
    }
}

/// A buffer whose head is not droppable and which holds no trimmed carriage
/// return passes the forward scan unchanged, firing nothing.
proof fn lemma_forward_bytes_noop(f: FormatFeature, s: Seq<u8>)
    requires
        s.len() > 0 ==> !start_droppable_byte(f, s[0]),
        forall|j: int| 0 <= j < s.len() ==> !(s[j] == 0x0D && f.trim_cr),
    ensures
        forward_pass_bytes(f, s, false) == s,
        forward_fired_bytes(f, s, false) == FormatFeature::spec_empty(),
{
    if s.len() > 0 {
        let rest = s.subrange(1, s.len() as int);
        lemma_forward_bytes_noop_accepted(f, rest);
        assert(seq![s[0]] + rest =~= s);
    }
}

/// The backward pass returns a prefix of its input.
proof fn lemma_backward_bytes_prefix(f: FormatFeature, s: Seq<u8>)
    ensures
        backward_pass_bytes(f, s).len() <= s.len(),
        forall|j: int|
            0 <= j < backward_pass_bytes(f, s).len() ==> backward_pass_bytes(f, s)[j] == s[j],
    decreases s.len(),
{
    if s.len() > 0 && end_droppable_byte(f, s[s.len() - 1]) {
        let sub = s.subrange(0, s.len() - 1);
        lemma_backward_bytes_prefix(f, sub);
        let res = backward_pass_bytes(f, s);
        assert(res == backward_pass_bytes(f, sub));
        assert forall|j: int| 0 <= j < res.len() implies res[j] == s[j] by {
            assert(res[j] == sub[j]);
        }
    }
}

/// The last surviving byte of the backward pass is not droppable at the end.
proof fn lemma_backward_bytes_last(f: FormatFeature, s: Seq<u8>)
    ensures
        backward_pass_bytes(f, s).len() > 0 ==> !end_droppable_byte(
            f,
            backward_pass_bytes(f, s)[backward_pass_bytes(f, s).len() - 1],
        ),
    decreases s.len(),
{
    if s.len() > 0 && end_droppable_byte(f, s[s.len() - 1]) {
        lemma_backward_bytes_last(f, s.subrange(0, s.len() - 1));
    }
}

/// A buffer whose last byte is not droppable passes the backward pass
/// unchanged, firing nothing.
proof fn lemma_backward_bytes_noop(f: FormatFeature, s: Seq<u8>)
    requires
        s.len() > 0 ==> !end_droppable_byte(f, s[s.len() - 1]),
    ensures
        backward_pass_bytes(f, s) == s,
        backward_fired_bytes(f, s) == FormatFeature::spec_empty(),
{
}

/// The forward pass shortens its input exactly when it fires a rule.
proof fn lemma_forward_bytes_len(f: FormatFeature, s: Seq<u8>, accepted: bool)
    ensures
        forward_pass_bytes(f, s, accepted).len() <= s.len(),
        forward_fired_bytes(f, s, accepted).spec_is_empty() ==> forward_pass_bytes(f, s, accepted)
            == s,
        !forward_fired_bytes(f, s, accepted).spec_is_empty() ==> forward_pass_bytes(
            f,
            s,
            accepted,
        ).len() < s.len(),
    decreases s.len(),
{
    if s.len() > 0 {
        let rest = s.subrange(1, s.len() as int);
        lemma_forward_bytes_len(f, rest, false);
        lemma_forward_bytes_len(f, rest, accepted);
        lemma_forward_bytes_len(f, rest, true);
        assert(seq![s[0]] + rest =~= s);
    }
}

/// The backward pass shortens its input exactly when it fires a rule.
proof fn lemma_backward_bytes_len(f: FormatFeature, s: Seq<u8>)
    ensures
        backward_pass_bytes(f, s).len() <= s.len(),
        backward_fired_bytes(f, s).spec_is_empty() ==> backward_pass_bytes(f, s) == s,
        !backward_fired_bytes(f, s).spec_is_empty() ==> backward_pass_bytes(f, s).len() < s.len(),
    decreases s.len(),
{
    if s.len() > 0 && end_droppable_byte(f, s[s.len() - 1]) {
        lemma_backward_bytes_len(f, s.subrange(0, s.len() - 1));
    }
}

/// A normalized buffer is a fixed point of both passes and holds no NUL, so
/// it is its own meaningful body.
proof fn lemma_bytes_second_pass(f: FormatFeature, s: Seq<u8>)
    ensures
        forward_pass_bytes(f, normalize_bytes(f, s), false) == normalize_bytes(f, s),
        forward_fired_bytes(f, normalize_bytes(f, s), false) == FormatFeature::spec_empty(),
        backward_pass_bytes(f, normalize_bytes(f, s)) == normalize_bytes(f, s),
        backward_fired_bytes(f, normalize_bytes(f, s)) == FormatFeature::spec_empty(),
        body_end_bytes(normalize_bytes(f, s)) == normalize_bytes(f, s).len(),
{
    let body = body_bytes(s);
    let fwd = forward_pass_bytes(f, body, false);
    let out = backward_pass_bytes(f, fwd);
    lemma_backward_bytes_prefix(f, fwd);
    lemma_body_end_bytes_no_nul(s);
    lemma_body_end_bytes_bounds(s);
    assert(forall|j: int| 0 <= j < body.len() ==> body[j] != 0);
    let no_nul = |b: u8| b != 0;
    lemma_forward_bytes_preserves(f, body, false, no_nul);
    assert forall|j: int| 0 <= j < out.len() implies out[j] != 0 by {
        assert(out[j] == fwd[j]);
        assert(no_nul(fwd[j]));
    }
    lemma_body_end_bytes_first_nul(out, out.len() as int);
    lemma_forward_bytes_first(f, body);
    if f.trim_cr {
        lemma_forward_bytes_no_cr(f, body, false);
    }
    assert(forall|j: int| 0 <= j < out.len() ==> out[j] == fwd[j]);
    assert(forall|j: int| 0 <= j < out.len() ==> !(out[j] == 0x0D && f.trim_cr));
    assert(out.len() > 0 ==> !start_droppable_byte(f, out[0]));
    lemma_forward_bytes_noop(f, out);
    lemma_backward_bytes_last(f, fwd);
    lemma_backward_bytes_noop(f, out);
}

/// Idempotence of the byte-level pass: normalizing an already normalized
/// buffer returns it unchanged and fires no rule; this also holds across the
/// trailing sentinel that the formatter appends.
pub proof fn lemma_normalize_bytes_idempotent(f: FormatFeature, s: Seq<u8>)
    ensures
        normalize_bytes(f, normalize_bytes(f, s)) == normalize_bytes(f, s),
        matched_rules_bytes(f, normalize_bytes(f, s)).spec_is_empty(),
        normalize_bytes(f, normalize_bytes(f, s).push(0u8)) == normalize_bytes(f, s),
        matched_rules_bytes(f, normalize_bytes(f, s).push(0u8)).spec_is_empty(),
{
    let out = normalize_bytes(f, s);
    lemma_bytes_second_pass(f, s);
    assert(body_bytes(out) =~= out);
    let outz = out.push(0u8);
    lemma_body_end_bytes_no_nul(out);
    assert(forall|j: int| 0 <= j < out.len() ==> outz[j] == out[j] && outz[j] != 0);
    lemma_body_end_bytes_first_nul(outz, out.len() as int);
    assert(body_bytes(outz) =~= out);
}

/// `has_changed` consistency for the byte-level pass: a rule fired if and
/// only if the normalized buffer differs from the meaningful body of the
/// input.
pub proof fn lemma_bytes_has_changed_consistency(f: FormatFeature, s: Seq<u8>)
    ensures
        !matched_rules_bytes(f, s).spec_is_empty() <==> normalize_bytes(f, s) != body_bytes(s),
{
    let body = body_bytes(s);
    let fwd = forward_pass_bytes(f, body, false);
    lemma_forward_bytes_len(f, body, false);
    lemma_backward_bytes_len(f, fwd);
    lemma_backward_bytes_prefix(f, fwd);
}

/// Every rule the forward pass fires was requested.
proof fn lemma_forward_fired_bytes_within(f: FormatFeature, s: Seq<u8>, accepted: bool)
    ensures
        f.spec_contains(forward_fired_bytes(f, s, accepted)),
    decreases s.len(),
{
    if s.len() > 0 {
        let rest = s.subrange(1, s.len() as int);
        lemma_forward_fired_bytes_within(f, rest, false);
        lemma_forward_fired_bytes_within(f, rest, accepted);
        lemma_forward_fired_bytes_within(f, rest, true);
    }
}

/// Every rule the backward pass fires was requested.
proof fn lemma_backward_fired_bytes_within(f: FormatFeature, s: Seq<u8>)
    ensures
        f.spec_contains(backward_fired_bytes(f, s)),
    decreases s.len(),
{
    if s.len() > 0 {
        lemma_backward_fired_bytes_within(f, s.subrange(0, s.len() - 1));
    }
}

/// The matched rule set is a subset of the requested one: only requested
/// rules can fire.
pub proof fn lemma_matched_bytes_within_requested(f: FormatFeature, s: Seq<u8>)
    ensures
        f.spec_contains(matched_rules_bytes(f, s)),
{
    lemma_forward_fired_bytes_within(f, body_bytes(s), false);
    lemma_backward_fired_bytes_within(f, forward_pass_bytes(f, body_bytes(s), false));
}

/// Whether a byte is ASCII whitespace.
pub fn is_ascii_ws(b: u8) -> (r: bool)
    ensures
        r == is_ascii_whitespace_byte(b),
{
    b == 0x20 || b == 0x09 || b == 0x0A || b == 0x0C || b == 0x0D
}

// ---------------------------------------------------------------------------
// The executable formatter.
// ---------------------------------------------------------------------------
/// Normalizes raw 8-bit text. The input is a NUL-terminated byte buffer; the
/// scanned body ends at the first NUL, and the result carries a trailing NUL
/// again.
pub struct AsciiFormatter {
    pub feature: FormatFeature,
}

impl AsciiFormatter {
    /// Normalizes the buffer `text`. Fails when the configured rule set is
    /// empty or when the meaningful body of the buffer is empty; otherwise
    /// returns the rewritten NUL-terminated bytes and the rules that fired.
    pub fn fmt(&self, text: &Vec<u8>) -> (r: Result<FormatResult<Vec<u8>>, ClipdError>)
        ensures
            self.feature.spec_is_empty() ==> r is Err && r->Err_0 == ClipdError::EmptyFeatureSet,
            !self.feature.spec_is_empty() && body_bytes(text@).len() == 0 ==> r is Err
                && r->Err_0 == ClipdError::EmptyInput,
            r is Ok <==> !self.feature.spec_is_empty() && body_bytes(text@).len() > 0,
            r is Ok ==> r->Ok_0.data@ == normalize_bytes(self.feature, text@).push(0u8),
            r is Ok ==> r->Ok_0.matched_feature == matched_rules_bytes(self.feature, text@),
    {
        if self.feature.is_empty() {
            return Err(ClipdError::EmptyFeatureSet);
        }
        let f = self.feature;
        let n = text.len();

        // The meaningful body ends at the first NUL sentinel.
        let mut k: usize = 0;
        while k < n && text[k] != 0
            invariant
                k <= n,
                n == text@.len(),
                forall|j: int| 0 <= j < k ==> text@[j] != 0,
            decreases n - k,
        {
            k = k + 1;
        }
        proof {
            lemma_body_end_bytes_first_nul(text@, k as int);
        }
        let ghost body = body_bytes(text@);
        assert(body =~= text@.subrange(0, k as int));
        if k == 0 {
            return Err(ClipdError::EmptyInput);
        }
        // Forward scan.
        let mut out: Vec<u8> = Vec::new();
        let mut matched = FormatFeature::empty();
        let mut i: usize = 0;
        proof {
            assert(body.subrange(0, k as int) =~= body);
            assert(out@ + forward_pass_bytes(f, body, false) =~= forward_pass_bytes(
                f,
                body,
                false,
            ));
        }
        while i < k
            invariant
                i <= k <= text@.len(),
                body == text@.subrange(0, k as int),
                forward_pass_bytes(f, body, false) == out@ + forward_pass_bytes(
                    f,
                    body.subrange(i as int, k as int),
                    out@.len() > 0,
                ),
                forward_fired_bytes(f, body, false) == matched.spec_union(
                    forward_fired_bytes(f, body.subrange(i as int, k as int), out@.len() > 0),
                ),
            decreases k - i,
        {
            let b = text[i];
            let ghost rem = body.subrange(i as int, k as int);
            proof {
                assert(rem[0] == b);
                assert(rem.subrange(1, rem.len() as int) =~= body.subrange(
                    i as int + 1,
                    k as int,
                ));
            }
            if out.len() == 0 && b == 0x0A && f.trim_start_lf {
                matched = matched.union(FormatFeature::trim_start_lf());
            } else if out.len() == 0 && is_ascii_ws(b) && f.trim_start_lf && f.trim_start_ws {
                matched = matched.union(FormatFeature::trim_start_whitespace());
            } else if b == 0x0D && f.trim_cr {
                matched = matched.union(FormatFeature::trim_cr());
            } else {
                let ghost out0 = out@;
                out.push(b);
                proof {
                    assert(out@ =~= out0 + seq![b]);
                    assert(out0 + (seq![b] + forward_pass_bytes(
                        f,
                        rem.subrange(1, rem.len() as int),
                        true,
                    )) =~= out@ + forward_pass_bytes(f, rem.subrange(1, rem.len() as int), true));
                }
            }
            i = i + 1;
        }
        proof {
            assert(body.subrange(k as int, k as int) =~= Seq::<u8>::empty());
            assert(out@ + Seq::<u8>::empty() =~= out@);
        }
        let ghost fwd_full = forward_pass_bytes(f, body, false);
        assert(fwd_full == out@);

        // Backward trim.
        let ghost target = forward_fired_bytes(f, body, false).spec_union(
            backward_fired_bytes(f, fwd_full),
        );
        let mut trimming = true;
        while trimming && out.len() > 0
            invariant
                backward_pass_bytes(f, fwd_full) == backward_pass_bytes(f, out@),
                target == matched.spec_union(backward_fired_bytes(f, out@)),
                !trimming ==> backward_pass_bytes(f, out@) == out@ && backward_fired_bytes(f, out@)
                    == FormatFeature::spec_empty(),
            decreases out.len(), (if trimming { 1int } else { 0int }),
        {
            let b = out[out.len() - 1];
            let ghost cur = out@;
            if b == 0x0A && f.trim_end_lf {
                out.pop();
                matched = matched.union(FormatFeature::trim_end_lf());
                proof {
                    assert(out@ =~= cur.subrange(0, cur.len() - 1));
                }
            } else if is_ascii_ws(b) && f.trim_end_lf && f.trim_end_ws {
                out.pop();
                matched = matched.union(FormatFeature::trim_end_whitespace());
                proof {
                    assert(out@ =~= cur.subrange(0, cur.len() - 1));
                }
            } else {
                trimming = false;
            }
        }
        assert(backward_pass_bytes(f, out@) == out@);
        assert(normalize_bytes(f, text@) == out@);
        assert(matched == matched_rules_bytes(f, text@));

        out.push(0);
        Ok(FormatResult { data: out, matched_feature: matched })
    }
}

impl Default for AsciiFormatter {
    fn default() -> (r: AsciiFormatter)
        ensures
            r.feature == FormatFeature::spec_default_preset(),
    {
        AsciiFormatter { feature: FormatFeature::all() }
    }
}

impl Formatter<Vec<u8>, Vec<u8>> for AsciiFormatter {
    open spec fn spec_feature(&self) -> FormatFeature {
        self.feature
    }

    fn new(feature: FormatFeature) -> Result<AsciiFormatter, ClipdError> {
        Ok(AsciiFormatter { feature })
    }

    fn fmt(&self, text: &Vec<u8>) -> Result<FormatResult<Vec<u8>>, ClipdError> {
        let r = AsciiFormatter::fmt(self, text);
        proof {
            lemma_matched_bytes_within_requested(self.feature, text@);
        }
        r
    }
}

} // verus!
