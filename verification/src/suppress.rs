use vstd::prelude::*;

use crate::error::ClipdError;
use crate::fmt::unicode::matched_rules;
use crate::fmt::{FormatFeature, FormatResult, UnicodeFormatter};

verus! {

/// The view of a last-emitted record: the characters of the remembered text,
/// if any.
pub open spec fn last_emitted_view(last: Option<String>) -> Option<Seq<char>> {
    match last {
        None => None,
        Some(s) => Some(s@),
    }
}

/// Whether a candidate text needs a formatting pass: yes unless it is exactly
/// the text remembered from the last write, which would only feed the
/// watcher's own output back to it.
pub open spec fn spec_needs_format(last: Option<Seq<char>>, text: Seq<char>) -> bool {
    match last {
        None => true,
        Some(s) => s != text,
    }
}

/// A normalizing formatter that remembers its last output, so that a watcher
/// does not react to the write it itself just made. The formatter appends a
/// NUL sentinel, matching the platform clipboard buffer contract.
#[derive(Debug)]
pub struct OSXClipboardFormatter {
    pub inner: UnicodeFormatter,
    pub last: Option<String>,
}

impl OSXClipboardFormatter {
    /// A suppressing formatter over the given rule set. The remembered text
    /// starts out empty, so the first read always formats.
    pub fn new(feature: FormatFeature) -> (r: Result<OSXClipboardFormatter, ClipdError>)
        ensures
            r is Ok,
            r->Ok_0.inner.feature == feature,
            r->Ok_0.inner.ends_with_zero,
            r->Ok_0.last is None,
    {
        Ok(
            OSXClipboardFormatter {
                inner: UnicodeFormatter { feature, ends_with_zero: true },
                last: None,
            },
        )
    }

    /// Runs the inner normalization pass and remembers the output as the last
    /// emitted text.
    pub fn fmt(&mut self, text: &String) -> (r: Result<FormatResult<String>, ClipdError>)
        ensures
            old(self).inner.feature.spec_is_empty() <==> r is Err,
            r is Err ==> r->Err_0 == ClipdError::EmptyFeatureSet && *final(self) == *old(self),
            r is Ok ==> r->Ok_0.data@ == old(self).inner.spec_output(text@)
                && r->Ok_0.matched_feature == matched_rules(old(self).inner.feature, text@)
                && final(self).inner == old(self).inner
                && last_emitted_view(final(self).last) == Some(old(self).inner.spec_output(text@)),
    {
        let res = match self.inner.fmt(text) {
            Ok(res) => res,
            Err(e) => {
                return Err(e);
            },
        };
        self.last = Some(res.data.clone());
        Ok(res)
    }

    /// Whether the candidate text needs formatting: true when nothing was
    /// emitted yet or the candidate differs from the last emitted text.
    pub fn is_need_fmt(&self, text: &String) -> (r: bool)
        ensures
            r == spec_needs_format(last_emitted_view(self.last), text@),
    {
        match &self.last {
            Some(s) => !s.eq(text),
            None => true,
        }
    }
}

impl Default for OSXClipboardFormatter {
    fn default() -> (r: OSXClipboardFormatter)
        ensures
            r.inner.feature == FormatFeature::spec_default_preset(),
            !r.inner.ends_with_zero,
            r.last is None,
    {
        OSXClipboardFormatter {
            inner: UnicodeFormatter { feature: FormatFeature::all(), ends_with_zero: false },
            last: None,
        }
    }
}

/// Feedback suppression: a text equal to the last emitted one never needs
/// formatting again.
pub proof fn lemma_feedback_suppression(written: Seq<char>)
    ensures
        !spec_needs_format(Some(written), written),
{
}

} // verus!
