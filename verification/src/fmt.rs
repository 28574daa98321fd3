use vstd::prelude::*;

use crate::error::ClipdError;

pub mod ascii;
pub mod unicode;

pub use unicode::UnicodeFormatter;

verus! {

/// The formatter used for clipboard text.
pub type StringFormatter = UnicodeFormatter;

/// An immutable set of normalization rules.
///
/// The two whitespace rules are supersets of the corresponding line-feed
/// rules: a set built from `trim_start_whitespace()` also carries the
/// `trim_start_lf` flag, and likewise at the end. The whitespace rules are
/// only active when the matching line-feed flag is present, which mirrors
/// that containment.
#[derive(Clone, Copy, Debug, PartialEq, Eq, Hash, Structural)]
pub struct FormatFeature {
    pub trim_start_lf: bool,
    pub trim_start_ws: bool,
    pub trim_cr: bool,
    pub trim_end_lf: bool,
    pub trim_end_ws: bool,
}

impl FormatFeature {
    pub open spec fn spec_empty() -> FormatFeature {
        FormatFeature {
            trim_start_lf: false,
            trim_start_ws: false,
            trim_cr: false,
            trim_end_lf: false,
            trim_end_ws: false,
        }
    }

    pub open spec fn spec_is_empty(self) -> bool {
        !self.trim_start_lf && !self.trim_start_ws && !self.trim_cr && !self.trim_end_lf
            && !self.trim_end_ws
    }

    pub open spec fn spec_union(self, other: FormatFeature) -> FormatFeature {
        FormatFeature {
            trim_start_lf: self.trim_start_lf || other.trim_start_lf,
            trim_start_ws: self.trim_start_ws || other.trim_start_ws,
            trim_cr: self.trim_cr || other.trim_cr,
            trim_end_lf: self.trim_end_lf || other.trim_end_lf,
            trim_end_ws: self.trim_end_ws || other.trim_end_ws,
        }
    }

    pub open spec fn spec_contains(self, other: FormatFeature) -> bool {
        (other.trim_start_lf ==> self.trim_start_lf) && (other.trim_start_ws
            ==> self.trim_start_ws) && (other.trim_cr ==> self.trim_cr) && (other.trim_end_lf
            ==> self.trim_end_lf) && (other.trim_end_ws ==> self.trim_end_ws)
    }

    /// Whether leading-whitespace trimming is active: the whitespace rule is a
    /// superset of the line-feed rule, so both flags must be present.
    pub open spec fn starts_whitespace_active(self) -> bool {
        self.trim_start_lf && self.trim_start_ws
    }

    /// Whether trailing-whitespace trimming is active.
    pub open spec fn ends_whitespace_active(self) -> bool {
        self.trim_end_lf && self.trim_end_ws
    }

    pub open spec fn spec_trim_start_lf() -> FormatFeature {
        FormatFeature { trim_start_lf: true, ..FormatFeature::spec_empty() }
    }

    pub open spec fn spec_trim_start_whitespace() -> FormatFeature {
        FormatFeature { trim_start_lf: true, trim_start_ws: true, ..FormatFeature::spec_empty() }
    }

    pub open spec fn spec_trim_cr() -> FormatFeature {
        FormatFeature { trim_cr: true, ..FormatFeature::spec_empty() }
    }

    pub open spec fn spec_trim_end_lf() -> FormatFeature {
        FormatFeature { trim_end_lf: true, ..FormatFeature::spec_empty() }
    }

    pub open spec fn spec_trim_end_whitespace() -> FormatFeature {
        FormatFeature { trim_end_lf: true, trim_end_ws: true, ..FormatFeature::spec_empty() }
    }

    pub open spec fn spec_all() -> FormatFeature {
        FormatFeature {
            trim_start_lf: true,
            trim_start_ws: true,
            trim_cr: true,
            trim_end_lf: true,
            trim_end_ws: true,
        }
    }

    /// The default preset: trim whitespace at both ends and carriage returns
    /// everywhere.
    pub open spec fn spec_default_preset() -> FormatFeature {
        FormatFeature::spec_all()
    }

    /// No rule enabled. An empty set is not a valid input to normalization.
    pub fn empty() -> (r: FormatFeature)
        ensures
            r == FormatFeature::spec_empty(),
    {
        FormatFeature {
            trim_start_lf: false,
            trim_start_ws: false,
            trim_cr: false,
            trim_end_lf: false,
            trim_end_ws: false,
        }
    }

    /// Every rule enabled.
    pub fn all() -> (r: FormatFeature)
        ensures
            r == FormatFeature::spec_all(),
    {
        FormatFeature {
            trim_start_lf: true,
            trim_start_ws: true,
            trim_cr: true,
            trim_end_lf: true,
            trim_end_ws: true,
        }
    }

    /// Drop one leading line feed for each pass over the start of the text.
    pub fn trim_start_lf() -> (r: FormatFeature)
        ensures
            r == FormatFeature::spec_trim_start_lf(),
    {
        FormatFeature { trim_start_lf: true, ..FormatFeature::empty() }
    }

    /// Drop leading whitespace; a superset of `trim_start_lf`.
    pub fn trim_start_whitespace() -> (r: FormatFeature)
        ensures
            r == FormatFeature::spec_trim_start_whitespace(),
    {
        FormatFeature { trim_start_lf: true, trim_start_ws: true, ..FormatFeature::empty() }
    }

    /// Drop carriage returns anywhere in the text.
    pub fn trim_cr() -> (r: FormatFeature)
        ensures
            r == FormatFeature::spec_trim_cr(),
    {
        FormatFeature { trim_cr: true, ..FormatFeature::empty() }
    }

    /// Drop trailing line feeds.
    pub fn trim_end_lf() -> (r: FormatFeature)
        ensures
            r == FormatFeature::spec_trim_end_lf(),
    {
        FormatFeature { trim_end_lf: true, ..FormatFeature::empty() }
    }

    /// Drop trailing whitespace; a superset of `trim_end_lf`.
    pub fn trim_end_whitespace() -> (r: FormatFeature)
        ensures
            r == FormatFeature::spec_trim_end_whitespace(),
    {
        FormatFeature { trim_end_lf: true, trim_end_ws: true, ..FormatFeature::empty() }
    }

    /// Union of `trim_start_lf` and `trim_end_lf`.
    pub fn trim_start_end_lf() -> (r: FormatFeature)
        ensures
            r == FormatFeature::spec_trim_start_lf().spec_union(
                FormatFeature::spec_trim_end_lf(),
            ),
    {
        FormatFeature { trim_start_lf: true, trim_end_lf: true, ..FormatFeature::empty() }
    }

    /// Union of `trim_start_whitespace` and `trim_end_whitespace`.
    pub fn trim_start_end_whitespace() -> (r: FormatFeature)
        ensures
            r == FormatFeature::spec_trim_start_whitespace().spec_union(
                FormatFeature::spec_trim_end_whitespace(),
            ),
    {
        FormatFeature {
            trim_start_lf: true,
            trim_start_ws: true,
            trim_end_lf: true,
            trim_end_ws: true,
            ..FormatFeature::empty()
        }
    }

    pub fn is_empty(&self) -> (r: bool)
        ensures
            r == self.spec_is_empty(),
    {
        !self.trim_start_lf && !self.trim_start_ws && !self.trim_cr && !self.trim_end_lf
            && !self.trim_end_ws
    }

    pub fn union(self, other: FormatFeature) -> (r: FormatFeature)
        ensures
            r == self.spec_union(other),
    {
        FormatFeature {
            trim_start_lf: self.trim_start_lf || other.trim_start_lf,
            trim_start_ws: self.trim_start_ws || other.trim_start_ws,
            trim_cr: self.trim_cr || other.trim_cr,
            trim_end_lf: self.trim_end_lf || other.trim_end_lf,
            trim_end_ws: self.trim_end_ws || other.trim_end_ws,
        }
    }

    pub fn contains(&self, other: FormatFeature) -> (r: bool)
        ensures
            r == self.spec_contains(other),
    {
        (!other.trim_start_lf || self.trim_start_lf) && (!other.trim_start_ws
            || self.trim_start_ws) && (!other.trim_cr || self.trim_cr) && (!other.trim_end_lf
            || self.trim_end_lf) && (!other.trim_end_ws || self.trim_end_ws)
    }

    /// Fails when the set holds a rule it must not hold.
    pub fn unexpect(&self, other: FormatFeature) -> (r: Result<&FormatFeature, ClipdError>)
        ensures
            self.spec_contains(other) ==> r is Err && r->Err_0 == ClipdError::UnsupportedFeature,
            !self.spec_contains(other) ==> r is Ok && *r->Ok_0 == *self,
    {
        if self.contains(other) {
            Err(ClipdError::UnsupportedFeature)
        } else {
            Ok(self)
        }
    }

    /// Fails when the set is empty: an empty set is not a valid configuration.
    pub fn expect(self) -> (r: Result<FormatFeature, ClipdError>)
        ensures
            self.spec_is_empty() ==> r is Err && r->Err_0 == ClipdError::EmptyFeatureSet,
            !self.spec_is_empty() ==> r is Ok && r->Ok_0 == self,
    {
        if self.is_empty() {
            Err(ClipdError::EmptyFeatureSet)
        } else {
            Ok(self)
        }
    }
}

impl Default for FormatFeature {
    /// The default preset trims whitespace at both ends and carriage returns.
    fn default() -> (r: FormatFeature)
        ensures
            r == FormatFeature::spec_default_preset(),
    {
        FormatFeature::all()
    }
}

/// The outcome of one normalization pass: the rewritten text together with
/// the set of rules that actually removed at least one character.
#[derive(Debug)]
pub struct FormatResult<S> {
    pub data: S,
    pub matched_feature: FormatFeature,
}

impl<S> FormatResult<S> {
    pub fn new(data: S, matched_feature: FormatFeature) -> (r: FormatResult<S>)
        ensures
            r.data == data,
            r.matched_feature == matched_feature,
    {
        FormatResult { data, matched_feature }
    }

    /// Whether any rule removed a character; callers use this instead of a
    /// separate string comparison.
    pub fn has_changed(&self) -> (r: bool)
        ensures
            r == !self.matched_feature.spec_is_empty(),
    {
        !self.matched_feature.is_empty()
    }

    /// Rewrites the carried data, keeping the matched rule set.
    pub fn map<U, F: FnOnce(S) -> U>(self, op: F) -> (r: FormatResult<U>)
        requires
            call_requires(op, (self.data,)),
        ensures
            r.matched_feature == self.matched_feature,
            call_ensures(op, (self.data,), r.data),
    {
        let matched_feature = self.matched_feature;
        FormatResult { data: op(self.data), matched_feature }
    }
}

/// A normalization pass from a source representation to a result
/// representation, configured by a rule set.
pub trait Formatter<S, R>: Sized {
    /// The rule set this formatter applies.
    spec fn spec_feature(&self) -> FormatFeature;

    /// Builds a formatter over the given rule set; the emptiness of the set
    /// is only rejected when formatting.
    fn new(feature: FormatFeature) -> (r: Result<Self, ClipdError>)
        ensures
            r matches Ok(fm) && fm.spec_feature() == feature,
    ;

    /// Runs the pass; an empty rule set is not a valid configuration. The
    /// rules reported as matched are among the requested ones.
    fn fmt(&self, text: &S) -> (r: Result<FormatResult<R>, ClipdError>)
        ensures
            self.spec_feature().spec_is_empty() ==> r is Err,
            r is Ok ==> self.spec_feature().spec_contains(r->Ok_0.matched_feature),
    ;
}

} // verus!
