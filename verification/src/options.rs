//! Per-request output options: a fixed output format and a cap on the number
//! of candidate records per address, merged from caller overrides over
//! process-wide defaults.

use vstd::prelude::*;

verus! {

/// The output encoding a caller may ask for: nested object notation or flat
/// rows with a header line.
#[derive(Clone, Copy, Debug, PartialEq, Eq, Structural)]
pub enum OutFormat {
    Json,
    Csv,
}

/// Effective per-request settings: every field resolved to a concrete value.
#[derive(Clone, Copy, Debug, PartialEq, Eq, Structural)]
pub struct Options {
    pub format: OutFormat,
    pub results: i32,
}

/// Caller-supplied overrides: any field may be absent, in which case the
/// default is kept.
#[derive(Clone, Copy, Debug, PartialEq, Eq, Structural)]
pub struct OptionsOpt {
    pub format: Option<OutFormat>,
    pub results: Option<i32>,
}

impl Default for Options {
    /// The process-wide defaults: structured output, ten candidates per address.
    fn default() -> (r: Options)
        ensures
            r == (Options { format: OutFormat::Json, results: 10i32 }),
    {
        Options { format: OutFormat::Json, results: 10 }
    }
}

impl Options {
    /// Overwrites each field for which `other` carries a value; fields absent
    /// from `other` are kept.
    pub fn merge_opt(&mut self, other: OptionsOpt)
        ensures
            final(self).format == (match other.format {
                Some(f) => f,
                None => old(self).format,
            }),
            final(self).results == (match other.results {
                Some(n) => n,
                None => old(self).results,
            }),
    {
        if let Some(f) = other.format {
            self.format = f;
        }
        if let Some(n) = other.results {
            self.results = n;
        }
    }
}

/// Resolves caller overrides over the defaults: an absent field keeps the
/// default (`Json`, 10 results), a present field replaces it.
pub fn merge(a: OptionsOpt) -> (r: Options)
    ensures
        r.format == (match a.format {
            Some(f) => f,
            None => OutFormat::Json,
        }),
        r.results == (match a.results {
            Some(n) => n,
            None => 10i32,
        }),
{
    let mut out = Options::default();
    out.merge_opt(a);
    out
}

} // verus!
