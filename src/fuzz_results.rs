//! The filter and the findings of a fuzzing scan.
use vstd::prelude::*;
use crate::filter::{any_contained, any_prefix, contains_any, matches_any_prefix};
use crate::text::strings_view;

verus! {

/// The outcome of one fuzzing request.
#[derive(Clone, Debug)]
pub struct SingleFuzzScanResult {
    pub url: String,
    pub method: String,
    pub status: String,
    pub error: Option<String>,
    pub extra: Option<String>,
    pub payload: Vec<String>,
    pub body: String,
}

/// Status code prefixes and body substrings to keep or to drop.
#[derive(Clone, Debug)]
pub struct FuzzScanProcessorConfig {
    pub include_codes: Vec<String>,
    pub ignore: Vec<String>,
    pub include_body: Vec<String>,
    pub ignore_body: Vec<String>,
}

/// Whether a fuzzing outcome is kept. The body lists come first: an ignored
/// substring drops it, an included one keeps it. Then the status lists: an
/// ignored prefix drops it, an included one keeps it. Otherwise it is kept
/// only when neither list of inclusions has an entry.
pub open spec fn fuzz_keeps(c: FuzzScanProcessorConfig, status: Seq<char>, body: Seq<char>) -> bool {
    if any_contained(body, strings_view(c.ignore_body@)) {
        false
    } else if any_contained(body, strings_view(c.include_body@)) {
        true
    } else if any_prefix(status, strings_view(c.ignore@)) {
        false
    } else if any_prefix(status, strings_view(c.include_codes@)) {
        true
    } else {
        c.include_codes@.len() == 0 && c.include_body@.len() == 0
    }
}

/// The findings of a fuzzing scan and the filter they passed.
#[derive(Clone, Debug)]
pub struct FuzzScanProcessor {
    pub results: Vec<SingleFuzzScanResult>,
    pub config: FuzzScanProcessorConfig,
}

impl FuzzScanProcessor {
    pub fn new(config: FuzzScanProcessorConfig) -> (r: Self)
        ensures
            r.results@.len() == 0,
            r.config == config,
    {
        FuzzScanProcessor { results: Vec::new(), config }
    }

    /// Keeps the outcome when the filter allows, and says whether it did.
    pub fn maybe_add_result(&mut self, res: SingleFuzzScanResult) -> (added: bool)
        ensures
            added == fuzz_keeps(old(self).config, res.status@, res.body@),
            final(self).config == old(self).config,
            final(self).results@ == if added {
                old(self).results@.push(res)
            } else {
                old(self).results@
            },
    {
        let keep = if contains_any(res.body.as_str(), &self.config.ignore_body) {
            false
        } else if contains_any(res.body.as_str(), &self.config.include_body) {
            true
        } else if matches_any_prefix(res.status.as_str(), &self.config.ignore) {
            false
        } else if matches_any_prefix(res.status.as_str(), &self.config.include_codes) {
            true
        } else {
            self.config.include_codes.len() == 0 && self.config.include_body.len() == 0
        };
        if keep {
            self.results.push(res);
        }
        keep
    }
}

/// With no body lists, an outcome whose status starts with an ignored code is
/// dropped whatever the list of included codes holds, and with a non-empty
/// list of included codes an outcome is kept only if its status starts with
/// one of them.
pub proof fn lemma_fuzz_status_filter(c: FuzzScanProcessorConfig, status: Seq<char>, body: Seq<char>)
    requires
        c.include_body@.len() == 0,
        c.ignore_body@.len() == 0,
    ensures
        any_prefix(status, strings_view(c.ignore@)) ==> !fuzz_keeps(c, status, body),
        c.include_codes@.len() > 0 && fuzz_keeps(c, status, body) ==> any_prefix(
            status,
            strings_view(c.include_codes@),
        ),
{
}

} // verus!
