//! The scan-and-mask engine: an ordered fold of the registry's detectors over
//! a working copy of the text.

use vstd::prelude::*;
use crate::patterns::{match_count, replaced, Registry, REDACTION_TOKEN};

verus! {

/// How often one category was detected in one scan.
pub struct Finding {
    /// The detector's label.
    pub category: String,
    /// The number of spans it redacted; at least one.
    pub count: usize,
}

/// What a scan returns: the redacted text and the findings in registry order.
pub struct ScanResult {
    pub masked: String,
    pub findings: Vec<Finding>,
}

impl View for Finding {
    type V = (Seq<char>, nat);

    open spec fn view(&self) -> (Seq<char>, nat) {
        (self.category@, self.count as nat)
    }
}

/// The findings as (label, count) pairs.
pub open spec fn findings_view(f: Seq<Finding>) -> Seq<(Seq<char>, nat)> {
    f.map_values(|x: Finding| x@)
}

/// The working text after the first `k` detectors of `rules` have been applied
/// to `text`: each one that matches replaces its matches by the token.
pub open spec fn masked_after(rules: Seq<(Seq<char>, Seq<char>)>, text: Seq<char>, k: nat) -> Seq<char>
    decreases k,
{
    if k == 0 {
        text
    } else {
        let w = masked_after(rules, text, (k - 1) as nat);
        let source = rules[k - 1].1;
        if match_count(source, w) > 0 {
            replaced(source, w, REDACTION_TOKEN@)
        } else {
            w
        }
    }
}

/// The indices of those among the first `k` detectors that matched the text
/// they were applied to, in registry order.
pub open spec fn hits_after(rules: Seq<(Seq<char>, Seq<char>)>, text: Seq<char>, k: nat) -> Seq<int>
    decreases k,
{
    if k == 0 {
        seq![]
    } else {
        let prev = hits_after(rules, text, (k - 1) as nat);
        if match_count(rules[k - 1].1, masked_after(rules, text, (k - 1) as nat)) > 0 {
            prev.push(k - 1)
        } else {
            prev
        }
    }
}

/// The (label, count) findings of the first `k` detectors, in registry order.
pub open spec fn findings_after(rules: Seq<(Seq<char>, Seq<char>)>, text: Seq<char>, k: nat) -> Seq<(Seq<char>, nat)>
    decreases k,
{
    if k == 0 {
        seq![]
    } else {
        let prev = findings_after(rules, text, (k - 1) as nat);
        let n = match_count(rules[k - 1].1, masked_after(rules, text, (k - 1) as nat));
        if n > 0 {
            prev.push((rules[k - 1].0, n))
        } else {
            prev
        }
    }
}

/// The redacted text of a full scan of `text` with `rules`.
pub open spec fn masked_text(rules: Seq<(Seq<char>, Seq<char>)>, text: Seq<char>) -> Seq<char> {
    masked_after(rules, text, rules.len())
}

/// The findings of a full scan of `text` with `rules`.
pub open spec fn findings_of(rules: Seq<(Seq<char>, Seq<char>)>, text: Seq<char>) -> Seq<(Seq<char>, nat)> {
    findings_after(rules, text, rules.len())
}

impl Registry {
    /// Applies every detector in registry order to a working copy of `text`.
    /// A detector that matches the current working text has each of its
    /// matches replaced by the redaction token and adds one finding with its
    /// match count; one that does not match leaves no trace.
    pub fn scan(&self, text: &str) -> (r: ScanResult)
        ensures
            r.masked@ == masked_text(self@, text@),
            findings_view(r.findings@) == findings_of(self@, text@),
    {
        let mut masked = text.to_owned();
        let mut findings: Vec<Finding> = Vec::new();
        let n = self.len();
        let mut i: usize = 0;
        while i < n
            invariant
                n == self@.len(),
                i <= n,
                masked@ == masked_after(self@, text@, i as nat),
                findings_view(findings@) == findings_after(self@, text@, i as nat),
            decreases n - i,
        {
            let d = self.detector(i);
            let count = crate::patterns::count_matches(d, masked.as_str());
            if count > 0 {
                masked = crate::patterns::replace_matches(d, masked.as_str(), REDACTION_TOKEN);
                let category = d.label().to_owned();
                let ghost before = findings@;
                findings.push(Finding { category, count });
                assert(findings_view(findings@) =~= findings_view(before).push((self@[i as int].0, count as nat)));
            }
            i = i + 1;
        }
        ScanResult { masked, findings }
    }
}

/// Text on which no detector of `rules` matches comes out of a scan
/// unchanged, with no findings.
pub proof fn lemma_clean_text_unchanged(rules: Seq<(Seq<char>, Seq<char>)>, text: Seq<char>)
    requires
        forall|i: int| 0 <= i < rules.len() ==> match_count(#[trigger] rules[i].1, text) == 0,
    ensures
        masked_text(rules, text) == text,
        findings_of(rules, text) == Seq::<(Seq<char>, nat)>::empty(),
{
    lemma_clean_prefix(rules, text, rules.len());
}

proof fn lemma_clean_prefix(rules: Seq<(Seq<char>, Seq<char>)>, text: Seq<char>, k: nat)
    requires
        k <= rules.len(),
        forall|i: int| 0 <= i < rules.len() ==> match_count(#[trigger] rules[i].1, text) == 0,
    ensures
        masked_after(rules, text, k) == text,
        findings_after(rules, text, k) == Seq::<(Seq<char>, nat)>::empty(),
    decreases k,
{
    if k > 0 {
        lemma_clean_prefix(rules, text, (k - 1) as nat);
        assert(match_count(rules[k - 1].1, text) == 0);
    }
}

/// The findings of a scan follow registry order: the `j`-th finding comes from
/// the detector at index `hits[j]`, carries its label and the number of its
/// matches in the text it was applied to, and these indices strictly increase,
/// whatever order the occurrences have in the input.
pub proof fn lemma_findings_in_registry_order(rules: Seq<(Seq<char>, Seq<char>)>, text: Seq<char>)
    ensures
        ({
            let f = findings_of(rules, text);
            let hits = hits_after(rules, text, rules.len());
            &&& hits.len() == f.len()
            &&& forall|j: int| 0 <= j < hits.len() ==> 0 <= #[trigger] hits[j] < rules.len()
            &&& forall|j: int, k: int| 0 <= j < k < hits.len() ==> #[trigger] hits[j] < #[trigger] hits[k]
            &&& forall|j: int| 0 <= j < f.len() ==> {
                &&& (#[trigger] f[j]).0 == rules[hits[j]].0
                &&& f[j].1 == match_count(rules[hits[j]].1, masked_after(rules, text, hits[j] as nat))
                &&& f[j].1 > 0
            }
        }),
{
    lemma_order_prefix(rules, text, rules.len());
}

proof fn lemma_order_prefix(rules: Seq<(Seq<char>, Seq<char>)>, text: Seq<char>, k: nat)
    requires
        k <= rules.len(),
    ensures
        ({
            let f = findings_after(rules, text, k);
            let hits = hits_after(rules, text, k);
            &&& hits.len() == f.len()
            &&& forall|j: int| 0 <= j < hits.len() ==> 0 <= #[trigger] hits[j] < k
            &&& forall|j: int, m: int| 0 <= j < m < hits.len() ==> #[trigger] hits[j] < #[trigger] hits[m]
            &&& forall|j: int| 0 <= j < f.len() ==> {
                &&& (#[trigger] f[j]).0 == rules[hits[j]].0
                &&& f[j].1 == match_count(rules[hits[j]].1, masked_after(rules, text, hits[j] as nat))
                &&& f[j].1 > 0
            }
        }),
    decreases k,
{
    if k > 0 {
        lemma_order_prefix(rules, text, (k - 1) as nat);
    }
}

} // verus!
