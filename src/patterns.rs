//! The detector registry: five labelled regular expressions in a fixed order.

use vstd::prelude::*;

verus! {

#[verifier::external_type_specification]
#[verifier::external_body]
pub struct ExRegex(regex::Regex);

#[verifier::external_type_specification]
#[verifier::external_body]
pub struct ExRegexError(regex::Error);

/// Whether `regex::Regex::new` accepts the pattern `source`.
pub uninterp spec fn compiles(source: Seq<char>) -> bool;

/// The number of non-overlapping, leftmost-first matches of the regular
/// expression `source` in `text`.
pub uninterp spec fn match_count(source: Seq<char>, text: Seq<char>) -> nat;

/// `text` with every non-overlapping match of the regular expression `source`
/// replaced by `rep`.
pub uninterp spec fn replaced(source: Seq<char>, text: Seq<char>, rep: Seq<char>) -> Seq<char>;

/// The text that takes the place of every detected span.
pub const REDACTION_TOKEN: &'static str = "[REDACTED]";

pub const SSN_LABEL: &'static str = "SSN";
pub const MRN_LABEL: &'static str = "MRN";
pub const EMAIL_LABEL: &'static str = "EMAIL";
pub const DOB_LABEL: &'static str = "DOB";
pub const PHONE_LABEL: &'static str = "PHONE";

pub const SSN_RULE: &'static str = r"\b\d{3}-\d{2}-\d{4}\b";
pub const MRN_RULE: &'static str = r"(?i)\b(?:MRN)[:\s#]*\d{6,10}\b";
pub const EMAIL_RULE: &'static str = r"\b[A-Za-z0-9._%+-]+@[A-Za-z0-9.-]+\.[A-Za-z]{2,}\b";
pub const DOB_RULE: &'static str = r"(?i)\b(?:DOB|Date of Birth)[:\s]*(?:\d{1,2}[/-]\d{1,2}[/-]\d{2,4}|\d{4}[/-]\d{1,2}[/-]\d{1,2})\b";
pub const PHONE_RULE: &'static str = r"\b(?:\+1[-.\s]?)?\(?\d{3}\)?[-.\s]?\d{3}[-.\s]?\d{4}\b";

/// Relies on `regex::Regex::new`: it succeeds exactly on the patterns it
/// accepts, which depends on the pattern text alone.
#[verifier::external_body]
fn compile(source: &str) -> (r: Result<regex::Regex, regex::Error>)
    ensures
        r.is_ok() == compiles(source@),
{
    regex::Regex::new(source)
}

/// One detector: a category label and the regular expression that finds it.
///
/// `rule` is always the compiled form of `source`: the fields are private and
/// [`Detector::compile`] is the only constructor.
pub struct Detector {
    label: String,
    source: String,
    rule: regex::Regex,
}

impl Detector {
    /// The category label.
    pub closed spec fn label_view(&self) -> Seq<char> {
        self.label@
    }

    /// The text of the regular expression.
    pub closed spec fn source_view(&self) -> Seq<char> {
        self.source@
    }

    /// Compiles `source` into a detector for the category `label`.
    pub fn compile(label: &str, source: &str) -> (r: Result<Detector, regex::Error>)
        ensures
            r.is_ok() == compiles(source@),
            r matches Ok(d) ==> d.label_view() == label@ && d.source_view() == source@,
    {
        match compile(source) {
            Ok(rule) => Ok(Detector { label: label.to_owned(), source: source.to_owned(), rule }),
            Err(e) => Err(e),
        }
    }

    /// The category label.
    pub fn label(&self) -> (r: &str)
        ensures
            r@ == self.label_view(),
    {
        self.label.as_str()
    }

    /// The text of the regular expression.
    pub fn source(&self) -> (r: &str)
        ensures
            r@ == self.source_view(),
    {
        self.source.as_str()
    }
}

/// Relies on `regex::Regex::find_iter`, which yields the successive
/// non-overlapping matches of `d.rule` (compiled from `d.source`) in `text`.
#[verifier::external_body]
pub(crate) fn count_matches(d: &Detector, text: &str) -> (n: usize)
    ensures
        n as nat == match_count(d.source_view(), text@),
{
    d.rule.find_iter(text).count()
}

/// Relies on `regex::Regex::replace_all`, which replaces every
/// non-overlapping match of `d.rule` (compiled from `d.source`) in `text`
/// by `rep`, taken literally through `regex::NoExpand`.
#[verifier::external_body]
pub(crate) fn replace_matches(d: &Detector, text: &str, rep: &str) -> (r: String)
    ensures
        r@ == replaced(d.source_view(), text@, rep@),
{
    d.rule.replace_all(text, regex::NoExpand(rep)).into_owned()
}

/// The built-in detectors as (label, regular expression) pairs, in the order
/// in which they are applied.
pub open spec fn builtin_rules() -> Seq<(Seq<char>, Seq<char>)> {
    seq![
        (SSN_LABEL@, SSN_RULE@),
        (MRN_LABEL@, MRN_RULE@),
        (EMAIL_LABEL@, EMAIL_RULE@),
        (DOB_LABEL@, DOB_RULE@),
        (PHONE_LABEL@, PHONE_RULE@),
    ]
}

/// The number of built-in detectors.
pub const BUILTIN_COUNT: usize = 5;

/// The `i`-th built-in detector's label and regular expression.
fn builtin_rule(i: usize) -> (r: (&'static str, &'static str))
    requires
        i < BUILTIN_COUNT,
    ensures
        (r.0@, r.1@) == builtin_rules()[i as int],
{
    if i == 0 {
        (SSN_LABEL, SSN_RULE)
    } else if i == 1 {
        (MRN_LABEL, MRN_RULE)
    } else if i == 2 {
        (EMAIL_LABEL, EMAIL_RULE)
    } else if i == 3 {
        (DOB_LABEL, DOB_RULE)
    } else {
        (PHONE_LABEL, PHONE_RULE)
    }
}

/// A built-in regular expression was refused by the regex engine.
pub struct RuleError {
    /// The label of the first detector whose expression did not compile.
    pub category: String,
    /// What the regex engine reported.
    pub cause: regex::Error,
}

/// The ordered, immutable list of detectors that every scan applies.
pub struct Registry {
    detectors: Vec<Detector>,
}

impl View for Registry {
    type V = Seq<(Seq<char>, Seq<char>)>;

    /// Each detector as its (label, regular expression) pair, in order.
    closed spec fn view(&self) -> Seq<(Seq<char>, Seq<char>)> {
        self.detectors@.map_values(|d: Detector| (d.label_view(), d.source_view()))
    }
}

impl Registry {
    /// Compiles the built-in detectors, in registry order: SSN, MRN, EMAIL,
    /// DOB, PHONE. Fails with the first detector whose expression the regex
    /// engine refuses.
    pub fn initialize() -> (r: Result<Registry, RuleError>)
        ensures
            r.is_ok() == (forall|i: int| 0 <= i < builtin_rules().len() ==> compiles(#[trigger] builtin_rules()[i].1)),
            r matches Ok(reg) ==> reg@ == builtin_rules(),
            r matches Err(e) ==> exists|i: int|
                0 <= i < builtin_rules().len()
                && !compiles(#[trigger] builtin_rules()[i].1)
                && e.category@ == builtin_rules()[i].0
                && (forall|j: int| 0 <= j < i ==> compiles(#[trigger] builtin_rules()[j].1)),
    {
        let mut detectors: Vec<Detector> = Vec::new();
        let mut i: usize = 0;
        while i < BUILTIN_COUNT
            invariant
                i <= BUILTIN_COUNT,
                BUILTIN_COUNT == builtin_rules().len(),
                detectors@.len() == i,
                forall|j: int| 0 <= j < i ==> compiles(#[trigger] builtin_rules()[j].1),
                forall|j: int| 0 <= j < i ==>
                    (#[trigger] detectors@[j].label_view(), detectors@[j].source_view()) == builtin_rules()[j],
            decreases BUILTIN_COUNT - i,
        {
            let (label, source) = builtin_rule(i);
            match Detector::compile(label, source) {
                Ok(d) => {
                    detectors.push(d);
                },
                Err(cause) => {
                    let category = label.to_owned();
                    assert(!compiles(builtin_rules()[i as int].1));
                    return Err(RuleError { category, cause });
                },
            }
            i = i + 1;
        }
        let reg = Registry { detectors };
        assert(reg@ =~= builtin_rules());
        Ok(reg)
    }

    /// The number of detectors.
    pub fn len(&self) -> (r: usize)
        ensures
            r == self@.len(),
    {
        self.detectors.len()
    }

    /// The `i`-th detector in registry order.
    pub fn detector(&self, i: usize) -> (r: &Detector)
        requires
            i < self@.len(),
        ensures
            (r.label_view(), r.source_view()) == self@[i as int],
    {
        &self.detectors[i]
    }
}

} // verus!
