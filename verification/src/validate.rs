//! Checks on the arguments of the tools: download links and priorities.
use vstd::prelude::*;
use crate::text::{has_prefix, same_text};

verus! {

/// A link that aMule can queue: an eD2k link or a Magnet link.
pub open spec fn link_accepted(link: Seq<char>) -> bool {
    "ed2k://"@.is_prefix_of(link) || "magnet:"@.is_prefix_of(link)
}

/// Whether `link` is an eD2k link (`ed2k://...`) or a Magnet link (`magnet:...`).
pub fn is_valid_link(link: &str) -> (r: bool)
    ensures
        r == link_accepted(link@),
        r == ("ed2k://"@.is_prefix_of(link@) || "magnet:"@.is_prefix_of(link@)),
{
    has_prefix(link, "ed2k://") || has_prefix(link, "magnet:")
}

/// The download priorities that aMule knows.
#[derive(Debug, Clone, Copy, PartialEq, Eq, Structural)]
pub enum Priority {
    Low,
    Normal,
    High,
    Auto,
}

/// The priority that a lower-case word names, if any.
pub open spec fn priority_word(lower: Seq<char>) -> Option<Priority> {
    if lower == "low"@ {
        Some(Priority::Low)
    } else if lower == "normal"@ {
        Some(Priority::Normal)
    } else if lower == "high"@ {
        Some(Priority::High)
    } else if lower == "auto"@ {
        Some(Priority::Auto)
    } else {
        None
    }
}

/// The name under which aMule expects a priority.
pub open spec fn priority_name(p: Priority) -> Seq<char> {
    match p {
        Priority::Low => "Low"@,
        Priority::Normal => "Normal"@,
        Priority::High => "High"@,
        Priority::Auto => "Auto"@,
    }
}

/// What `str::to_lowercase` gives for a string (Unicode lower case mapping).
pub uninterp spec fn lowercase_of(s: Seq<char>) -> Seq<char>;

/// Calls `str::to_lowercase`; its result is named by `lowercase_of`, a function of
/// the string's characters alone. Nothing more of the Unicode mapping is stated.
#[verifier::external_body]
fn lowercase(s: &str) -> (r: String)
    ensures
        r@ == lowercase_of(s@),
{
    s.to_lowercase()
}

/// The priority that a user's word names, whatever its letter case.
pub open spec fn priority_of(word: Seq<char>) -> Option<Priority> {
    priority_word(lowercase_of(word))
}

/// A priority word after normalisation: the canonical name where the word names a
/// priority, the word itself otherwise.
pub open spec fn normalized(word: Seq<char>) -> Seq<char> {
    match priority_of(word) {
        Some(p) => priority_name(p),
        None => word,
    }
}

proof fn lemma_priority_words_distinct()
    ensures
        "low"@ != "normal"@,
        "low"@ != "high"@,
        "low"@ != "auto"@,
        "normal"@ != "high"@,
        "normal"@ != "auto"@,
        "high"@ != "auto"@,
{
    reveal_strlit("low");
    reveal_strlit("normal");
    reveal_strlit("high");
    reveal_strlit("auto");
    assert("low"@.len() != "normal"@.len());
    assert("low"@.len() != "high"@.len());
    assert("low"@.len() != "auto"@.len());
    assert("normal"@.len() != "high"@.len());
    assert("normal"@.len() != "auto"@.len());
    assert("high"@[0] != "auto"@[0]);
}

impl Priority {
    /// The canonical name of the priority.
    pub fn name(&self) -> (r: &'static str)
        ensures
            r@ == priority_name(*self),
    {
        match self {
            Priority::Low => "Low",
            Priority::Normal => "Normal",
            Priority::High => "High",
            Priority::Auto => "Auto",
        }
    }
}

/// The priority that an already lower-cased word names, if any.
pub fn priority_from_lowercase(lower: &str) -> (r: Option<Priority>)
    ensures
        r == priority_word(lower@),
        lower@ == "low"@ ==> r == Some(Priority::Low),
        lower@ == "normal"@ ==> r == Some(Priority::Normal),
        lower@ == "high"@ ==> r == Some(Priority::High),
        lower@ == "auto"@ ==> r == Some(Priority::Auto),
        r is None <==> (lower@ != "low"@ && lower@ != "normal"@ && lower@ != "high"@ && lower@
            != "auto"@),
{
    proof {
        lemma_priority_words_distinct();
    }
    if same_text(lower, "low") {
        Some(Priority::Low)
    } else if same_text(lower, "normal") {
        Some(Priority::Normal)
    } else if same_text(lower, "high") {
        Some(Priority::High)
    } else if same_text(lower, "auto") {
        Some(Priority::Auto)
    } else {
        None
    }
}

/// Whether `priority` names Low, Normal, High or Auto, in any letter case.
pub fn is_valid_priority(priority: &str) -> (r: bool)
    ensures
        r == priority_of(priority@) is Some,
        r == (lowercase_of(priority@) == "low"@ || lowercase_of(priority@) == "normal"@
            || lowercase_of(priority@) == "high"@ || lowercase_of(priority@) == "auto"@),
{
    proof {
        lemma_priority_words_distinct();
    }
    let lower = lowercase(priority);
    priority_from_lowercase(lower.as_str()).is_some()
}

/// The canonical name of the priority that `priority` names; `priority` itself
/// where it names none.
pub fn normalize_priority<'a>(priority: &'a str) -> (r: &'a str)
    ensures
        r@ == normalized(priority@),
        lowercase_of(priority@) == "low"@ ==> r@ == "Low"@,
        lowercase_of(priority@) == "normal"@ ==> r@ == "Normal"@,
        lowercase_of(priority@) == "high"@ ==> r@ == "High"@,
        lowercase_of(priority@) == "auto"@ ==> r@ == "Auto"@,
        (lowercase_of(priority@) != "low"@ && lowercase_of(priority@) != "normal"@
            && lowercase_of(priority@) != "high"@ && lowercase_of(priority@) != "auto"@) ==> r@
            == priority@,
{
    proof {
        lemma_priority_words_distinct();
    }
    let lower = lowercase(priority);
    match priority_from_lowercase(lower.as_str()) {
        Some(p) => p.name(),
        None => priority,
    }
}

} // verus!
