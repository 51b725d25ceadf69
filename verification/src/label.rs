//! Metric labels and the `"name|value"` label-string parser.

use vstd::prelude::*;

verus! {

/// A single key/value pair attached to a metric instance.
#[derive(Debug, PartialEq, Eq)]
pub struct MetricLabel {
    pub name: String,
    pub value: String,
}

/// Mathematical model of a [`MetricLabel`]: both strings as character
/// sequences.
pub struct LabelModel {
    pub name: Seq<char>,
    pub value: Seq<char>,
}

impl DeepView for MetricLabel {
    type V = LabelModel;

    open spec fn deep_view(&self) -> LabelModel {
        LabelModel { name: self.name@, value: self.value@ }
    }
}

/// Holds when `i` is the position of the first `'|'` in `s`.
pub open spec fn is_first_separator(s: Seq<char>, i: int) -> bool {
    &&& 0 <= i < s.len()
    &&& s[i] == '|'
    &&& forall|j: int| 0 <= j < i ==> s[j] != '|'
}

/// What parsing a `"name|value"` label string yields: the text before the
/// first `'|'` as the name and everything after it as the value, or an
/// empty name and value when the string holds no `'|'` at all.
pub open spec fn spec_parse_label(s: Seq<char>) -> LabelModel {
    if exists|i: int| is_first_separator(s, i) {
        let i = choose|i: int| is_first_separator(s, i);
        LabelModel { name: s.take(i), value: s.skip(i + 1) }
    } else {
        LabelModel { name: Seq::empty(), value: Seq::empty() }
    }
}

/// At most one position can be the first separator.
proof fn lemma_first_separator_unique(s: Seq<char>, i: int, j: int)
    requires
        is_first_separator(s, i),
        is_first_separator(s, j),
    ensures
        i == j,
{
}

impl MetricLabel {
    /// Parses a label string of the form `"name|value"`, splitting on the
    /// first `'|'` encountered. A string without a separator yields a label
    /// with empty name and empty value; parsing never fails.
    pub fn from_str(s: &str) -> (l: MetricLabel)
        ensures
            l.deep_view() == spec_parse_label(s@),
    {
        let len = s.unicode_len();
        let mut i: usize = 0;
        while i < len
            invariant
                0 <= i <= len,
                len == s@.len(),
                forall|j: int| 0 <= j < i ==> s@[j] != '|',
            decreases len - i,
        {
            if s.get_char(i) == '|' {
                let name = s.substring_char(0, i);
                let value = s.substring_char(i + 1, len);
                proof {
                    assert(is_first_separator(s@, i as int));
                    let w = choose|w: int| is_first_separator(s@, w);
                    lemma_first_separator_unique(s@, w, i as int);
                }
                return MetricLabel {
                    name: String::from_str(name),
                    value: String::from_str(value),
                };
            }
            i = i + 1;
        }
        proof {
            reveal_strlit("");
            assert(""@ =~= Seq::<char>::empty());
            assert(forall|w: int| !is_first_separator(s@, w));
        }
        MetricLabel { name: String::from_str(""), value: String::from_str("") }
    }
}

} // verus!
