use vstd::prelude::*;

use crate::error::{ConstraintError, ConstraintErrorView, DataTypeError, DataTypeErrorView};
use crate::reader::RawParameter;

verus! {

#[verifier::external_type_specification]
#[verifier::external_body]
pub struct ExRegex(regex::Regex);

/// The pattern text a compiled regex holds (`regex::Regex::as_str`).
/// Every regex in this crate is built by `compile_pattern` through
/// `Regex::new`, with default flags, so the held pattern text determines
/// how the regex matches.
pub uninterp spec fn re_pattern(re: regex::Regex) -> Seq<char>;

/// Whether `regex::Regex::new` accepts a pattern; success depends on the
/// pattern text alone.
pub uninterp spec fn regex_compiles(pattern: Seq<char>) -> bool;

/// The byte span of the leftmost match a pattern finds in a value, if any
/// (`regex::Regex::find`); where it falls depends on the two strings alone.
pub uninterp spec fn regex_find_span(pattern: Seq<char>, value: Seq<char>) -> Option<
    (usize, usize),
>;

/// The number of bytes the UTF-8 encoding of one character takes.
pub open spec fn char_utf8_len(c: char) -> int {
    if (c as u32) < 0x80 {
        1
    } else if (c as u32) < 0x800 {
        2
    } else if (c as u32) < 0x10000 {
        3
    } else {
        4
    }
}

/// The length in bytes of a string's UTF-8 encoding, summed character by
/// character: what `str::len` returns for a string with these characters.
pub open spec fn utf8_byte_len(s: Seq<char>) -> int
    decreases s.len(),
{
    if s.len() == 0 {
        0
    } else {
        char_utf8_len(s[0]) + utf8_byte_len(s.drop_first())
    }
}

/// Whether a whole value matches a pattern — a full match, not merely
/// contains: the leftmost match exists, starts at the value's first byte
/// and ends at its last.
pub open spec fn regex_full_match(pattern: Seq<char>, value: Seq<char>) -> bool {
    match regex_find_span(pattern, value) {
        Some(span) => span.0 == 0 && span.1 as int == utf8_byte_len(value),
        None => false,
    }
}

/// Relies on regex::Regex::new: compiles the pattern or rejects it on its
/// text alone; the compiled regex holds the pattern it was built from and
/// carries `Regex::new`'s default flags.
#[verifier::external_body]
fn compile_pattern(pattern: &str) -> (r: Option<regex::Regex>)
    ensures
        r is Some <==> regex_compiles(pattern@),
        r is Some ==> re_pattern(r->0) == pattern@,
{
    regex::Regex::new(pattern).ok()
}

/// Relies on regex::Regex::find for the byte span of the leftmost match,
/// and on str::len for the haystack's length in bytes; both depend on the
/// regex's held pattern and the haystack text alone, and a match's span
/// always lies within the haystack. Whether the span covers the whole
/// value is decided by the caller, in verified code.
#[verifier::external_body]
fn find_leftmost_span(re: &regex::Regex, value: &str) -> (r: (Option<(usize, usize)>, usize))
    ensures
        r.0 == regex_find_span(re_pattern(*re), value@),
        r.1 as int == utf8_byte_len(value@),
        r.0 matches Some(span) ==> span.0 <= span.1 <= r.1,
{
    let span = re.find(value).map(|m| (m.start(), m.end()));
    (span, value.len())
}

/// Whether a candidate value satisfies an optional pattern constraint:
/// with no pattern every value passes; with one, only a full match does.
pub open spec fn constraint_accepts(pattern: Option<Seq<char>>, value: Seq<char>) -> bool {
    match pattern {
        None => true,
        Some(p) => regex_full_match(p, value),
    }
}

/// The constraints of a `string` parameter: an optional regular-expression
/// pattern that a whole candidate value must match. The pattern is compiled
/// once, when the raw parameter is parsed.
pub struct StringConstraints {
    pattern: Option<String>,
    regex: Option<regex::Regex>,
}

pub struct StringConstraintsView {
    pub pattern: Option<Seq<char>>,
}

impl DeepView for StringConstraints {
    type V = StringConstraintsView;

    closed spec fn deep_view(&self) -> StringConstraintsView {
        StringConstraintsView { pattern: self.pattern.deep_view() }
    }
}

impl StringConstraints {
    /// The compiled regex, if any, holds exactly the declared pattern.
    #[verifier::type_invariant]
    spec fn wf(self) -> bool {
        match self.pattern {
            Some(p) => self.regex is Some && re_pattern(self.regex->0) == p@,
            None => self.regex is None,
        }
    }

    /// Validate a candidate value against the constraints: with no pattern,
    /// any value passes unchanged; with a pattern, the whole value must
    /// match it, and passes unchanged when it does.
    pub fn validate(&self, value: String) -> (r: Result<String, ConstraintError>)
        ensures
            r is Ok <==> constraint_accepts(self.deep_view().pattern, value@),
            r is Ok ==> r->Ok_0@ == value@,
            r is Err ==> self.deep_view().pattern is Some && r->Err_0.deep_view()
                == (ConstraintErrorView {
                pattern: self.deep_view().pattern->0,
                value: value@,
            }),
    {
        proof {
            use_type_invariant(self);
        }
        match (&self.pattern, &self.regex) {
            (Some(p), Some(re)) => {
                let (span, len) = find_leftmost_span(re, value.as_str());
                let full = match span {
                    Some(se) => se.0 == 0 && se.1 == len,
                    None => false,
                };
                if full {
                    Ok(value)
                } else {
                    Err(ConstraintError { pattern: p.clone(), value })
                }
            },
            _ => Ok(value),
        }
    }
}

/// How compiling a raw parameter's optional pattern turns out: no pattern
/// yields empty constraints; a compilable pattern is kept; anything else
/// is an invalid-pattern fault carrying the offending pattern.
pub open spec fn spec_parse_string_constraints(pattern: Option<Seq<char>>) -> Result<
    StringConstraintsView,
    DataTypeErrorView,
> {
    match pattern {
        None => Ok(StringConstraintsView { pattern: None }),
        Some(p) => if regex_compiles(p) {
            Ok(StringConstraintsView { pattern: Some(p) })
        } else {
            Err(DataTypeErrorView::InvalidPattern { pattern: p })
        },
    }
}

/// Compile the optional pattern of a raw parameter, once, at parse time.
pub fn parse_string_constraints(raw: &RawParameter) -> (r: Result<
    StringConstraints,
    DataTypeError,
>)
    ensures
        r is Ok <==> spec_parse_string_constraints(raw.deep_view().pattern) is Ok,
        r is Ok ==> r->Ok_0.deep_view() == spec_parse_string_constraints(
            raw.deep_view().pattern,
        )->Ok_0,
        r is Err ==> r->Err_0.deep_view() == spec_parse_string_constraints(
            raw.deep_view().pattern,
        )->Err_0,
{
    match &raw.pattern {
        None => Ok(StringConstraints { pattern: None, regex: None }),
        Some(p) => match compile_pattern(p.as_str()) {
            Some(re) => Ok(
                StringConstraints { pattern: Some(p.clone()), regex: Some(re) },
            ),
            None => Err(DataTypeError::InvalidPattern { pattern: p.clone() }),
        },
    }
}

} // verus!
