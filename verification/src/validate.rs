//! The validator: runs every applicable field-level rule and collects all
//! violation messages; it never aborts.
//!
//! Each message defaults to a template embedding the column name and,
//! where relevant, the threshold, unless a custom message was supplied,
//! which is then used verbatim.

use vstd::prelude::*;
use vstd::string::StrSliceExecFns;
use vstd::string::StringExecFns;

use crate::digits::dec_digits;
use crate::digits::u64_to_string;
use crate::entity::EntityMeta;
use crate::entity::FieldMeta;
use crate::entity::FieldType;
use crate::mapping::ColumnMeta;
use crate::record::field_views;
use crate::record::FieldValue;
use crate::record::FieldView;

verus! {

/// Whether the regex engine accepts a pattern.  The result depends on the
/// pattern alone.
pub uninterp spec fn pattern_is_regex(pattern: Seq<char>) -> bool;

/// Whether a compiled pattern matches somewhere in a text.  The result
/// depends on the pattern and the text alone.
pub uninterp spec fn regex_matches(pattern: Seq<char>, text: Seq<char>) -> bool;

/// Relies on regex::Regex::new and regex::Regex::is_match: compilation
/// succeeds or fails by the pattern alone, and a compiled pattern's match
/// verdict is a function of pattern and text.
#[verifier::external_body]
fn regex_is_match(pattern: &str, text: &str) -> (r: Option<bool>)
    ensures
        r is Some <==> pattern_is_regex(pattern@),
        (r matches Option::Some(b) ==> b == regex_matches(pattern@, text@)),
{
    match regex::Regex::new(pattern) {
        Ok(re) => Some(re.is_match(text)),
        Err(_) => None,
    }
}

/// The views of a list of messages, in order.
pub open spec fn string_views(s: Seq<String>) -> Seq<Seq<char>> {
    s.map_values(|x: String| x@)
}

/// The required-field message: the custom text when supplied, a template
/// otherwise.
pub open spec fn required_msg(c: ColumnMeta) -> Seq<char> {
    match c.error_required {
        Option::Some(m) => m@,
        Option::None => c.name@ + " is required"@,
    }
}

/// The null-value message.
pub open spec fn null_msg(c: ColumnMeta) -> Seq<char> {
    match c.error_allow_null {
        Option::Some(m) => m@,
        Option::None => c.name@ + " cannot be null"@,
    }
}

/// The empty-text message.
pub open spec fn empty_msg(c: ColumnMeta) -> Seq<char> {
    match c.error_allow_empty {
        Option::Some(m) => m@,
        Option::None => c.name@ + " cannot be empty"@,
    }
}

/// The over-maximum-length message.
pub open spec fn max_msg(c: ColumnMeta) -> Seq<char> {
    match c.error_max_length {
        Option::Some(m) => m@,
        Option::None => c.name@ + " exceeds max length "@ + (match c.max_length {
            Option::Some(m) => dec_digits(m as nat),
            Option::None => Seq::empty(),
        }),
    }
}

/// The under-minimum-length message.
pub open spec fn min_msg(c: ColumnMeta) -> Seq<char> {
    match c.error_min_length {
        Option::Some(m) => m@,
        Option::None => c.name@ + " below min length "@ + (match c.min_length {
            Option::Some(m) => dec_digits(m as nat),
            Option::None => Seq::empty(),
        }),
    }
}

/// The pattern-mismatch message.
pub open spec fn regex_msg(c: ColumnMeta) -> Seq<char> {
    match c.error_regex {
        Option::Some(m) => m@,
        Option::None => c.name@ + " has invalid format"@,
    }
}

/// The emptiness rule: on empty text, a required column yields the
/// required message, otherwise a no-empty column yields the empty
/// message — exactly one of the two, never both.
pub open spec fn empty_rule(c: ColumnMeta, s: Seq<char>) -> Seq<Seq<char>> {
    if s.len() == 0 {
        if c.required {
            seq![required_msg(c)]
        } else if !c.allow_empty {
            seq![empty_msg(c)]
        } else {
            Seq::empty()
        }
    } else {
        Seq::empty()
    }
}

/// The maximum-length rule, measured in characters.
pub open spec fn max_rule(c: ColumnMeta, s: Seq<char>) -> Seq<Seq<char>> {
    match c.max_length {
        Option::Some(m) => if s.len() > m {
            seq![max_msg(c)]
        } else {
            Seq::empty()
        },
        Option::None => Seq::empty(),
    }
}

/// The minimum-length rule, measured in characters.
pub open spec fn min_rule(c: ColumnMeta, s: Seq<char>) -> Seq<Seq<char>> {
    match c.min_length {
        Option::Some(m) => if s.len() < m {
            seq![min_msg(c)]
        } else {
            Seq::empty()
        },
        Option::None => Seq::empty(),
    }
}

/// The pattern rule: a compilable pattern that does not match yields the
/// pattern message; a pattern the engine rejects yields nothing.
pub open spec fn regex_rule(c: ColumnMeta, s: Seq<char>) -> Seq<Seq<char>> {
    match c.regex {
        Option::Some(p) => if pattern_is_regex(p@) && !regex_matches(p@, s) {
            seq![regex_msg(c)]
        } else {
            Seq::empty()
        },
        Option::None => Seq::empty(),
    }
}

/// All rule messages of one text value, in rule order.
pub open spec fn text_violations(c: ColumnMeta, s: Seq<char>) -> Seq<Seq<char>> {
    empty_rule(c, s) + max_rule(c, s) + min_rule(c, s) + regex_rule(c, s)
}

/// The messages one field contributes: an absent optional value checks
/// the required/null rules; present text runs the text rule chain;
/// non-text scalar values yield nothing.
pub open spec fn field_violations(f: FieldMeta, v: FieldView) -> Seq<Seq<char>> {
    if f.optional {
        match v {
            FieldView::NoneVal => if f.column.required {
                seq![required_msg(f.column)]
            } else if !f.column.allow_null {
                seq![null_msg(f.column)]
            } else {
                Seq::empty()
            },
            FieldView::TextVal(s) => if f.field_type == FieldType::Text {
                text_violations(f.column, s)
            } else {
                Seq::empty()
            },
            _ => Seq::empty(),
        }
    } else if f.field_type == FieldType::Text {
        match v {
            FieldView::TextVal(s) => text_violations(f.column, s),
            _ => Seq::empty(),
        }
    } else {
        Seq::empty()
    }
}

/// The messages of a whole record, in field order.
pub open spec fn spec_violations(fs: Seq<FieldMeta>, vs: Seq<FieldView>) -> Seq<Seq<char>>
    decreases fs.len(),
{
    if fs.len() == 0 {
        Seq::empty()
    } else {
        spec_violations(fs.drop_last(), vs.drop_last()) + field_violations(fs.last(), vs.last())
    }
}

/// On empty text, exactly one of the required and empty messages fires —
/// the required message when the column is required — and never both; on
/// non-empty text neither fires.
pub proof fn lemma_empty_rule_exclusive(c: ColumnMeta, s: Seq<char>)
    ensures
        empty_rule(c, s).len() <= 1,
        s.len() == 0 && c.required ==> empty_rule(c, s) == seq![required_msg(c)],
        s.len() == 0 && !c.required && !c.allow_empty ==> empty_rule(c, s) == seq![empty_msg(c)],
        s.len() > 0 ==> empty_rule(c, s).len() == 0,
{
}

fn required_message(c: &ColumnMeta) -> (r: String)
    ensures
        r@ == required_msg(*c),
{
    match &c.error_required {
        Option::Some(m) => m.clone(),
        Option::None => {
            let mut s = c.name.clone();
            s.append(" is required");
            s
        },
    }
}

fn null_message(c: &ColumnMeta) -> (r: String)
    ensures
        r@ == null_msg(*c),
{
    match &c.error_allow_null {
        Option::Some(m) => m.clone(),
        Option::None => {
            let mut s = c.name.clone();
            s.append(" cannot be null");
            s
        },
    }
}

fn empty_message(c: &ColumnMeta) -> (r: String)
    ensures
        r@ == empty_msg(*c),
{
    match &c.error_allow_empty {
        Option::Some(m) => m.clone(),
        Option::None => {
            let mut s = c.name.clone();
            s.append(" cannot be empty");
            s
        },
    }
}

fn max_message(c: &ColumnMeta) -> (r: String)
    ensures
        r@ == max_msg(*c),
{
    match &c.error_max_length {
        Option::Some(m) => m.clone(),
        Option::None => {
            let mut s = c.name.clone();
            s.append(" exceeds max length ");
            match c.max_length {
                Option::Some(m) => {
                    let d = u64_to_string(m as u64);
                    s.append(d.as_str());
                },
                Option::None => (),
            }
            s
        },
    }
}

fn min_message(c: &ColumnMeta) -> (r: String)
    ensures
        r@ == min_msg(*c),
{
    match &c.error_min_length {
        Option::Some(m) => m.clone(),
        Option::None => {
            let mut s = c.name.clone();
            s.append(" below min length ");
            match c.min_length {
                Option::Some(m) => {
                    let d = u64_to_string(m as u64);
                    s.append(d.as_str());
                },
                Option::None => (),
            }
            s
        },
    }
}

fn regex_message(c: &ColumnMeta) -> (r: String)
    ensures
        r@ == regex_msg(*c),
{
    match &c.error_regex {
        Option::Some(m) => m.clone(),
        Option::None => {
            let mut s = c.name.clone();
            s.append(" has invalid format");
            s
        },
    }
}

/// Runs the text rule chain on one value, appending its messages.
fn append_text_violations(c: &ColumnMeta, s: &String, errors: &mut Vec<String>)
    ensures
        string_views(final(errors)@) == string_views(old(errors)@) + text_violations(*c, s@),
{
    let ghost g0 = errors@;
    if s.as_str().is_empty() {
        if c.required {
            errors.push(required_message(c));
        } else if !c.allow_empty {
            errors.push(empty_message(c));
        }
    }
    proof {
        assert(string_views(errors@) =~= string_views(g0) + empty_rule(*c, s@));
    }
    let ghost g1 = errors@;
    match c.max_length {
        Option::Some(m) => {
            if s.as_str().unicode_len() > m {
                errors.push(max_message(c));
            }
        },
        Option::None => (),
    }
    proof {
        assert(string_views(errors@) =~= string_views(g1) + max_rule(*c, s@));
    }
    let ghost g2 = errors@;
    match c.min_length {
        Option::Some(m) => {
            if s.as_str().unicode_len() < m {
                errors.push(min_message(c));
            }
        },
        Option::None => (),
    }
    proof {
        assert(string_views(errors@) =~= string_views(g2) + min_rule(*c, s@));
    }
    let ghost g3 = errors@;
    match &c.regex {
        Option::Some(p) => {
            match regex_is_match(p.as_str(), s.as_str()) {
                Option::Some(b) => {
                    if !b {
                        errors.push(regex_message(c));
                    }
                },
                Option::None => (),
            }
        },
        Option::None => (),
    }
    proof {
        assert(string_views(errors@) =~= string_views(g3) + regex_rule(*c, s@));
        assert(string_views(errors@) =~= string_views(g0) + text_violations(*c, s@));
    }
}

impl EntityMeta {
    /// Validates a record: every applicable rule of every field runs and
    /// all failures are collected.  Returns `Ok` exactly when no rule
    /// fails, `Err` with the full message list otherwise.
    pub fn validate(&self, record: &Vec<FieldValue>) -> (r: Result<(), Vec<String>>)
        requires
            record@.len() == self.fields@.len(),
        ensures
            (r is Ok <==> spec_violations(self.fields@, field_views(record@)).len() == 0),
            (r matches Result::Err(errs) ==> string_views(errs@) == spec_violations(
                self.fields@,
                field_views(record@),
            )),
    {
        let ghost fs = self.fields@;
        let ghost vs = field_views(record@);
        let mut errors: Vec<String> = Vec::new();
        let mut i: usize = 0;
        while i < self.fields.len()
            invariant
                i <= fs.len(),
                fs == self.fields@,
                vs == field_views(record@),
                record@.len() == fs.len(),
                string_views(errors@) == spec_violations(fs.take(i as int), vs.take(i as int)),
            decreases fs.len() - i,
        {
            let f = &self.fields[i];
            proof {
                assert(fs.take(i + 1).drop_last() =~= fs.take(i as int));
                assert(vs.take(i + 1).drop_last() =~= vs.take(i as int));
                assert(fs.take(i + 1).last() == fs[i as int]);
                assert(vs.take(i + 1).last() == record@[i as int]@);
            }
            let ghost g0 = errors@;
            if f.optional {
                match &record[i] {
                    FieldValue::NoneVal => {
                        if f.column.required {
                            errors.push(required_message(&f.column));
                        } else if !f.column.allow_null {
                            errors.push(null_message(&f.column));
                        }
                    },
                    FieldValue::TextVal(s) => {
                        if matches!(f.field_type, FieldType::Text) {
                            append_text_violations(&f.column, s, &mut errors);
                        }
                    },
                    _ => (),
                }
            } else if matches!(f.field_type, FieldType::Text) {
                match &record[i] {
                    FieldValue::TextVal(s) => {
                        append_text_violations(&f.column, s, &mut errors);
                    },
                    _ => (),
                }
            }
            proof {
                assert(string_views(errors@) =~= string_views(g0) + field_violations(
                    fs[i as int],
                    vs[i as int],
                ));
                assert(string_views(errors@) =~= spec_violations(fs.take(i + 1), vs.take(i + 1)));
            }
            i += 1;
        }
        proof {
            assert(fs.take(fs.len() as int) =~= fs);
            assert(vs.take(vs.len() as int) =~= vs);
        }
        if errors.is_empty() {
            Result::Ok(())
        } else {
            Result::Err(errors)
        }
    }
}

} // verus!
