use vstd::prelude::*;
use vstd::string::*;

verus! {

/// A rule that a field of a request must keep.
#[derive(PartialEq, Eq, Structural, Clone, Copy, Debug)]
pub enum Rule {
    /// The number of characters lies between the bounds that are given.
    Length { min: Option<u64>, max: Option<u64> },
    /// The number is at least `min`.
    Range { min: i64 },
    /// The text is an e-mail address.
    Email,
}

/// One broken rule: the field and the rule.
#[derive(Clone, Copy, Debug)]
pub struct Violation {
    pub field: &'static str,
    pub rule: Rule,
}

/// The broken rules of a request, in the order of its fields.
pub struct ValidationErrors {
    pub violations: Vec<Violation>,
}

/// A violation as plain values.
pub open spec fn violation_view(v: Violation) -> (Seq<char>, Rule) {
    (v.field@, v.rule)
}

/// The broken rules as plain values.
pub open spec fn violations_view(errs: ValidationErrors) -> Seq<(Seq<char>, Rule)> {
    errs.violations@.map_values(|v: Violation| violation_view(v))
}

/// The outcome of a validation: `Ok` when nothing is broken, else the
/// broken rules.
pub open spec fn validation_result(res: Result<(), ValidationErrors>) -> Seq<(Seq<char>, Rule)> {
    match res {
        Ok(_) => Seq::empty(),
        Err(e) => violations_view(e),
    }
}

/// The number of characters of `s` lies within the bounds that are given
/// (the `length` rule of the `validator` crate, which counts `chars()`).
pub open spec fn length_ok(s: Seq<char>, min: Option<u64>, max: Option<u64>) -> bool {
    &&& (min matches Some(m) ==> s.len() >= m)
    &&& (max matches Some(m) ==> s.len() <= m)
}

/// The broken rule of a length check on one field, if any.
pub open spec fn length_violation(field: Seq<char>, s: Seq<char>, min: Option<u64>, max: Option<u64>) -> Seq<(Seq<char>, Rule)> {
    if length_ok(s, min, max) {
        Seq::empty()
    } else {
        seq![(field, Rule::Length { min, max })]
    }
}

/// The broken rule of a length check on an optional field: nothing is
/// checked when the field is absent.
pub open spec fn optional_length_violation(field: Seq<char>, s: Option<String>, min: Option<u64>, max: Option<u64>) -> Seq<(Seq<char>, Rule)> {
    match s {
        Some(t) => length_violation(field, t@, min, max),
        None => Seq::empty(),
    }
}

/// The broken rule of a lower bound on a number, if any.
pub open spec fn range_violation(field: Seq<char>, n: i64, min: i64) -> Seq<(Seq<char>, Rule)> {
    if n >= min {
        Seq::empty()
    } else {
        seq![(field, Rule::Range { min })]
    }
}

/// Whether the `validator` crate takes `text` for an e-mail address
/// (`ValidateEmail::validate_email`).
pub uninterp spec fn email_is_valid(text: Seq<char>) -> bool;

/// `ValidateEmail::validate_email` of the `validator` crate: the HTML5 rules
/// for an address, with internationalised domains. Beyond naming the result
/// the claim is only what its first test shows: a text without `@` is
/// refused.
#[verifier::external_body]
pub fn validate_email(text: &str) -> (res: bool)
    ensures
        res == email_is_valid(text@),
        res ==> text@.contains('@'),
{
    validator::ValidateEmail::validate_email(&text)
}

/// Whether the number of characters of `s` lies within the bounds.
pub fn check_length(s: &str, min: Option<u64>, max: Option<u64>) -> (res: bool)
    ensures
        res == length_ok(s@, min, max),
{
    let n = s.unicode_len() as u64;
    match min {
        Some(m) => {
            if n < m {
                return false;
            }
        },
        None => {},
    }
    match max {
        Some(m) => {
            if n > m {
                return false;
            }
        },
        None => {},
    }
    true
}

/// Collects broken rules.
pub struct Checker {
    pub violations: Vec<Violation>,
}

impl Checker {
    pub fn new() -> (res: Checker)
        ensures
            res.violations@.len() == 0,
    {
        Checker { violations: Vec::new() }
    }

    pub open spec fn seen(self) -> Seq<(Seq<char>, Rule)> {
        self.violations@.map_values(|v: Violation| violation_view(v))
    }

    /// Checks the length of a field.
    pub fn length(&mut self, field: &'static str, s: &str, min: Option<u64>, max: Option<u64>)
        ensures
            final(self).seen() == old(self).seen() + length_violation(field@, s@, min, max),
    {
        if !check_length(s, min, max) {
            self.violations.push(Violation { field, rule: Rule::Length { min, max } });
        }
        assert(self.seen() =~= old(self).seen() + length_violation(field@, s@, min, max));
    }

    /// Checks the length of an optional field.
    pub fn optional_length(&mut self, field: &'static str, s: &Option<String>, min: Option<u64>, max: Option<u64>)
        ensures
            final(self).seen() == old(self).seen() + optional_length_violation(field@, *s, min, max),
    {
        match s {
            Some(t) => self.length(field, t.as_str(), min, max),
            None => {
                assert(self.seen() =~= old(self).seen() + optional_length_violation(field@, *s, min, max));
            },
        }
    }

    /// Checks a lower bound on a number.
    pub fn range(&mut self, field: &'static str, n: i64, min: i64)
        ensures
            final(self).seen() == old(self).seen() + range_violation(field@, n, min),
    {
        if n < min {
            self.violations.push(Violation { field, rule: Rule::Range { min } });
        }
        assert(self.seen() =~= old(self).seen() + range_violation(field@, n, min));
    }

    /// Checks that a field is an e-mail address.
    pub fn email(&mut self, field: &'static str, s: &str)
        ensures
            final(self).seen() == old(self).seen() + (if email_is_valid(s@) {
                Seq::<(Seq<char>, Rule)>::empty()
            } else {
                seq![(field@, Rule::Email)]
            }),
    {
        if !validate_email(s) {
            self.violations.push(Violation { field, rule: Rule::Email });
        }
        assert(self.seen() =~= old(self).seen() + (if email_is_valid(s@) {
            Seq::<(Seq<char>, Rule)>::empty()
        } else {
            seq![(field@, Rule::Email)]
        }));
    }

    /// `Ok` when no rule was broken.
    pub fn finish(self) -> (res: Result<(), ValidationErrors>)
        ensures
            validation_result(res) == self.seen(),
            res is Ok <==> self.seen().len() == 0,
    {
        if self.violations.len() == 0 {
            assert(self.seen() =~= Seq::<(Seq<char>, Rule)>::empty());
            Ok(())
        } else {
            Err(ValidationErrors { violations: self.violations })
        }
    }
}

} // verus!
