//! Field validation of the request bodies the API accepts.
//!
//! Every field check records a stable code (`length`, `email`, `regex`,
//! `password_composition`); a request is valid when no field failed. The
//! codes are what the client receives, so it can place messages under the
//! matching inputs.
use vstd::prelude::*;
use vstd::string::StrSliceExecFns;
use crate::text::{chars_of, char_is_alphanumeric, is_alnum};

verus! {

/// Whether `s` is an email address under the HTML5 rules the `validator`
/// crate applies (length of each part, character sets, IDN domains).
pub uninterp spec fn email_is_valid(s: Seq<char>) -> bool;

/// Calls `validator::ValidateEmail::validate_email`; the result is the named
/// property `email_is_valid`.
#[verifier::external_body]
fn validate_email(s: &str) -> (b: bool)
    ensures
        b == email_is_valid(s@),
{
    validator::ValidateEmail::validate_email(&s)
}

/// The codes one field failed, in the order the checks run.
pub struct FieldError {
    pub field: &'static str,
    pub codes: Vec<&'static str>,
}

/// Errors of the fields of a nested structure.
pub struct NestedError {
    pub field: &'static str,
    pub fields: Vec<FieldError>,
}

/// Every field that failed, in declaration order. A nested structure that
/// failed is reported under its own field name.
pub struct ValidationErrors {
    pub fields: Vec<FieldError>,
    pub nested: Vec<NestedError>,
}

/// Abstract view of one failed field: its name and its codes.
pub type FieldFailure = (Seq<char>, Seq<Seq<char>>);

impl FieldError {
    pub open spec fn failure(&self) -> FieldFailure {
        (self.field@, self.codes@.map_values(|c: &'static str| c@))
    }
}

impl NestedError {
    pub open spec fn failures(&self) -> (Seq<char>, Seq<FieldFailure>) {
        (self.field@, self.fields@.map_values(|f: FieldError| f.failure()))
    }
}

impl ValidationErrors {
    pub open spec fn failures(&self) -> Seq<FieldFailure> {
        self.fields@.map_values(|f: FieldError| f.failure())
    }

    pub open spec fn nested_failures(&self) -> Seq<(Seq<char>, Seq<FieldFailure>)> {
        self.nested@.map_values(|n: NestedError| n.failures())
    }
}

/// The entry for a field, present only when at least one check failed.
pub open spec fn entry(field: Seq<char>, codes: Seq<Seq<char>>) -> Seq<FieldFailure> {
    if codes.len() == 0 {
        Seq::empty()
    } else {
        seq![(field, codes)]
    }
}

/// `code`, if the check it names failed.
pub open spec fn code_if(failed: bool, code: Seq<char>) -> Seq<Seq<char>> {
    if failed {
        seq![code]
    } else {
        Seq::empty()
    }
}

/// The character count of `s` lies within the optional bounds.
pub open spec fn length_ok(s: Seq<char>, min: Option<nat>, max: Option<nat>) -> bool {
    &&& min matches Some(m) ==> s.len() >= m
    &&& max matches Some(m) ==> s.len() <= m
}

pub open spec fn is_ascii_digit(c: char) -> bool {
    '0' <= c <= '9'
}

pub open spec fn is_ascii_alnum(c: char) -> bool {
    ('0' <= c <= '9') || ('a' <= c <= 'z') || ('A' <= c <= 'Z')
}

/// Usernames: ASCII letters, digits, underscore and dash, starting with a
/// letter or a digit.
pub open spec fn username_grammar(s: Seq<char>) -> bool {
    &&& s.len() >= 1
    &&& is_ascii_alnum(s[0])
    &&& forall|i: int| 1 <= i < s.len() ==> is_ascii_alnum(#[trigger] s[i]) || s[i] == '_' || s[i] == '-'
}

/// Passwords must hold at least one ASCII digit and one character that is
/// neither a letter nor a digit in the Unicode sense.
pub open spec fn composition_ok(s: Seq<char>) -> bool {
    &&& exists|i: int| 0 <= i < s.len() && is_ascii_digit(#[trigger] s[i])
    &&& exists|i: int| 0 <= i < s.len() && !is_alnum(#[trigger] s[i])
}

/// The character count of `s` lies within the optional bounds.
pub fn check_length(s: &str, min: Option<usize>, max: Option<usize>) -> (ok: bool)
    ensures
        ok == length_ok(s@, match min { Some(m) => Some(m as nat), None => None }, match max { Some(m) => Some(m as nat), None => None }),
{
    let n = s.unicode_len();
    let lower = match min {
        Some(m) => n >= m,
        None => true,
    };
    let upper = match max {
        Some(m) => n <= m,
        None => true,
    };
    lower && upper
}

/// Whether `s` is a well-formed email address.
pub fn check_email(s: &str) -> (ok: bool)
    ensures
        ok == email_is_valid(s@),
{
    validate_email(s)
}

/// The pattern usernames must match.
pub const USERNAME_PATTERN: &'static str = "^[a-zA-Z0-9][a-zA-Z0-9_-]*$";

/// Compiles `pattern` with `regex::Regex::new` and tests `s` with
/// `Regex::is_match`. Stated for the username pattern only: without flags,
/// `^` and `$` anchor at the ends of the whole text and the classes hold the
/// ASCII ranges they list, so a match is exactly [`username_grammar`].
#[verifier::external_body]
fn regex_is_match(pattern: &str, s: &str) -> (b: bool)
    requires
        pattern@ == USERNAME_PATTERN@,
    ensures
        b == username_grammar(s@),
{
    match regex::Regex::new(pattern) {
        Ok(re) => re.is_match(s),
        Err(_) => false,
    }
}

/// Whether `s` follows the username grammar.
pub fn check_username_grammar(s: &str) -> (ok: bool)
    ensures
        ok == username_grammar(s@),
{
    regex_is_match(USERNAME_PATTERN, s)
}

/// At least one digit and one non-alphanumeric character.
pub fn password_composition(value: &str) -> (ok: bool)
    ensures
        ok == composition_ok(value@),
{
    let v = chars_of(value);
    let mut has_digit = false;
    let mut has_special = false;
    let mut i: usize = 0;
    while i < v.len()
        invariant
            i <= v@.len(),
            v@ == value@,
            has_digit == exists|j: int| 0 <= j < i && is_ascii_digit(#[trigger] v@[j]),
            has_special == exists|j: int| 0 <= j < i && !is_alnum(#[trigger] v@[j]),
        decreases v@.len() - i,
    {
        let c = v[i];
        if '0' <= c && c <= '9' {
            has_digit = true;
        }
        if !char_is_alphanumeric(c) {
            has_special = true;
        }
        proof {
            if has_digit {
                if !is_ascii_digit(c) {
                    let j = choose|j: int| 0 <= j < i && is_ascii_digit(#[trigger] v@[j]);
                    assert(0 <= j < i + 1 && is_ascii_digit(v@[j]));
                }
            } else {
                assert forall|j: int| 0 <= j < i + 1 implies !is_ascii_digit(#[trigger] v@[j]) by {}
            }
            if has_special {
                if is_alnum(c) {
                    let j = choose|j: int| 0 <= j < i && !is_alnum(#[trigger] v@[j]);
                    assert(0 <= j < i + 1 && !is_alnum(v@[j]));
                }
            } else {
                assert forall|j: int| 0 <= j < i + 1 implies is_alnum(#[trigger] v@[j]) by {}
            }
        }
        i = i + 1;
    }
    has_digit && has_special
}


pub open spec fn codes_view(v: Seq<&'static str>) -> Seq<Seq<char>> {
    v.map_values(|c: &'static str| c@)
}

/// The codes of the checks that failed, among up to three checks.
pub fn failed_codes(
    f1: bool,
    c1: &'static str,
    f2: bool,
    c2: &'static str,
    f3: bool,
    c3: &'static str,
) -> (v: Vec<&'static str>)
    ensures
        codes_view(v@) == code_if(f1, c1@) + code_if(f2, c2@) + code_if(f3, c3@),
{
    let mut v: Vec<&'static str> = Vec::new();
    if f1 {
        v.push(c1);
    }
    if f2 {
        v.push(c2);
    }
    if f3 {
        v.push(c3);
    }
    assert(codes_view(v@) =~= code_if(f1, c1@) + code_if(f2, c2@) + code_if(f3, c3@));
    v
}

/// Appends the entry of `field` to `errs` when `codes` is not empty.
pub fn record(errs: &mut Vec<FieldError>, field: &'static str, codes: Vec<&'static str>)
    ensures
        final(errs)@.map_values(|f: FieldError| f.failure())
            == old(errs)@.map_values(|f: FieldError| f.failure()) + entry(field@, codes_view(codes@)),
{
    let ghost before = errs@;
    if codes.len() > 0 {
        let ghost c = codes_view(codes@);
        errs.push(FieldError { field, codes });
        assert(errs@.map_values(|f: FieldError| f.failure())
            =~= before.map_values(|f: FieldError| f.failure()) + entry(field@, c));
    } else {
        assert(codes_view(codes@) =~= Seq::<Seq<char>>::empty());
        assert(errs@.map_values(|f: FieldError| f.failure())
            =~= before.map_values(|f: FieldError| f.failure()) + entry(field@, codes_view(codes@)));
    }
}

/// Turns the collected failures into the outcome of a validation.
pub fn finish(fields: Vec<FieldError>, nested: Vec<NestedError>) -> (r: Result<(), ValidationErrors>)
    ensures
        r is Ok <==> fields@.len() == 0 && nested@.len() == 0,
        r matches Err(e) ==> e.fields@ == fields@ && e.nested@ == nested@,
{
    if fields.len() == 0 && nested.len() == 0 {
        Ok(())
    } else {
        Err(ValidationErrors { fields, nested })
    }
}


pub open spec fn opt_nat(m: Option<usize>) -> Option<nat> {
    match m {
        Some(v) => Some(v as nat),
        None => None,
    }
}

/// Codes of a field checked only for its length.
pub open spec fn length_codes(s: Seq<char>, min: Option<nat>, max: Option<nat>) -> Seq<Seq<char>> {
    code_if(!length_ok(s, min, max), "length"@)
}

/// Codes of an email field with a maximal length.
pub open spec fn email_codes(s: Seq<char>, max: Option<nat>) -> Seq<Seq<char>> {
    code_if(!email_is_valid(s), "email"@) + code_if(!length_ok(s, None, max), "length"@)
}

/// Codes of a username field: 3 to 32 characters following the grammar.
pub open spec fn username_codes(s: Seq<char>) -> Seq<Seq<char>> {
    code_if(!length_ok(s, Some(3), Some(32)), "length"@) + code_if(!username_grammar(s), "regex"@)
}

/// Codes of a password being set: 12 to 128 characters with the
/// composition rule.
pub open spec fn new_password_codes(s: Seq<char>) -> Seq<Seq<char>> {
    code_if(!length_ok(s, Some(12), Some(128)), "length"@) + code_if(
        !composition_ok(s),
        "password_composition"@,
    )
}

pub fn length_field(s: &str, min: Option<usize>, max: Option<usize>) -> (v: Vec<&'static str>)
    ensures
        codes_view(v@) == length_codes(s@, opt_nat(min), opt_nat(max)),
{
    let ok = check_length(s, min, max);
    let v = failed_codes(!ok, "length", false, "", false, "");
    assert(codes_view(v@) =~= length_codes(s@, opt_nat(min), opt_nat(max)));
    v
}

pub fn email_field(s: &str, max: Option<usize>) -> (v: Vec<&'static str>)
    ensures
        codes_view(v@) == email_codes(s@, opt_nat(max)),
{
    let e = check_email(s);
    let l = check_length(s, None, max);
    let v = failed_codes(!e, "email", !l, "length", false, "");
    assert(codes_view(v@) =~= email_codes(s@, opt_nat(max)));
    v
}

pub fn username_field(s: &str) -> (v: Vec<&'static str>)
    ensures
        codes_view(v@) == username_codes(s@),
{
    let l = check_length(s, Some(3), Some(32));
    let g = check_username_grammar(s);
    let v = failed_codes(!l, "length", !g, "regex", false, "");
    assert(codes_view(v@) =~= username_codes(s@));
    v
}

pub fn new_password_field(s: &str) -> (v: Vec<&'static str>)
    ensures
        codes_view(v@) == new_password_codes(s@),
{
    let l = check_length(s, Some(12), Some(128));
    let c = password_composition(s);
    let v = failed_codes(!l, "length", !c, "password_composition", false, "");
    assert(codes_view(v@) =~= new_password_codes(s@));
    v
}

} // verus!
