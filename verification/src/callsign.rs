//! The identity classifier: parses a raw string into one of three validated
//! identity types, and classifies a callsign into one of three shapes.

use vstd::prelude::*;
use vstd::string::{StrSliceExecFns, StringExecFns};

use crate::app_error::AppError;
use crate::text::{
    ascii_letter, spec_ascii_letter, spec_upper_seq, spec_valid_char, to_upper, valid_char,
    lemma_upper_seq_idempotent,
};

verus! {

/// A transponder code is valid when it has exactly six characters, each a
/// hexadecimal digit case-insensitively.
pub open spec fn spec_mode_s_valid(u: Seq<char>) -> bool {
    u.len() == 6 && (forall|i: int| 0 <= i < u.len() ==> spec_valid_char(#[trigger] u[i], 'f'))
}

/// A character allowed in a registration number after uppercasing: a digit,
/// or a letter other than `I` and `O` (those two are excluded to avoid
/// confusion with `1` and `0`).
pub open spec fn spec_registration_char(c: char) -> bool {
    ('0' <= c && c <= '9') || ('A' <= c && c <= 'Z' && c != 'I' && c != 'O')
}

/// A registration number is valid when it starts with `N`, has two to six
/// characters in total, and every character is drawn from the restricted
/// alphabet.
pub open spec fn spec_n_number_valid(u: Seq<char>) -> bool {
    &&& 2 <= u.len() && u.len() <= 6
    &&& u[0] == 'N'
    &&& forall|i: int| 0 <= i < u.len() ==> spec_registration_char(#[trigger] u[i])
}

/// A callsign is valid when it has four to eight characters, each a digit or
/// a letter.
pub open spec fn spec_callsign_valid(u: Seq<char>) -> bool {
    4 <= u.len() && u.len() <= 8 && (forall|i: int|
        0 <= i < u.len() ==> spec_valid_char(#[trigger] u[i], 'z'))
}

/// A 6-character aircraft transponder identity, canonically uppercase.
#[derive(Debug, Clone, PartialEq, Eq)]
pub struct ModeS(String);

impl View for ModeS {
    type V = Seq<char>;

    closed spec fn view(&self) -> Seq<char> {
        self.0@
    }
}

impl ModeS {
    /// Make sure that the input is a valid transponder string: exactly six
    /// hexadecimal digits, case-insensitively. On success the held value is
    /// the uppercased input; on failure the error carries it.
    pub fn validate(input: &str) -> (r: Result<ModeS, AppError>)
        ensures
            match r {
                Ok(m) => spec_mode_s_valid(spec_upper_seq(input@)) && m@ == spec_upper_seq(
                    input@,
                ),
                Err(e) => !spec_mode_s_valid(spec_upper_seq(input@)) && (e matches AppError::ModeS(
                    t,
                ) && t@ == spec_upper_seq(input@)),
            },
    {
        let upper = to_upper(input);
        let n = upper.as_str().unicode_len();
        if n == 6 && all_valid_chars(upper.as_str(), 'f') {
            Ok(ModeS(upper))
        } else {
            Err(AppError::ModeS(upper))
        }
    }

    /// The canonical (uppercased) text of the code.
    pub fn as_str(&self) -> (r: &str)
        ensures
            r@ == self@,
    {
        self.0.as_str()
    }
}

/// A civil aircraft registration (tail number), canonically uppercase.
#[derive(Debug, Clone, PartialEq, Eq)]
pub struct NNumber(String);

impl View for NNumber {
    type V = Seq<char>;

    closed spec fn view(&self) -> Seq<char> {
        self.0@
    }
}

impl NNumber {
    /// Make sure that the input is a valid registration string: it starts
    /// with `N`, is two to six characters long, and uses only digits and
    /// letters other than `I` and `O`. On success the held value is the
    /// uppercased input; on failure the error carries it.
    pub fn validate(input: &str) -> (r: Result<NNumber, AppError>)
        ensures
            match r {
                Ok(m) => spec_n_number_valid(spec_upper_seq(input@)) && m@ == spec_upper_seq(
                    input@,
                ),
                Err(e) => !spec_n_number_valid(spec_upper_seq(input@)) && (e
                    matches AppError::NNumber(t) && t@ == spec_upper_seq(input@)),
            },
    {
        let upper = to_upper(input);
        let n = upper.as_str().unicode_len();
        if 2 <= n && n <= 6 && upper.as_str().get_char(0) == 'N' && all_registration_chars(
            upper.as_str(),
        ) {
            Ok(NNumber(upper))
        } else {
            Err(AppError::NNumber(upper))
        }
    }

    /// The canonical (uppercased) text of the registration.
    pub fn as_str(&self) -> (r: &str)
        ensures
            r@ == self@,
    {
        self.0.as_str()
    }
}

/// A flight callsign, classified into one of three shapes. The organization
/// variants carry the organization code and the flight-number suffix; the
/// unstructured variant carries the whole canonical string.
#[derive(Debug, PartialEq, Eq)]
pub enum Callsign {
    Icao((String, String)),
    Iata((String, String)),
    Other(String),
}

impl Clone for Callsign {
    fn clone(&self) -> (r: Self)
        ensures
            r == *self,
    {
        match self {
            Callsign::Icao(x) => Callsign::Icao((x.0.clone(), x.1.clone())),
            Callsign::Iata(x) => Callsign::Iata((x.0.clone(), x.1.clone())),
            Callsign::Other(s) => Callsign::Other(s.clone()),
        }
    }
}

/// The display form of a callsign: the organization code concatenated with
/// the suffix, or the unstructured string itself.
pub open spec fn spec_callsign_display(c: Callsign) -> Seq<char> {
    match c {
        Callsign::Icao(x) => x.0@ + x.1@,
        Callsign::Iata(x) => x.0@ + x.1@,
        Callsign::Other(s) => s@,
    }
}

/// How a valid canonical callsign string `u` decomposes into a `Callsign`
/// value, given the verdict `converts` of the registration-to-transponder
/// conversion capability on `u`:
/// - a 3-letter prefix wins and yields the organization-long shape;
/// - otherwise, a string that is also a valid registration number whose
///   conversion succeeded is recognised as a registration in disguise and
///   kept unstructured;
/// - otherwise the 2-character prefix yields the organization-short shape
///   when it is made of valid callsign characters, and the string stays
///   unstructured when it is not.
pub open spec fn spec_callsign_shape(u: Seq<char>, converts: bool, c: Callsign) -> bool {
    if spec_ascii_letter(u[0]) && spec_ascii_letter(u[1]) && spec_ascii_letter(u[2]) {
        c matches Callsign::Icao(x) && x.0@ == u.subrange(0, 3) && x.1@ == u.subrange(
            3,
            u.len() as int,
        )
    } else if spec_valid_char(u[0], 'z') && spec_valid_char(u[1], 'z') {
        if spec_n_number_valid(u) && converts {
            c matches Callsign::Other(s) && s@ == u
        } else {
            c matches Callsign::Iata(x) && x.0@ == u.subrange(0, 2) && x.1@ == u.subrange(
                2,
                u.len() as int,
            )
        }
    } else {
        c matches Callsign::Other(s) && s@ == u
    }
}

impl Callsign {
    /// Make sure that the input is a valid callsign string (four to eight
    /// digits or letters after uppercasing) and classify its shape.
    ///
    /// `registration_converts` is the verdict of the external
    /// registration-to-transponder conversion capability on the uppercased
    /// input; it is consulted only when that input is itself a valid
    /// registration number, and decides whether such a string is kept
    /// unstructured instead of being read as an organization-short callsign.
    pub fn validate(input: &str, registration_converts: bool) -> (r: Result<Callsign, AppError>)
        ensures
            match r {
                Ok(c) => spec_callsign_valid(spec_upper_seq(input@)) && spec_callsign_shape(
                    spec_upper_seq(input@),
                    registration_converts,
                    c,
                ),
                Err(e) => !spec_callsign_valid(spec_upper_seq(input@)) && (e
                    matches AppError::Callsign(t) && t@ == spec_upper_seq(input@)),
            },
    {
        let upper = to_upper(input);
        let n = upper.as_str().unicode_len();
        if !(4 <= n && n <= 8 && all_valid_chars(upper.as_str(), 'z')) {
            return Err(AppError::Callsign(upper));
        }
        if ascii_letter(upper.as_str().get_char(0)) && ascii_letter(upper.as_str().get_char(1))
            && ascii_letter(upper.as_str().get_char(2)) {
            let prefix = upper.as_str().substring_char(0, 3).to_owned();
            let suffix = upper.as_str().substring_char(3, n).to_owned();
            Ok(Callsign::Icao((prefix, suffix)))
        } else if valid_char(upper.as_str().get_char(0), 'z') && valid_char(
            upper.as_str().get_char(1),
            'z',
        ) {
            proof {
                lemma_upper_seq_idempotent(input@);
            }
            let is_registration = NNumber::validate(upper.as_str()).is_ok();
            if is_registration && registration_converts {
                Ok(Callsign::Other(upper))
            } else {
                let prefix = upper.as_str().substring_char(0, 2).to_owned();
                let suffix = upper.as_str().substring_char(2, n).to_owned();
                Ok(Callsign::Iata((prefix, suffix)))
            }
        } else {
            Ok(Callsign::Other(upper))
        }
    }

    /// The display form: organization code and suffix concatenated, or the
    /// unstructured string itself.
    pub fn display_form(&self) -> (r: String)
        ensures
            r@ == spec_callsign_display(*self),
    {
        match self {
            Callsign::Icao(x) => x.0.clone().concat(x.1.as_str()),
            Callsign::Iata(x) => x.0.clone().concat(x.1.as_str()),
            Callsign::Other(s) => s.clone(),
        }
    }
}

/// Every character of `s` is a digit or a letter between `a` and `end`,
/// case-insensitively.
fn all_valid_chars(s: &str, end: char) -> (b: bool)
    ensures
        b == (forall|i: int| 0 <= i < s@.len() ==> spec_valid_char(#[trigger] s@[i], end)),
{
    let n = s.unicode_len();
    let mut i: usize = 0;
    while i < n
        invariant
            i <= n,
            n == s@.len(),
            forall|j: int| 0 <= j < i ==> spec_valid_char(#[trigger] s@[j], end),
        decreases n - i,
    {
        if !valid_char(s.get_char(i), end) {
            return false;
        }
        i += 1;
    }
    true
}

/// Every character of `s` belongs to the registration alphabet.
fn all_registration_chars(s: &str) -> (b: bool)
    ensures
        b == (forall|i: int| 0 <= i < s@.len() ==> spec_registration_char(#[trigger] s@[i])),
{
    let n = s.unicode_len();
    let mut i: usize = 0;
    while i < n
        invariant
            i <= n,
            n == s@.len(),
            forall|j: int| 0 <= j < i ==> spec_registration_char(#[trigger] s@[j]),
        decreases n - i,
    {
        let c = s.get_char(i);
        let u = c as u32;
        let ok = (48 <= u && u <= 57) || (65 <= u && u <= 90 && u != 73 && u != 79);
        proof {
            assert(ok == spec_registration_char(c));
        }
        if !ok {
            return false;
        }
        i += 1;
    }
    true
}

/// A registration candidate that contains `I` or `O` in any case is always
/// rejected: uppercasing maps `i` and `o` onto them, and the restricted
/// alphabet excludes both.
pub proof fn lemma_registration_rejects_confusable(s: Seq<char>, i: int)
    requires
        0 <= i < s.len(),
        s[i] == 'I' || s[i] == 'O' || s[i] == 'i' || s[i] == 'o',
    ensures
        !spec_n_number_valid(spec_upper_seq(s)),
{
    let u = spec_upper_seq(s);
    assert(u[i] == 'I' || u[i] == 'O');
    assert(!spec_registration_char(u[i]));
}

/// Classification depends on the input only through its canonical
/// (uppercased) form, and that form is a fixed point of uppercasing: a
/// transponder code accepted once is accepted again with the same canonical
/// value when its canonical text is classified a second time.
pub proof fn lemma_mode_s_classify_idempotent(s: Seq<char>)
    requires
        spec_mode_s_valid(spec_upper_seq(s)),
    ensures
        spec_upper_seq(spec_upper_seq(s)) == spec_upper_seq(s),
        spec_mode_s_valid(spec_upper_seq(spec_upper_seq(s))),
{
    lemma_upper_seq_idempotent(s);
}

/// The registration classifier is idempotent in the same sense.
pub proof fn lemma_n_number_classify_idempotent(s: Seq<char>)
    requires
        spec_n_number_valid(spec_upper_seq(s)),
    ensures
        spec_upper_seq(spec_upper_seq(s)) == spec_upper_seq(s),
        spec_n_number_valid(spec_upper_seq(spec_upper_seq(s))),
{
    lemma_upper_seq_idempotent(s);
}

/// The display form of a classified callsign is exactly the canonical string
/// it was classified from.
pub proof fn lemma_callsign_display_is_canonical(u: Seq<char>, converts: bool, c: Callsign)
    requires
        spec_callsign_valid(u),
        spec_callsign_shape(u, converts, c),
    ensures
        spec_callsign_display(c) == u,
{
    match c {
        Callsign::Icao(x) => {
            assert(x.0@ + x.1@ =~= u);
        },
        Callsign::Iata(x) => {
            assert(x.0@ + x.1@ =~= u);
        },
        Callsign::Other(_) => {},
    }
}

/// Classifying a callsign twice yields equal results: the display form of a
/// classification result, classified again with the same conversion
/// verdict, is valid and decomposes into the same value.
pub proof fn lemma_callsign_classify_idempotent(s: Seq<char>, converts: bool, c: Callsign)
    requires
        spec_callsign_valid(spec_upper_seq(s)),
        spec_callsign_shape(spec_upper_seq(s), converts, c),
    ensures
        spec_upper_seq(spec_callsign_display(c)) == spec_upper_seq(s),
        spec_callsign_valid(spec_upper_seq(spec_callsign_display(c))),
        spec_callsign_shape(spec_upper_seq(spec_callsign_display(c)), converts, c),
{
    lemma_callsign_display_is_canonical(spec_upper_seq(s), converts, c);
    lemma_upper_seq_idempotent(s);
}

/// Boundary behaviour of the callsign grammar: inputs of length three or
/// nine are always rejected, and inputs of length four or eight are always
/// accepted when every character is a valid callsign character.
pub proof fn lemma_callsign_length_boundary(s: Seq<char>)
    ensures
        s.len() == 3 || s.len() == 9 ==> !spec_callsign_valid(spec_upper_seq(s)),
        ((s.len() == 4 || s.len() == 8) && (forall|i: int|
            0 <= i < s.len() ==> spec_valid_char(#[trigger] spec_upper_seq(s)[i], 'z')))
            ==> spec_callsign_valid(spec_upper_seq(s)),
{
}

} // verus!
