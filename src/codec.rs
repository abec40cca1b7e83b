//! The wire format of one loudness reading: `<level>,<epoch_seconds>`.

use vstd::prelude::*;
use vstd::string::StrSliceExecFns;
use vstd::string::StringExecFns;
use vstd::utf8::{decode_utf8, encode_utf8, encode_utf8_decode_utf8, encode_utf8_valid_utf8, valid_utf8};
use crate::text::{
    all_digits, chars_of, is_digit, without_plus, decimal_text, lemma_decimal_text, lemma_split_excludes, lemma_split_pair, digits_only, is_u64_text, parse_u64, push_decimal, slice_chars,
    split_chars, split_on, string_of, u64_text_value, views,
};

verus! {

/// A point in time: whole seconds and nanoseconds since the Unix epoch.
#[derive(Clone, Copy, PartialEq, Eq, Structural, Debug)]
pub struct Timestamp {
    pub secs: u64,
    pub nanos: u32,
}

impl Timestamp {
    pub open spec fn wf(&self) -> bool {
        self.nanos < 1_000_000_000
    }

    /// The Unix epoch plus `secs` whole seconds.
    pub fn from_secs(secs: u64) -> (r: Timestamp)
        ensures
            r.secs == secs,
            r.nanos == 0,
    {
        Timestamp { secs, nanos: 0 }
    }
}

/// Why a payload could not be read.
#[derive(Clone, Copy, PartialEq, Eq, Structural, Debug)]
pub enum DecodeError {
    /// The bytes are not UTF-8.
    Encoding,
    /// The text is not `<level>,<epoch_seconds>`.
    Malformed,
}

/// One loudness reading as it travels on the wire. The level is kept as the
/// decimal text that was sent.
#[derive(Debug)]
pub struct LoudnessData {
    pub db_level: String,
    pub timestamp: Timestamp,
}

pub ghost struct LoudnessView {
    pub level: Seq<char>,
    pub timestamp: Timestamp,
}

impl View for LoudnessData {
    type V = LoudnessView;

    open spec fn view(&self) -> LoudnessView {
        LoudnessView { level: self.db_level@, timestamp: self.timestamp }
    }
}

pub open spec fn without_sign(s: Seq<char>) -> Seq<char> {
    if s.len() > 0 && (s[0] == '+' || s[0] == '-') {
        s.drop_first()
    } else {
        s
    }
}

/// `c`, read in lower case, is `x`.
pub open spec fn lower_is(c: char, x: char) -> bool {
    if 'A' <= c && c <= 'Z' {
        c as int + 32 == x as int
    } else {
        c == x
    }
}

/// `b` is `w` once its ASCII capitals are read in lower case.
pub open spec fn lower_equals(b: Seq<char>, w: Seq<char>) -> bool {
    b.len() == w.len() && forall|i: int| 0 <= i < b.len() ==> lower_is(b[i], w[i])
}

/// `inf`, `infinity` or `nan`, in any case.
pub open spec fn is_special_float(b: Seq<char>) -> bool {
    lower_equals(b, "inf"@) || lower_equals(b, "infinity"@) || lower_equals(b, "nan"@)
}

/// `E` read as `e`.
pub open spec fn exp_folded(b: Seq<char>) -> Seq<char> {
    b.map_values(|c: char| if c == 'E' { 'e' } else { c })
}

/// Digits with at most one `.` among them, and at least one digit.
pub open spec fn is_mantissa(m: Seq<char>) -> bool {
    let p = split_on(m, '.');
    ||| (p.len() == 1 && p[0].len() > 0 && all_digits(p[0]))
    ||| (p.len() == 2 && (p[0].len() > 0 || p[1].len() > 0) && all_digits(p[0]) && all_digits(
        p[1],
    ))
}

/// An optional sign, then one or more digits.
pub open spec fn is_exponent(x: Seq<char>) -> bool {
    let d = without_sign(x);
    d.len() > 0 && all_digits(d)
}

/// A mantissa, then optionally `e` or `E` and an exponent.
pub open spec fn is_number(b: Seq<char>) -> bool {
    let q = split_on(exp_folded(b), 'e');
    ||| (q.len() == 1 && is_mantissa(q[0]))
    ||| (q.len() == 2 && is_mantissa(q[0]) && is_exponent(q[1]))
}

/// Text that reads as a 32-bit float: an optional sign, then a decimal
/// number with an optional exponent, or `inf`, `infinity` or `nan` in any case.
pub open spec fn is_float_text(s: Seq<char>) -> bool {
    is_special_float(without_sign(s)) || is_number(without_sign(s))
}

/// Exactly two comma-separated fields: a float level and whole epoch seconds.
pub open spec fn is_record(s: Seq<char>) -> bool {
    let f = split_on(s, ',');
    f.len() == 2 && is_float_text(f[0]) && is_u64_text(f[1])
}

pub open spec fn record_of(s: Seq<char>) -> LoudnessView {
    let f = split_on(s, ',');
    LoudnessView {
        level: f[0],
        timestamp: Timestamp { secs: u64_text_value(f[1]) as u64, nanos: 0 },
    }
}

/// What reading a payload text gives.
pub open spec fn parsed(s: Seq<char>) -> Result<LoudnessView, DecodeError> {
    if is_record(s) {
        Ok(record_of(s))
    } else {
        Err(DecodeError::Malformed)
    }
}

/// What reading payload bytes gives.
pub open spec fn decoded(b: Seq<u8>) -> Result<LoudnessView, DecodeError> {
    if !valid_utf8(b) {
        Err(DecodeError::Encoding)
    } else {
        parsed(decode_utf8(b))
    }
}

/// The text written for a reading.
pub open spec fn csv_text(d: LoudnessView) -> Seq<char> {
    d.level + seq![','] + decimal_text(d.timestamp.secs as nat)
}

/// The bytes written for a reading.
pub open spec fn encoded(d: LoudnessView) -> Seq<u8> {
    encode_utf8(csv_text(d))
}

pub open spec fn has_no(s: Seq<char>, x: char) -> bool {
    forall|i: int| 0 <= i < s.len() ==> s[i] != x
}

proof fn lemma_mantissa_no_comma(m: Seq<char>)
    requires
        is_mantissa(m),
    ensures
        has_no(m, ','),
{
    let p = split_on(m, '.');
    assert forall|j: int, k: int| 0 <= j < p.len() && 0 <= k < p[j].len() implies #[trigger] p[j][k] != ',' by {
        assert(all_digits(p[j]));
        assert(is_digit(p[j][k]));
    }
    lemma_split_excludes(m, '.', ',');
}

proof fn lemma_exponent_no_comma(x: Seq<char>)
    requires
        is_exponent(x),
    ensures
        has_no(x, ','),
{
    let d = without_sign(x);
    assert forall|i: int| 0 <= i < x.len() implies x[i] != ',' by {
        if d.len() < x.len() {
            if i > 0 {
                assert(x[i] == d[i - 1]);
                assert(is_digit(d[i - 1]));
            }
        } else {
            assert(is_digit(d[i]));
        }
    }
}

proof fn lemma_float_text_no_comma(s: Seq<char>)
    requires
        is_float_text(s),
    ensures
        has_no(s, ','),
{
    let b = without_sign(s);
    if is_special_float(b) {
        reveal_strlit("inf");
        reveal_strlit("infinity");
        reveal_strlit("nan");
        assert forall|i: int| 0 <= i < b.len() implies b[i] != ',' by {
            if lower_equals(b, "inf"@) {
                assert(lower_is(b[i], "inf"@[i]));
            } else if lower_equals(b, "infinity"@) {
                assert(lower_is(b[i], "infinity"@[i]));
            } else {
                assert(lower_is(b[i], "nan"@[i]));
            }
        }
    } else {
        let f = exp_folded(b);
        let q = split_on(f, 'e');
        lemma_mantissa_no_comma(q[0]);
        if q.len() == 2 {
            lemma_exponent_no_comma(q[1]);
        }
        assert forall|j: int, k: int| 0 <= j < q.len() && 0 <= k < q[j].len() implies #[trigger] q[j][k] != ',' by {
            if j == 0 {
                assert(has_no(q[0], ','));
            } else {
                assert(has_no(q[1], ','));
            }
        }
        lemma_split_excludes(f, 'e', ',');
        assert forall|i: int| 0 <= i < b.len() implies b[i] != ',' by {
            assert(f[i] != ',');
        }
    }
    assert forall|i: int| 0 <= i < s.len() implies s[i] != ',' by {
        if b.len() < s.len() && i > 0 {
            assert(s[i] == b[i - 1]);
        } else if b.len() == s.len() {
            assert(s[i] == b[i]);
        }
    }
}

/// A reading whose level reads as a float and whose time has no sub-second
/// part decodes from its own encoding unchanged.
pub proof fn lemma_round_trip(d: LoudnessView)
    requires
        is_float_text(d.level),
        d.timestamp.nanos == 0,
    ensures
        decoded(encoded(d)) == Ok::<LoudnessView, DecodeError>(d),
{
    let t = csv_text(d);
    let secs = d.timestamp.secs;
    let digits = decimal_text(secs as nat);
    encode_utf8_valid_utf8(t);
    encode_utf8_decode_utf8(t);
    lemma_float_text_no_comma(d.level);
    lemma_decimal_text(secs as nat);
    assert forall|i: int| 0 <= i < digits.len() implies digits[i] != ',' by {
        assert(is_digit(digits[i]));
    }
    lemma_split_pair(d.level, digits, ',');
    let f = split_on(t, ',');
    assert(f[0] == d.level);
    assert(f[1] == digits);
    assert(is_digit(digits[0]));
    assert(without_plus(digits) == digits);
    assert(is_u64_text(digits));
    assert(record_of(t) == d);
}

/// Relies on `std::str::from_utf8`: it accepts exactly the valid UTF-8 byte
/// strings, and the text it gives back is made of those same bytes.
#[verifier::external_body]
fn utf8_text(b: &[u8]) -> (r: Option<String>)
    ensures
        match r {
            Some(s) => encode_utf8(s@) == b@,
            None => !valid_utf8(b@),
        },
{
    std::str::from_utf8(b).ok().map(|s| s.to_string())
}

fn lower_matches(b: &Vec<char>, word: &str) -> (r: bool)
    ensures
        r == lower_equals(b@, word@),
{
    let w = chars_of(word);
    if b.len() != w.len() {
        return false;
    }
    let mut i: usize = 0;
    while i < b.len()
        invariant
            i <= b@.len(),
            b@.len() == w@.len(),
            w@ == word@,
            forall|k: int| 0 <= k < i ==> lower_is(b@[k], w@[k]),
        decreases b@.len() - i,
    {
        let c = b[i];
        let x = w[i];
        let same = if 'A' <= c && c <= 'Z' {
            'a' <= x && x <= 'z' && (c as u32) + 32 == x as u32
        } else {
            c == x
        };
        if !same {
            return false;
        }
        assert(lower_is(b@[i as int], w@[i as int]));
        i += 1;
    }
    true
}

fn special_ok(b: &Vec<char>) -> (r: bool)
    ensures
        r == is_special_float(b@),
{
    lower_matches(b, "inf") || lower_matches(b, "infinity") || lower_matches(b, "nan")
}

fn sign_free(s: &Vec<char>) -> (r: Vec<char>)
    ensures
        r@ == without_sign(s@),
{
    if s.len() > 0 && (s[0] == '+' || s[0] == '-') {
        let r = slice_chars(s, 1, s.len());
        assert(r@ =~= s@.drop_first());
        r
    } else {
        slice_chars(s, 0, s.len())
    }
}

fn fold_exp(b: &Vec<char>) -> (r: Vec<char>)
    ensures
        r@ == exp_folded(b@),
{
    let mut r: Vec<char> = Vec::new();
    let mut i: usize = 0;
    while i < b.len()
        invariant
            i <= b@.len(),
            r@ == exp_folded(b@.take(i as int)),
        decreases b@.len() - i,
    {
        let c = b[i];
        r.push(if c == 'E' { 'e' } else { c });
        i += 1;
        assert(r@ =~= exp_folded(b@.take(i as int)));
    }
    assert(b@.take(i as int) =~= b@);
    r
}

fn mantissa_ok(m: &Vec<char>) -> (r: bool)
    ensures
        r == is_mantissa(m@),
{
    let p = split_chars(m, '.');
    assert(views(p@).len() == p@.len());
    if p.len() == 1 {
        assert(views(p@)[0] == p@[0]@);
        p[0].len() > 0 && digits_only(&p[0])
    } else if p.len() == 2 {
        assert(views(p@)[0] == p@[0]@);
        assert(views(p@)[1] == p@[1]@);
        (p[0].len() > 0 || p[1].len() > 0) && digits_only(&p[0]) && digits_only(&p[1])
    } else {
        false
    }
}

fn exponent_ok(x: &Vec<char>) -> (r: bool)
    ensures
        r == is_exponent(x@),
{
    let d = sign_free(x);
    d.len() > 0 && digits_only(&d)
}

fn number_ok(b: &Vec<char>) -> (r: bool)
    ensures
        r == is_number(b@),
{
    let f = fold_exp(b);
    let q = split_chars(&f, 'e');
    assert(views(q@).len() == q@.len());
    if q.len() == 1 {
        assert(views(q@)[0] == q@[0]@);
        mantissa_ok(&q[0])
    } else if q.len() == 2 {
        assert(views(q@)[0] == q@[0]@);
        assert(views(q@)[1] == q@[1]@);
        mantissa_ok(&q[0]) && exponent_ok(&q[1])
    } else {
        false
    }
}

/// Whether `s` reads as a 32-bit float.
pub fn float_ok(s: &Vec<char>) -> (r: bool)
    ensures
        r == is_float_text(s@),
{
    let b = sign_free(s);
    special_ok(&b) || number_ok(&b)
}

impl LoudnessData {
    pub fn new(db_level: String, timestamp: Timestamp) -> (r: LoudnessData)
        ensures
            r@ == (LoudnessView { level: db_level@, timestamp }),
    {
        LoudnessData { db_level, timestamp }
    }

    /// The level as the decimal text that was sent.
    pub fn db_level(&self) -> (r: String)
        ensures
            r@ == self@.level,
    {
        self.db_level.clone()
    }

    pub fn timestamp(&self) -> (r: Timestamp)
        ensures
            r == self@.timestamp,
    {
        self.timestamp
    }

    /// Reads `<level>,<epoch_seconds>`. Anything else, two fields that do
    /// not read as a float and a `u64` included, is `Malformed`.
    pub fn parse_csv(csv: &str) -> (r: Result<LoudnessData, DecodeError>)
        ensures
            match r {
                Ok(d) => parsed(csv@) == Ok::<LoudnessView, DecodeError>(d@),
                Err(e) => parsed(csv@) == Err::<LoudnessView, DecodeError>(e),
            },
    {
        let chars = chars_of(csv);
        let f = split_chars(&chars, ',');
        assert(views(f@).len() == f@.len());
        if f.len() != 2 {
            return Err(DecodeError::Malformed);
        }
        assert(views(f@)[0] == f@[0]@);
        assert(views(f@)[1] == f@[1]@);
        if !float_ok(&f[0]) {
            return Err(DecodeError::Malformed);
        }
        match parse_u64(&f[1]) {
            Some(secs) => Ok(LoudnessData { db_level: string_of(&f[0]), timestamp: Timestamp::from_secs(secs) }),
            None => Err(DecodeError::Malformed),
        }
    }

    /// Writes `<level>,<epoch_seconds>`; sub-second time is not written.
    pub fn to_csv(&self) -> (r: String)
        ensures
            r@ == csv_text(self@),
    {
        let mut out = self.db_level.clone();
        proof {
            reveal_strlit(",");
        }
        out.append(",");
        push_decimal(&mut out, self.timestamp.secs);
        out
    }
}

/// Reads a payload: UTF-8 text in the form `<level>,<epoch_seconds>`.
pub fn decode(payload: &[u8]) -> (r: Result<LoudnessData, DecodeError>)
    ensures
        match r {
            Ok(d) => decoded(payload@) == Ok::<LoudnessView, DecodeError>(d@),
            Err(e) => decoded(payload@) == Err::<LoudnessView, DecodeError>(e),
        },
{
    match utf8_text(payload) {
        None => Err(DecodeError::Encoding),
        Some(text) => {
            proof {
                encode_utf8_valid_utf8(text@);
                encode_utf8_decode_utf8(text@);
            }
            LoudnessData::parse_csv(text.as_str())
        },
    }
}

/// Writes a reading as payload bytes.
pub fn encode(data: &LoudnessData) -> (r: Vec<u8>)
    ensures
        r@ == encoded(data@),
{
    let text = data.to_csv();
    text.as_str().as_bytes_vec()
}

} // verus!
