use vstd::prelude::*;

verus! {

/// Whether csv's own type inference reads the field text as a finite number.
pub uninterp spec fn csv_infers_number(s: Seq<char>) -> bool;

pub open spec fn is_ascii_digit(c: char) -> bool {
    '0' <= c && c <= '9'
}

/// Text made of digits only, possibly none.
pub open spec fn digits_or_empty(s: Seq<char>) -> bool {
    forall|i: int| 0 <= i < s.len() ==> is_ascii_digit(#[trigger] s[i])
}

pub open spec fn all_digits(s: Seq<char>) -> bool {
    s.len() > 0 && digits_or_empty(s)
}

/// Rust's grammar for the digits of a decimal: digits with at most one `.`
/// among them, and at least one digit.
pub open spec fn mantissa_text(m: Seq<char>) -> bool {
    all_digits(m) || exists|i: int|
        0 <= i < m.len() && m.len() >= 2 && #[trigger] m[i] == '.' && digits_or_empty(m.take(i))
            && digits_or_empty(m.skip(i + 1))
}

/// Rust's grammar for an exponent: nothing, or `e` or `E`, an optional sign and
/// digits.
pub open spec fn exponent_text(e: Seq<char>) -> bool {
    e.len() == 0 || ((e[0] == 'e' || e[0] == 'E') && all_digits(
        if e.len() > 1 && (e[1] == '+' || e[1] == '-') {
            e.skip(2)
        } else {
            e.skip(1)
        },
    ))
}

/// Rust's grammar for a finite decimal number: an optional sign, the digits and
/// an optional exponent.
pub open spec fn decimal_text(s: Seq<char>) -> bool {
    unsigned_decimal_text(
        if s.len() > 0 && (s[0] == '+' || s[0] == '-') {
            s.skip(1)
        } else {
            s
        },
    )
}

/// The digits of a decimal followed by an optional exponent.
pub open spec fn unsigned_decimal_text(t: Seq<char>) -> bool {
    exists|j: int| 0 <= j <= t.len() && mantissa_text(#[trigger] t.take(j)) && exponent_text(t.skip(j))
}

/// Relies on csv's `StringRecord::deserialize` into a `serde_json::Value`,
/// which infers the type of a field as csv does for every record: it gives a
/// number only for text that `str::parse::<f64>` (or an integer parse) accepts
/// and that is finite, so only for text in Rust's decimal grammar.
#[verifier::external_body]
fn infer_number(s: &str) -> (r: Option<serde_json::Number>)
    ensures
        r is Some == csv_infers_number(s@),
        r is Some ==> decimal_text(s@),
{
    match csv::StringRecord::from(vec![s]).deserialize::<serde_json::Value>(None) {
        Ok(serde_json::Value::Number(n)) => Some(n),
        _ => None,
    }
}

/// The value of a nonempty run of ASCII digits.
pub open spec fn digits_value(s: Seq<char>) -> int
    decreases s.len(),
{
    if s.len() == 0 {
        0
    } else {
        10 * digits_value(s.drop_last()) + ((s.last() as u32) as int - ('0' as u32) as int)
    }
}

/// The integer that text in Rust's unsigned grammar stands for: an optional
/// `+` and then digits.
pub open spec fn unsigned_value(s: Seq<char>) -> Option<int> {
    let d = if s.len() > 0 && s[0] == '+' {
        s.skip(1)
    } else {
        s
    };
    if all_digits(d) {
        Some(digits_value(d))
    } else {
        None
    }
}

/// The integer that text in Rust's signed grammar stands for: `-` and digits,
/// or the unsigned grammar.
pub open spec fn signed_value(s: Seq<char>) -> Option<int> {
    if s.len() > 0 && s[0] == '-' {
        if all_digits(s.skip(1)) {
            Some(-digits_value(s.skip(1)))
        } else {
            None
        }
    } else {
        unsigned_value(s)
    }
}

/// The `u64` that the text stands for, where it is in range.
pub open spec fn u64_of(s: Seq<char>) -> Option<u64> {
    match unsigned_value(s) {
        Some(v) => if 0 <= v <= u64::MAX {
            Some(v as u64)
        } else {
            None
        },
        None => None,
    }
}

/// The `i64` that the text stands for, where it is in range.
pub open spec fn i64_of(s: Seq<char>) -> Option<i64> {
    match signed_value(s) {
        Some(v) => if i64::MIN <= v <= i64::MAX {
            Some(v as i64)
        } else {
            None
        },
        None => None,
    }
}

/// Relies on `str::parse::<u64>`: an optional `+` followed by digits, and
/// nothing else, whose value fits.
#[verifier::external_body]
fn parse_u64(s: &str) -> (r: Option<u64>)
    ensures
        r == u64_of(s@),
{
    s.parse::<u64>().ok()
}

/// Relies on `str::parse::<i64>`: an optional `+` or `-` followed by digits,
/// and nothing else, whose value fits.
#[verifier::external_body]
fn parse_i64(s: &str) -> (r: Option<i64>)
    ensures
        r == i64_of(s@),
{
    s.parse::<i64>().ok()
}

/// One typed cell of a delimited record.
#[derive(Debug, PartialEq)]
pub enum Field {
    /// A header column that the row left out.
    Null,
    Bool(bool),
    /// An integer that fits in a `u64`.
    UInt(u64),
    /// A negative integer that fits in an `i64`.
    Int(i64),
    /// Any other finite number, as csv reads it.
    Float(serde_json::Number),
    Text(String),
}

/// Field text that becomes a number that is not an integer of 64 bits.
pub open spec fn is_decimal(s: Seq<char>) -> bool {
    decimal_text(s) && csv_infers_number(s)
}

/// The typed value that field text `s` is given, by the first rule that
/// applies: the literals `true` and `false`, an integer of 64 bits (unsigned
/// first), another finite number, and otherwise the text itself.
pub open spec fn coerced(s: Seq<char>, f: Field) -> bool {
    if s == "true"@ {
        f == Field::Bool(true)
    } else if s == "false"@ {
        f == Field::Bool(false)
    } else if u64_of(s) is Some {
        f == Field::UInt(u64_of(s)->Some_0)
    } else if i64_of(s) is Some {
        f == Field::Int(i64_of(s)->Some_0)
    } else if is_decimal(s) {
        f is Float
    } else {
        f is Text && f->Text_0@ == s
    }
}

/// Gives field text its typed value. The rules are tried in order and the first
/// that matches wins; the empty text stays text.
pub fn coerce(s: &String) -> (r: Field)
    ensures
        coerced(s@, r),
{
    let t = "true".to_owned();
    let f = "false".to_owned();
    if s.eq(&t) {
        return Field::Bool(true);
    }
    if s.eq(&f) {
        return Field::Bool(false);
    }
    if let Some(n) = parse_u64(s.as_str()) {
        return Field::UInt(n);
    }
    if let Some(n) = parse_i64(s.as_str()) {
        return Field::Int(n);
    }
    match infer_number(s.as_str()) {
        Some(n) => Field::Float(n),
        None => Field::Text(s.clone()),
    }
}

/// What coercion gives: the literals `true` and `false` become booleans, empty
/// text stays empty text and never becomes null, an integer becomes exactly
/// that integer, and text that is no number is kept unchanged.
pub proof fn lemma_coercion_rules(s: Seq<char>, f: Field)
    requires
        coerced(s, f),
    ensures
        f != Field::Null,
        s == "true"@ ==> f == Field::Bool(true),
        s == "false"@ ==> f == Field::Bool(false),
        s.len() == 0 ==> f is Text && f->Text_0@ == s,
        s != "true"@ && s != "false"@ && u64_of(s) is Some ==> f == Field::UInt(u64_of(s)->Some_0),
        !is_decimal(s) && u64_of(s) is None && i64_of(s) is None && s != "true"@ && s != "false"@ ==> f is Text
            && f->Text_0@ == s,
{
    reveal_strlit("true");
    reveal_strlit("false");
    assert("true"@.len() != "false"@.len());
    if s.len() == 0 {
        assert(s != "true"@);
        assert(s != "false"@);
        assert(!all_digits(s));
        assert(u64_of(s) is None);
        assert(i64_of(s) is None);
        assert forall|j: int| 0 <= j <= s.len() implies !mantissa_text(#[trigger] s.take(j)) by {
            assert(s.take(j).len() == 0);
        }
        assert(!decimal_text(s));
    }
}

pub open spec fn pow10(n: nat) -> int
    decreases n,
{
    if n == 0 {
        1
    } else {
        10 * pow10((n - 1) as nat)
    }
}

proof fn lemma_digits_bound(s: Seq<char>)
    requires
        all_digits(s),
    ensures
        0 <= digits_value(s) < pow10(s.len()),
    decreases s.len(),
{
    let d = (s.last() as u32) as int - ('0' as u32) as int;
    assert(is_ascii_digit(s[s.len() - 1]));
    if s.len() == 1 {
        assert(digits_value(s.drop_last()) == 0);
    } else {
        let p = s.drop_last();
        assert forall|i: int| 0 <= i < p.len() implies is_ascii_digit(#[trigger] p[i]) by {
            assert(p[i] == s[i]);
        }
        lemma_digits_bound(p);
    }
    assert(0 <= d <= 9);
    let v = digits_value(s.drop_last());
    let q = pow10(s.drop_last().len());
    assert(digits_value(s) == 10 * v + d);
    assert(pow10(s.len()) == 10 * q);
    assert(0 <= v < q ==> 0 <= 10 * v + d < 10 * q) by (nonlinear_arith)
        requires
            0 <= d <= 9,
    ;
}

proof fn lemma_pow10_19()
    ensures
        pow10(19) == 10000000000000000000,
{
    reveal_with_fuel(pow10, 20);
}

/// Text of one to nineteen digits becomes the unsigned integer it spells.
pub proof fn lemma_digits_are_numbers(s: Seq<char>, f: Field)
    requires
        all_digits(s),
        s.len() <= 19,
        coerced(s, f),
    ensures
        f == Field::UInt(digits_value(s) as u64),
{
    reveal_strlit("true");
    reveal_strlit("false");
    assert(is_ascii_digit(s[0]));
    assert(s != "true"@ && s != "false"@) by {
        if s == "true"@ || s == "false"@ {
            assert(s[0] == 't' || s[0] == 'f');
        }
    }
    lemma_digits_bound(s);
    lemma_pow10_19();
    assert(pow10(s.len()) <= pow10(19)) by {
        lemma_pow10_mono(s.len(), 19);
    }
    assert(is_ascii_digit(s[0]));
    assert(unsigned_value(s) == Some(digits_value(s)));
}

proof fn lemma_pow10_mono(a: nat, b: nat)
    requires
        a <= b,
    ensures
        pow10(a) <= pow10(b),
    decreases b,
{
    if a < b {
        lemma_pow10_mono(a, (b - 1) as nat);
        lemma_pow10_pos((b - 1) as nat);
    }
}

proof fn lemma_pow10_pos(n: nat)
    ensures
        pow10(n) >= 1,
    decreases n,
{
    if n > 0 {
        lemma_pow10_pos((n - 1) as nat);
    }
}

/// Coercion looks at the text alone: equal texts are given the same boolean or
/// integer, a decimal both times, or text with the same characters.
pub proof fn lemma_coercion_deterministic(s: Seq<char>, f: Field, g: Field)
    requires
        coerced(s, f),
        coerced(s, g),
    ensures
        f is Float <==> g is Float,
        f is Bool || f is UInt || f is Int ==> f == g,
        f is Text ==> g is Text && f->Text_0@ == g->Text_0@,
{
}

/// A delimited row with each value named by its header column.
#[derive(Debug)]
pub struct Record {
    pub entries: Vec<(String, Field)>,
}

/// `rec` is the record that `row` makes under `headers`: one entry per header
/// column, in header order, holding the coerced cell, or `Null` where the row
/// is shorter; cells beyond the last header are left out.
pub open spec fn record_of(headers: Seq<String>, row: Seq<String>, rec: Seq<(String, Field)>) -> bool {
    &&& rec.len() == headers.len()
    &&& forall|i: int|
        0 <= i < headers.len() ==> {
            &&& (#[trigger] rec[i]).0@ == headers[i]@
            &&& i < row.len() ==> coerced(row[i]@, rec[i].1)
            &&& i >= row.len() ==> rec[i].1 == Field::Null
        }
}

/// Builds the record of one row under the header row.
pub fn build_record(headers: &Vec<String>, row: &Vec<String>) -> (r: Record)
    ensures
        record_of(headers@, row@, r.entries@),
{
    let mut entries: Vec<(String, Field)> = Vec::new();
    let mut i: usize = 0;
    while i < headers.len()
        invariant
            i <= headers@.len(),
            entries@.len() == i,
            forall|j: int|
                0 <= j < i ==> {
                    &&& (#[trigger] entries@[j]).0@ == headers@[j]@
                    &&& j < row@.len() ==> coerced(row@[j]@, entries@[j].1)
                    &&& j >= row@.len() ==> entries@[j].1 == Field::Null
                },
        decreases headers@.len() - i,
    {
        let value = if i < row.len() {
            coerce(&row[i])
        } else {
            Field::Null
        };
        let name = headers[i].clone();
        proof {
            assert(name@ == headers@[i as int]@);
        }
        entries.push((name, value));
        i = i + 1;
    }
    Record { entries }
}

impl Record {
    /// The value under `name`; where a header repeats, the last column wins.
    pub fn get(&self, name: &str) -> (r: Option<&Field>)
        ensures
            r is None <==> forall|i: int| 0 <= i < self.entries@.len() ==> #[trigger] self.entries@[i].0@ != name@,
            r is Some ==> exists|i: int|
                0 <= i < self.entries@.len() && #[trigger] self.entries@[i].0@ == name@
                    && *r->Some_0 == self.entries@[i].1
                    && forall|k: int| i < k < self.entries@.len() ==> #[trigger] self.entries@[k].0@ != name@,
    {
        let key = name.to_owned();
        let mut i: usize = self.entries.len();
        while i > 0
            invariant
                i <= self.entries@.len(),
                key@ == name@,
                forall|k: int| i <= k < self.entries@.len() ==> #[trigger] self.entries@[k].0@ != name@,
            decreases i,
        {
            i = i - 1;
            if self.entries[i].0.eq(&key) {
                return Some(&self.entries[i].1);
            }
        }
        None
    }
}

} // verus!
