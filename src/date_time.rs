//! Points in time of the form `[+-]YYYY-MM-DDThh:mm:ssZ`.

use vstd::prelude::*;
use crate::db_operation_cache::{DbOperationCacheValue, ValueModel, models};
use crate::decimal::sign_len;
use crate::element_type::ElementType;
use crate::text::{all_digits, cat, decimal, digit_value, digits_only, digits_value, i64_decimal,
    is_digit, read_digits, signed_decimal, u64_decimal};
use crate::type_part::{TypePart, non_blank_count};

verus! {

#[derive(Clone, Copy, Debug)]
pub struct DateTime {
    year: i32,
    month: u8,
    day: u8,
    hour: u8,
    minute: u8,
    second: u8,
}

/// Year, month, day, hour, minute and second.
pub struct DateTimeModel {
    pub year: int,
    pub month: int,
    pub day: int,
    pub hour: int,
    pub minute: int,
    pub second: int,
}

impl View for DateTime {
    type V = DateTimeModel;

    closed spec fn view(&self) -> DateTimeModel {
        DateTimeModel {
            year: self.year as int,
            month: self.month as int,
            day: self.day as int,
            hour: self.hour as int,
            minute: self.minute as int,
            second: self.second as int,
        }
    }
}

pub open spec fn two_digits_at(s: Seq<char>, i: int) -> bool {
    is_digit(s[i]) && is_digit(s[i + 1])
}

pub open spec fn two_digit_value(s: Seq<char>, i: int) -> int {
    (digit_value(s[i]) * 10 + digit_value(s[i + 1])) as int
}

/// The digits of a year text, after its sign.
pub open spec fn year_digits(y: Seq<char>) -> Seq<char> {
    y.subrange(sign_len(y), y.len() as int)
}

pub open spec fn year_value(y: Seq<char>) -> int {
    if y.len() > 0 && y[0] == '-' {
        -digits_value(year_digits(y))
    } else {
        digits_value(year_digits(y)) as int
    }
}

/// `s` is `<year>-MM-DDThh:mm:ssZ` with the year `[+-]?digits`.
pub open spec fn date_time_shape(s: Seq<char>) -> bool {
    let n = s.len() as int;
    &&& n >= 17
    &&& year_digits(s.subrange(0, n - 16)).len() > 0
    &&& all_digits(year_digits(s.subrange(0, n - 16)))
    &&& s[n - 16] == '-' && two_digits_at(s, n - 15)
    &&& s[n - 13] == '-' && two_digits_at(s, n - 12)
    &&& s[n - 10] == 'T' && two_digits_at(s, n - 9)
    &&& s[n - 7] == ':' && two_digits_at(s, n - 6)
    &&& s[n - 4] == ':' && two_digits_at(s, n - 3)
    &&& s[n - 1] == 'Z'
}

/// The point in time that `s` writes, if it has that shape and the year fits in an `i32`.
pub open spec fn date_time_of(s: Seq<char>) -> Option<DateTimeModel> {
    let n = s.len() as int;
    let y = year_value(s.subrange(0, n - 16));
    if date_time_shape(s) && i32::MIN <= y <= i32::MAX {
        Some(DateTimeModel {
            year: y,
            month: two_digit_value(s, n - 15),
            day: two_digit_value(s, n - 12),
            hour: two_digit_value(s, n - 9),
            minute: two_digit_value(s, n - 6),
            second: two_digit_value(s, n - 3),
        })
    } else {
        None
    }
}

/// A number below 100 in two digits.
pub open spec fn pad2(n: int) -> Seq<char> {
    if n < 10 { "0"@ + decimal(n as nat) } else { decimal(n as nat) }
}

pub open spec fn date_time_text(d: DateTimeModel) -> Seq<char> {
    signed_decimal(d.year) + "-"@ + pad2(d.month) + "-"@ + pad2(d.day) + "T"@ + pad2(d.hour) + ":"@
        + pad2(d.minute) + ":"@ + pad2(d.second) + "Z"@
}

fn two_digit_at(v: &Vec<char>, i: usize) -> (r: Option<u8>)
    requires
        i + 1 < v@.len(),
    ensures
        match r {
            Some(x) => two_digits_at(v@, i as int) && x as int == two_digit_value(v@, i as int),
            None => !two_digits_at(v@, i as int),
        },
{
    let len = v.len();
    let a = v[i];
    let b = v[i + 1];
    if '0' <= a && a <= '9' && '0' <= b && b <= '9' {
        let x: u8 = ((a as u32 - '0' as u32) * 10 + (b as u32 - '0' as u32)) as u8;
        Some(x)
    } else {
        None
    }
}

fn pad2_text(n: u8) -> (r: String)
    ensures
        r@ == pad2(n as int),
{
    if n < 10 {
        cat("0", u64_decimal(n as u64).as_str())
    } else {
        u64_decimal(n as u64)
    }
}

impl DateTime {
    /// The point in time that `s` writes, if it is one.
    pub fn from_str(s: &str) -> (r: Option<DateTime>)
        ensures
            match r {
                Some(d) => date_time_of(s@) == Some(d@),
                None => date_time_of(s@) is None,
            },
    {
        let v = crate::text::chars_of(s);
        let n = v.len();
        if n < 17 {
            return None;
        }
        let e = n - 16;
        let sl: usize = if v[0] == '+' || v[0] == '-' { 1 } else { 0 };
        let ghost y = v@.subrange(0, e as int);
        assert(year_digits(y) =~= v@.subrange(sl as int, e as int));
        if sl >= e || !digits_only(&v, sl, e) {
            return None;
        }
        if v[e] != '-' || v[n - 13] != '-' || v[n - 10] != 'T' || v[n - 7] != ':' || v[n - 4] != ':'
            || v[n - 1] != 'Z' {
            return None;
        }
        let month = match two_digit_at(&v, n - 15) { Some(x) => x, None => return None };
        let day = match two_digit_at(&v, n - 12) { Some(x) => x, None => return None };
        let hour = match two_digit_at(&v, n - 9) { Some(x) => x, None => return None };
        let minute = match two_digit_at(&v, n - 6) { Some(x) => x, None => return None };
        let second = match two_digit_at(&v, n - 3) { Some(x) => x, None => return None };
        let negative = v[0] == '-';
        let max: u64 = if negative { 2147483648 } else { 2147483647 };
        let year: i32 = match read_digits(&v, sl, e, max) {
            Some(m) => if negative { (0 - (m as i64)) as i32 } else { m as i32 },
            None => return None,
        };
        Some(DateTime { year, month, day, hour, minute, second })
    }

    /// The text `<year>-MM-DDThh:mm:ssZ`.
    pub fn to_string(&self) -> (r: String)
        ensures
            r@ == date_time_text(self@),
    {
        let mut r = i64_decimal(self.year as i64);
        r.append("-");
        r.append(pad2_text(self.month).as_str());
        r.append("-");
        r.append(pad2_text(self.day).as_str());
        r.append("T");
        r.append(pad2_text(self.hour).as_str());
        r.append(":");
        r.append(pad2_text(self.minute).as_str());
        r.append(":");
        r.append(pad2_text(self.second).as_str());
        r.append("Z");
        r
    }
}

impl ElementType for DateTime {
    open spec fn type_parts_spec(&self) -> Seq<TypePart> {
        seq![TypePart::I16, TypePart::U8, TypePart::U8, TypePart::U8, TypePart::U8, TypePart::U8]
    }

    open spec fn values_spec(&self) -> Seq<ValueModel> {
        seq![
            ValueModel::Number(self@.year),
            ValueModel::Number(self@.month),
            ValueModel::Number(self@.day),
            ValueModel::Number(self@.hour),
            ValueModel::Number(self@.minute),
            ValueModel::Number(self@.second),
        ]
    }

    open spec fn name_spec(&self) -> Seq<char> {
        "DateTime"@
    }

    fn get_type_parts(&self) -> (r: Vec<TypePart>) {
        vec![TypePart::I16, TypePart::U8, TypePart::U8, TypePart::U8, TypePart::U8, TypePart::U8]
    }

    fn values(&self) -> (r: Vec<DbOperationCacheValue>) {
        let r = vec![
            DbOperationCacheValue::I32(self.year),
            DbOperationCacheValue::U8(self.month),
            DbOperationCacheValue::U8(self.day),
            DbOperationCacheValue::U8(self.hour),
            DbOperationCacheValue::U8(self.minute),
            DbOperationCacheValue::U8(self.second),
        ];
        assert(models(r@) =~= self.values_spec());
        r
    }

    fn name(&self) -> (r: &'static str) {
        "DateTime"
    }

    proof fn lemma_values_fill_layout(&self) {
        reveal_with_fuel(non_blank_count, 7);
    }
}

} // verus!
