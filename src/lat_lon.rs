//! Geographic points written as WKT literals, with an optional globe.

use vstd::prelude::*;
use crate::db_operation_cache::{DbOperationCacheValue, ValueModel, models};
use crate::decimal::{Decimal, is_decimal_text, normal_decimal};
use crate::element_type::ElementType;
use crate::text::{all_digits, cat, decimal, digits_only, digits_value, first_index, index_of,
    range_is, read_digits, substring, u64_decimal};
use crate::type_part::{TypePart, non_blank_count};

verus! {

/// The globe of a point without an explicit one: Earth, `Q2`.
pub const EARTH: u32 = 2;

#[derive(Clone, Debug)]
pub struct LatLon {
    latitude: Decimal,
    longitude: Decimal,
    globe_q: u32,
}

pub struct LatLonModel {
    pub latitude: Seq<char>,
    pub longitude: Seq<char>,
    pub globe_q: int,
}

impl View for LatLon {
    type V = LatLonModel;

    closed spec fn view(&self) -> LatLonModel {
        LatLonModel { latitude: self.latitude@, longitude: self.longitude@, globe_q: self.globe_q as int }
    }
}

pub open spec fn is_ws(c: char) -> bool {
    c == ' ' || c == '\t' || c == '\n' || c == '\r' || c == '\x0B' || c == '\x0C'
}

/// The first index at or after `i` that holds whitespace, or the length.
pub open spec fn scan_ws(s: Seq<char>, i: int) -> int
    decreases s.len() - i,
{
    if i < 0 || i >= s.len() { s.len() as int } else if is_ws(s[i]) { i } else { scan_ws(s, i + 1) }
}

/// The first index at or after `i` that holds no whitespace, or the length.
pub open spec fn scan_non_ws(s: Seq<char>, i: int) -> int
    decreases s.len() - i,
{
    if i < 0 || i >= s.len() { s.len() as int } else if !is_ws(s[i]) { i } else { scan_non_ws(s, i + 1) }
}

/// The two coordinates of `<lat><whitespace><lon>`, normalised.
pub open spec fn point_body(m: Seq<char>) -> Option<(Seq<char>, Seq<char>)> {
    let k = scan_ws(m, 0);
    let j = scan_non_ws(m, k);
    let a = m.subrange(0, k);
    let b = m.subrange(j, m.len() as int);
    if k < m.len() && is_decimal_text(a) && is_decimal_text(b) {
        Some((normal_decimal(a), normal_decimal(b)))
    } else {
        None
    }
}

pub open spec fn point_prefix() -> Seq<char> {
    "Point("@
}

pub open spec fn globe_prefix() -> Seq<char> {
    "<http://www.wikidata.org/entity/Q"@
}

/// The point that `s` writes: `Point(<lat> <lon>)` on Earth, or
/// `<http://www.wikidata.org/entity/Q<n>> Point(<lat> <lon>)` on globe `n`.
pub open spec fn lat_lon_of(s: Seq<char>) -> Option<LatLonModel> {
    let n = s.len() as int;
    let p = point_prefix();
    let g = globe_prefix();
    if n >= p.len() + 1 && s.subrange(0, p.len() as int) == p && s[n - 1] == ')' {
        match point_body(s.subrange(p.len() as int, n - 1)) {
            Some((a, b)) => Some(LatLonModel { latitude: a, longitude: b, globe_q: EARTH as int }),
            None => None,
        }
    } else {
        let rest = s.subrange(g.len() as int, n);
        let k = first_index(rest, '>');
        let digits = rest.subrange(0, k);
        if n >= g.len() && s.subrange(0, g.len() as int) == g && k >= 1 && all_digits(digits)
            && digits_value(digits) <= u32::MAX && k + 8 <= rest.len() - 1
            && rest.subrange(k, k + 8) == "> Point("@ && s[n - 1] == ')' {
            match point_body(rest.subrange(k + 8, rest.len() - 1)) {
                Some((a, b)) => Some(LatLonModel { latitude: a, longitude: b, globe_q: digits_value(digits) as int }),
                None => None,
            }
        } else {
            None
        }
    }
}

/// The WKT text of a point.
pub open spec fn wkt(l: LatLonModel) -> Seq<char> {
    "Point("@ + l.latitude + " "@ + l.longitude + ")"@
}

/// A point with its globe, as text.
pub open spec fn lat_lon_text(l: LatLonModel) -> Seq<char> {
    wkt(l) + " on http://www.wikidata.org/entity/Q"@ + decimal(l.globe_q as nat)
}

fn is_ws_char(c: char) -> (r: bool)
    ensures
        r == is_ws(c),
{
    c == ' ' || c == '\t' || c == '\n' || c == '\r' || c == '\x0B' || c == '\x0C'
}

/// The two coordinates of `v[from..to]`.
fn parse_point_body(v: &Vec<char>, from: usize, to: usize) -> (r: Option<(Decimal, Decimal)>)
    requires
        from <= to <= v@.len(),
    ensures
        match r {
            Some((a, b)) => point_body(v@.subrange(from as int, to as int)) == Some((a@, b@)),
            None => point_body(v@.subrange(from as int, to as int)) is None,
        },
{
    let ghost m = v@.subrange(from as int, to as int);
    let mut k: usize = from;
    while k < to && !is_ws_char(v[k])
        invariant
            from <= k <= to <= v@.len(),
            m == v@.subrange(from as int, to as int),
            scan_ws(m, 0) == scan_ws(m, k - from),
        decreases to - k,
    {
        k = k + 1;
    }
    if k == to {
        return None;
    }
    let mut j: usize = k;
    while j < to && is_ws_char(v[j])
        invariant
            from <= k <= j <= to <= v@.len(),
            m == v@.subrange(from as int, to as int),
            scan_non_ws(m, k - from) == scan_non_ws(m, j - from),
        decreases to - j,
    {
        assert(m[(j - from) as int] == v@[j as int]);
        j = j + 1;
    }
    assert(m.subrange(0, k - from) =~= v@.subrange(from as int, k as int));
    assert(m.subrange(j - from, m.len() as int) =~= v@.subrange(j as int, to as int));
    let a = substring(v, from, k);
    let b = substring(v, j, to);
    match (Decimal::from_str(a.as_str()), Decimal::from_str(b.as_str())) {
        (Some(x), Some(y)) => Some((x, y)),
        _ => None,
    }
}

impl LatLon {
    /// The point that `s` writes, if it is one.
    pub fn from_str(s: &str) -> (r: Option<LatLon>)
        ensures
            match r {
                Some(l) => lat_lon_of(s@) == Some(l@),
                None => lat_lon_of(s@) is None,
            },
    {
        let v = crate::text::chars_of(s);
        let n = v.len();
        let p = crate::text::chars_of("Point(");
        let g = crate::text::chars_of("<http://www.wikidata.org/entity/Q");
        if n > p.len() && range_is(&v, 0, p.len(), "Point(") && v[n - 1] == ')' {
            match parse_point_body(&v, p.len(), n - 1) {
                Some((latitude, longitude)) => Some(LatLon { latitude, longitude, globe_q: EARTH }),
                None => None,
            }
        } else {
            if n < g.len() || !range_is(&v, 0, g.len(), "<http://www.wikidata.org/entity/Q") {
                return None;
            }
            let mut rest: Vec<char> = Vec::new();
            crate::decimal::push_range(&v, g.len(), n, &mut rest);
            assert(rest@ =~= s@.subrange(globe_prefix().len() as int, n as int));
            let k = match index_of(&rest, '>') {
                Some(k) => k,
                None => return None,
            };
            if k < 1 || !digits_only(&rest, 0, k) {
                return None;
            }
            let globe = match read_digits(&rest, 0, k, u32::MAX as u64) {
                Some(x) => x as u32,
                None => return None,
            };
            if rest.len() - 1 - k < 8 || !range_is(&rest, k, k + 8, "> Point(")
                || v[n - 1] != ')' {
                return None;
            }
            assert(rest@[rest@.len() - 1] == v@[n - 1]);
            match parse_point_body(&rest, k + 8, rest.len() - 1) {
                Some((latitude, longitude)) => Some(LatLon { latitude, longitude, globe_q: globe }),
                None => None,
            }
        }
    }

    /// The WKT text `Point(<lat> <lon>)`.
    pub fn wkt(&self) -> (r: String)
        ensures
            r@ == wkt(self@),
    {
        let mut r = crate::text::lit("Point(");
        r.append(self.latitude.to_string().as_str());
        r.append(" ");
        r.append(self.longitude.to_string().as_str());
        r.append(")");
        r
    }

    /// The point with its globe, as text.
    pub fn to_string(&self) -> (r: String)
        ensures
            r@ == lat_lon_text(self@),
    {
        let mut r = self.wkt();
        r.append(" on http://www.wikidata.org/entity/Q");
        r.append(u64_decimal(self.globe_q as u64).as_str());
        r
    }
}

impl ElementType for LatLon {
    open spec fn type_parts_spec(&self) -> Seq<TypePart> {
        seq![TypePart::Point, TypePart::U32]
    }

    open spec fn values_spec(&self) -> Seq<ValueModel> {
        seq![
            ValueModel::Expression("PointFromText(\""@ + wkt(self@) + "\")"@),
            ValueModel::Number(self@.globe_q),
        ]
    }

    open spec fn name_spec(&self) -> Seq<char> {
        "LatLon"@
    }

    fn get_type_parts(&self) -> (r: Vec<TypePart>) {
        vec![TypePart::Point, TypePart::U32]
    }

    fn values(&self) -> (r: Vec<DbOperationCacheValue>) {
        let a = cat("PointFromText(\"", self.wkt().as_str());
        let e = cat(a.as_str(), "\")");
        let r = vec![DbOperationCacheValue::Expression(e), DbOperationCacheValue::U32(self.globe_q)];
        assert(models(r@) =~= self.values_spec());
        r
    }

    fn name(&self) -> (r: &'static str) {
        "LatLon"
    }

    proof fn lemma_values_fill_layout(&self) {
        reveal_with_fuel(non_blank_count, 3);
    }
}

} // verus!
