//! Reading one N-Triples line into its three terms.
//!
//! Escapes in literals: `\"` and `\\` are decoded; other backslash sequences
//! (such as `\n` or `\uXXXX`) are kept as they stand.

use vstd::prelude::*;
use crate::date_time::{DateTime, date_time_of};
use crate::decimal::{Decimal, is_decimal_text, normal_decimal, sign_len};
use crate::element::{Element, ElementModel};
use crate::element_parse::parse_model;
use crate::error::WDQSErr;
use crate::lat_lon::{LatLon, lat_lon_of};
use crate::text::{all_digits, digits_only, digits_value, find_from, range_is, read_digits, scan_to, str_eq, substring};
use crate::text_id::{TextId, text_of};

verus! {

pub open spec fn is_space(c: char) -> bool {
    c == ' ' || c == '\t'
}

/// The first index at or after `i` that holds no space or tab.
pub open spec fn skip_spaces(s: Seq<char>, i: int) -> int
    decreases s.len() - i,
{
    if i < 0 || i >= s.len() {
        i
    } else if is_space(s[i]) {
        skip_spaces(s, i + 1)
    } else {
        i
    }
}

/// The index of the quote that closes a literal whose text starts at `i`, or `-1`;
/// a backslash makes the character after it part of the text.
pub open spec fn literal_end(s: Seq<char>, i: int) -> int
    decreases s.len() - i,
{
    if i < 0 || i >= s.len() {
        -1
    } else if s[i] == '"' {
        i
    } else if s[i] == '\\' && i + 1 < s.len() {
        literal_end(s, i + 2)
    } else {
        literal_end(s, i + 1)
    }
}

/// The text of a literal with `\"` and `\\` decoded.
pub open spec fn unescape(s: Seq<char>) -> Seq<char>
    decreases s.len(),
{
    if s.len() == 0 {
        s
    } else if s.len() >= 2 && s[0] == '\\' && (s[1] == '"' || s[1] == '\\') {
        seq![s[1]] + unescape(s.subrange(2, s.len() as int))
    } else {
        seq![s[0]] + unescape(s.subrange(1, s.len() as int))
    }
}

/// The value of `[+-]?digits`, if it fits in an `i64`.
pub open spec fn int_of(s: Seq<char>) -> Option<int> {
    let d = s.subrange(sign_len(s), s.len() as int);
    let v = if s.len() > 0 && s[0] == '-' { -digits_value(d) } else { digits_value(d) as int };
    if d.len() > 0 && all_digits(d) && i64::MIN <= v <= i64::MAX {
        Some(v)
    } else {
        None
    }
}

/// The term of a typed literal; an unknown type gives a URL term of the text.
pub open spec fn typed_element(body: Seq<char>, ty: Seq<char>) -> Option<ElementModel> {
    if ty == "http://www.w3.org/2001/XMLSchema#dateTime"@ {
        match date_time_of(body) {
            Some(d) => Some(ElementModel::DateTime(d)),
            None => None,
        }
    } else if ty == "http://www.opengis.net/ont/geosparql#wktLiteral"@ {
        match lat_lon_of(body) {
            Some(l) => Some(ElementModel::LatLon(l)),
            None => None,
        }
    } else if ty == "http://www.w3.org/2001/XMLSchema#decimal"@ || ty == "http://www.w3.org/2001/XMLSchema#double"@ {
        if is_decimal_text(body) { Some(ElementModel::Float(normal_decimal(body))) } else { None }
    } else if ty == "http://www.w3.org/2001/XMLSchema#integer"@ {
        match int_of(body) {
            Some(n) => Some(ElementModel::Int(n)),
            None => None,
        }
    } else {
        Some(ElementModel::Url(text_of(body)))
    }
}

/// `<iri>` at `i`: the term and the index after it.
pub open spec fn iri_at(s: Seq<char>, i: int) -> Option<(ElementModel, int)> {
    let k = find_from(s, '>', i + 1);
    if k > i + 1 {
        Some((parse_model(s.subrange(i + 1, k)), k + 1))
    } else {
        None
    }
}

/// `_label ` at `i`: a text term of the label, and the index of the space after it.
pub open spec fn blank_node_at(s: Seq<char>, i: int) -> Option<(ElementModel, int)> {
    let k = find_from(s, ' ', i + 1);
    if k >= 0 {
        Some((ElementModel::Text(text_of(s.subrange(i + 1, k))), k))
    } else {
        None
    }
}

/// A quoted literal at `i`, with an optional `^^<type>` or `@lang` after it.
pub open spec fn literal_at(s: Seq<char>, i: int) -> Option<(ElementModel, int)> {
    let e = literal_end(s, i + 1);
    let body = unescape(s.subrange(i + 1, e));
    let p = e + 1;
    if e < 0 {
        None
    } else if p + 3 <= s.len() && s.subrange(p, p + 3) == "^^<"@ && find_from(s, '>', p + 3) > p + 3 {
        let k = find_from(s, '>', p + 3);
        match typed_element(body, s.subrange(p + 3, k)) {
            Some(el) => Some((el, k + 1)),
            None => None,
        }
    } else if p < s.len() && s[p] == '@' && find_from(s, ' ', p + 1) > p + 1 {
        let k = find_from(s, ' ', p + 1);
        Some((ElementModel::TextInLanguage(text_of(body), text_of(s.subrange(p + 1, k))), k))
    } else {
        Some((ElementModel::Text(text_of(body)), p))
    }
}

/// The term at `i` and the index after it.
pub open spec fn element_at(s: Seq<char>, i: int) -> Option<(ElementModel, int)> {
    if 0 <= i < s.len() && s[i] == '<' {
        iri_at(s, i)
    } else if 0 <= i < s.len() && s[i] == '_' {
        blank_node_at(s, i)
    } else if 0 <= i < s.len() && s[i] == '"' {
        literal_at(s, i)
    } else {
        None
    }
}

/// The three terms of a line, separated by spaces or tabs; the predicate may not be a URL term.
pub open spec fn triple_of(s: Seq<char>) -> Option<(ElementModel, ElementModel, ElementModel)> {
    match element_at(s, 0) {
        Some((a, i)) => {
            let j = skip_spaces(s, i);
            match element_at(s, j) {
                Some((b, k)) => {
                    let l = skip_spaces(s, k);
                    match element_at(s, l) {
                        Some((c, _)) => if j > i && l > k && !(b is Url) { Some((a, b, c)) } else { None },
                        None => None,
                    }
                },
                None => None,
            }
        },
        None => None,
    }
}

fn skip_spaces_from(v: &Vec<char>, i: usize) -> (r: usize)
    ensures
        r as int == skip_spaces(v@, i as int),
        i <= r,
{
    let mut j: usize = i;
    while j < v.len() && (v[j] == ' ' || v[j] == '\t')
        invariant
            i <= j,
            skip_spaces(v@, i as int) == skip_spaces(v@, j as int),
        decreases v@.len() - j,
    {
        j = j + 1;
    }
    j
}

fn literal_end_from(v: &Vec<char>, i: usize) -> (r: Option<usize>)
    ensures
        match r {
            Some(e) => literal_end(v@, i as int) == e as int && i <= e < v@.len(),
            None => literal_end(v@, i as int) == -1,
        },
{
    let n = v.len();
    let mut j: usize = i;
    while j < n
        invariant
            i <= j,
            n == v@.len(),
            literal_end(v@, i as int) == literal_end(v@, j as int),
        decreases n - j,
    {
        if v[j] == '"' {
            return Some(j);
        }
        if v[j] == '\\' && j + 1 < n {
            j = j + 2;
        } else {
            j = j + 1;
        }
    }
    None
}

fn unescape_range(v: &Vec<char>, from: usize, to: usize) -> (r: String)
    requires
        from <= to <= v@.len(),
    ensures
        r@ == unescape(v@.subrange(from as int, to as int)),
{
    let ghost all = v@.subrange(from as int, to as int);
    let mut out: Vec<char> = Vec::new();
    let mut i: usize = from;
    while i < to
        invariant
            from <= i <= to <= v@.len(),
            all == v@.subrange(from as int, to as int),
            out@ + unescape(v@.subrange(i as int, to as int)) == unescape(all),
        decreases to - i,
    {
        let ghost rest = v@.subrange(i as int, to as int);
        if to - i >= 2 && v[i] == '\\' && (v[i + 1] == '"' || v[i + 1] == '\\') {
            assert(rest.subrange(2, rest.len() as int) =~= v@.subrange(i + 2, to as int));
            out.push(v[i + 1]);
            i = i + 2;
        } else {
            assert(rest.subrange(1, rest.len() as int) =~= v@.subrange(i + 1, to as int));
            out.push(v[i]);
            i = i + 1;
        }
    }
    assert(unescape(v@.subrange(to as int, to as int)) =~= Seq::<char>::empty());
    assert(out@ =~= unescape(all));
    crate::text::string_of(out.as_slice())
}

fn int_from(s: &str) -> (r: Option<i64>)
    ensures
        match r {
            Some(n) => int_of(s@) == Some(n as int),
            None => int_of(s@) is None,
        },
{
    let v = crate::text::chars_of(s);
    let n = v.len();
    let sl: usize = if n > 0 && (v[0] == '+' || v[0] == '-') { 1 } else { 0 };
    if sl >= n || !digits_only(&v, sl, n) {
        return None;
    }
    let negative = v[0] == '-';
    let max: u64 = if negative { 9223372036854775808 } else { 9223372036854775807 };
    match read_digits(&v, sl, n, max) {
        Some(m) => {
            if negative {
                if m == 9223372036854775808 {
                    Some(i64::MIN)
                } else {
                    Some(0 - (m as i64))
                }
            } else {
                Some(m as i64)
            }
        },
        None => None,
    }
}

fn typed_element_of(body: &str, ty: &str) -> (r: Option<Element>)
    ensures
        match r {
            Some(e) => typed_element(body@, ty@) == Some(e@),
            None => typed_element(body@, ty@) is None,
        },
{
    if str_eq(ty, "http://www.w3.org/2001/XMLSchema#dateTime") {
        match DateTime::from_str(body) {
            Some(d) => Some(Element::DateTime(d)),
            None => None,
        }
    } else if str_eq(ty, "http://www.opengis.net/ont/geosparql#wktLiteral") {
        match LatLon::from_str(body) {
            Some(l) => Some(Element::LatLon(l)),
            None => None,
        }
    } else if str_eq(ty, "http://www.w3.org/2001/XMLSchema#decimal") || str_eq(ty, "http://www.w3.org/2001/XMLSchema#double") {
        match Decimal::from_str(body) {
            Some(d) => Some(Element::Float(d)),
            None => None,
        }
    } else if str_eq(ty, "http://www.w3.org/2001/XMLSchema#integer") {
        match int_from(body) {
            Some(n) => Some(Element::Int(n)),
            None => None,
        }
    } else {
        Some(Element::Url(TextId::from_str_lossy(body)))
    }
}

fn literal_from(v: &Vec<char>, i: usize) -> (r: Option<(Element, usize)>)
    requires
        i < v@.len(),
    ensures
        match r {
            Some((e, j)) => literal_at(v@, i as int) == Some((e@, j as int)),
            None => literal_at(v@, i as int) is None,
        },
{
    let n = v.len();
    let e = match literal_end_from(v, i + 1) {
        Some(e) => e,
        None => return None,
    };
    let body = unescape_range(v, i + 1, e);
    let p = e + 1;
    if n - p >= 3 && range_is(v, p, p + 3, "^^<") {
        if let Some(k) = scan_to(v, '>', p + 3) {
            if k > p + 3 {
                let ty = substring(v, p + 3, k);
                return match typed_element_of(body.as_str(), ty.as_str()) {
                    Some(el) => Some((el, k + 1)),
                    None => None,
                };
            }
        }
    }
    if p < n && v[p] == '@' {
        if let Some(k) = scan_to(v, ' ', p + 1) {
            if k > p + 1 {
                let lang = substring(v, p + 1, k);
                return Some((
                    Element::TextInLanguage(TextId::from_str_lossy(body.as_str()), TextId::from_str_lossy(lang.as_str())),
                    k,
                ));
            }
        }
    }
    Some((Element::Text(TextId::from_str_lossy(body.as_str())), p))
}

fn element_from(v: &Vec<char>, i: usize) -> (r: Option<(Element, usize)>)
    ensures
        match r {
            Some((e, j)) => element_at(v@, i as int) == Some((e@, j as int)),
            None => element_at(v@, i as int) is None,
        },
{
    let n = v.len();
    if i >= n {
        return None;
    }
    if v[i] == '<' {
        match scan_to(v, '>', i + 1) {
            Some(k) => {
                if k > i + 1 {
                    let iri = substring(v, i + 1, k);
                    match Element::from_str(iri.as_str()) {
                        Some(e) => Some((e, k + 1)),
                        None => None,
                    }
                } else {
                    None
                }
            },
            None => None,
        }
    } else if v[i] == '_' {
        match scan_to(v, ' ', i + 1) {
            Some(k) => Some((Element::Text(TextId::from_str_lossy(substring(v, i + 1, k).as_str())), k)),
            None => None,
        }
    } else if v[i] == '"' {
        literal_from(v, i)
    } else {
        None
    }
}

/// The three terms of an N-Triples line; a line that does not parse, or whose
/// predicate is a URL term, gives a parse error.
pub fn parse_line(line: &str) -> (r: Result<(Element, Element, Element), WDQSErr>)
    ensures
        match r {
            Ok((a, b, c)) => triple_of(line@) == Some((a@, b@, c@)),
            Err(e) => triple_of(line@) is None && e is ParserError,
        },
{
    let v = crate::text::chars_of(line);
    let (a, i) = match element_from(&v, 0) {
        Some(x) => x,
        None => return Err(WDQSErr::ParserError(crate::text::lit("parse_line: no subject"))),
    };
    let j = skip_spaces_from(&v, i);
    let (b, k) = match element_from(&v, j) {
        Some(x) => x,
        None => return Err(WDQSErr::ParserError(crate::text::lit("parse_line: no predicate"))),
    };
    let l = skip_spaces_from(&v, k);
    let (c, _) = match element_from(&v, l) {
        Some(x) => x,
        None => return Err(WDQSErr::ParserError(crate::text::lit("parse_line: no object"))),
    };
    if j == i || l == k {
        return Err(WDQSErr::ParserError(crate::text::lit("parse_line: terms must be separated by whitespace")));
    }
    if let Element::Url(_) = b {
        return Err(WDQSErr::ParserError(crate::text::lit("parse_line: the predicate is a URL")));
    }
    Ok((a, b, c))
}

} // verus!
