//! Statement and reference identifiers: 40 or 32 alphanumeric characters,
//! dashes ignored, stored lower-case.

use vstd::prelude::*;
use crate::db_operation_cache::{DbOperationCacheValue, ValueModel, models};
use crate::element_type::ElementType;
use crate::text::{ascii_lower, cat, is_ascii_alnum, to_ascii_lower};
use crate::type_part::{TypePart, non_blank_count};

verus! {

/// `s` without its dashes.
pub open spec fn without_dashes(s: Seq<char>) -> Seq<char>
    decreases s.len(),
{
    if s.len() == 0 {
        s
    } else if s.last() == '-' {
        without_dashes(s.drop_last())
    } else {
        without_dashes(s.drop_last()).push(s.last())
    }
}

/// The identifier that `s` stands for if, without dashes, it is `n` ASCII letters
/// and digits: those characters in lower case.
pub open spec fn uuid_of(s: Seq<char>, n: nat) -> Option<Seq<char>> {
    let d = without_dashes(s);
    if d.len() == n && forall|i: int| 0 <= i < d.len() ==> is_ascii_alnum(#[trigger] d[i]) {
        Some(d.map_values(|c: char| ascii_lower(c)))
    } else {
        None
    }
}

/// The SQL expression that stores an identifier as binary.
pub open spec fn unhex_sql(u: Seq<char>) -> Seq<char> {
    "UNHEX(\""@ + u + "\")"@
}

fn parse_uuid(s: &str, n: usize) -> (r: Option<String>)
    ensures
        match r {
            Some(u) => uuid_of(s@, n as nat) == Some(u@),
            None => uuid_of(s@, n as nat) is None,
        },
{
    let v = crate::text::chars_of(s);
    let mut d: Vec<char> = Vec::new();
    let mut i: usize = 0;
    while i < v.len()
        invariant
            i <= v@.len(),
            v@ == s@,
            d@ == without_dashes(v@.subrange(0, i as int)),
        decreases v@.len() - i,
    {
        assert(v@.subrange(0, i + 1).drop_last() =~= v@.subrange(0, i as int));
        if v[i] != '-' {
            d.push(v[i]);
        }
        i = i + 1;
    }
    assert(v@.subrange(0, v@.len() as int) =~= v@);
    if d.len() != n {
        return None;
    }
    let mut out: Vec<char> = Vec::new();
    let mut j: usize = 0;
    while j < d.len()
        invariant
            j <= d@.len(),
            d@ == without_dashes(s@),
            forall|k: int| 0 <= k < j ==> is_ascii_alnum(#[trigger] d@[k]),
            out@ == d@.subrange(0, j as int).map_values(|c: char| ascii_lower(c)),
        decreases d@.len() - j,
    {
        let c = d[j];
        if !(('0' <= c && c <= '9') || ('a' <= c && c <= 'z') || ('A' <= c && c <= 'Z')) {
            return None;
        }
        out.push(to_ascii_lower(c));
        j = j + 1;
        assert(out@ =~= d@.subrange(0, j as int).map_values(|c: char| ascii_lower(c)));
    }
    assert(d@.subrange(0, d@.len() as int) =~= d@);
    Some(crate::text::string_of(out.as_slice()))
}

/// A reference identifier: 40 characters.
#[derive(Clone, Debug)]
pub struct UUID40 {
    uuid: String,
}

/// A value or statement identifier: 32 characters.
#[derive(Clone, Debug)]
pub struct UUID32 {
    uuid: String,
}

impl View for UUID40 {
    type V = Seq<char>;

    closed spec fn view(&self) -> Seq<char> {
        self.uuid@
    }
}

impl View for UUID32 {
    type V = Seq<char>;

    closed spec fn view(&self) -> Seq<char> {
        self.uuid@
    }
}

impl UUID40 {
    /// The identifier that `s` stands for, if it is one.
    pub fn from_str(s: &str) -> (r: Option<Self>)
        ensures
            match r {
                Some(u) => uuid_of(s@, 40) == Some(u@),
                None => uuid_of(s@, 40) is None,
            },
    {
        match parse_uuid(s, 40) {
            Some(uuid) => Some(UUID40 { uuid }),
            None => None,
        }
    }

    pub fn copy(&self) -> (r: Self)
        ensures
            r@ == self@,
    {
        UUID40 { uuid: self.uuid.clone() }
    }

    /// The identifier, lower-case, without dashes.
    pub fn to_string(&self) -> (r: String)
        ensures
            r@ == self@,
    {
        self.uuid.clone()
    }
}

impl UUID32 {
    /// The identifier that `s` stands for, if it is one.
    pub fn from_str(s: &str) -> (r: Option<Self>)
        ensures
            match r {
                Some(u) => uuid_of(s@, 32) == Some(u@),
                None => uuid_of(s@, 32) is None,
            },
    {
        match parse_uuid(s, 32) {
            Some(uuid) => Some(UUID32 { uuid }),
            None => None,
        }
    }

    pub fn copy(&self) -> (r: Self)
        ensures
            r@ == self@,
    {
        UUID32 { uuid: self.uuid.clone() }
    }

    /// The identifier, lower-case, without dashes.
    pub fn to_string(&self) -> (r: String)
        ensures
            r@ == self@,
    {
        self.uuid.clone()
    }
}

impl ElementType for UUID40 {
    open spec fn type_parts_spec(&self) -> Seq<TypePart> {
        seq![TypePart::UUID40]
    }

    open spec fn values_spec(&self) -> Seq<ValueModel> {
        seq![ValueModel::Expression(unhex_sql(self@))]
    }

    open spec fn name_spec(&self) -> Seq<char> {
        "UUID"@
    }

    fn get_type_parts(&self) -> (r: Vec<TypePart>) {
        vec![TypePart::UUID40]
    }

    fn values(&self) -> (r: Vec<DbOperationCacheValue>) {
        let a = cat("UNHEX(\"", self.uuid.as_str());
        let e = cat(a.as_str(), "\")");
        let r = vec![DbOperationCacheValue::Expression(e)];
        assert(models(r@) =~= self.values_spec());
        r
    }

    fn name(&self) -> (r: &'static str) {
        "UUID"
    }

    proof fn lemma_values_fill_layout(&self) {
        reveal_with_fuel(non_blank_count, 2);
    }
}

impl ElementType for UUID32 {
    open spec fn type_parts_spec(&self) -> Seq<TypePart> {
        seq![TypePart::UUID32]
    }

    open spec fn values_spec(&self) -> Seq<ValueModel> {
        seq![ValueModel::Expression(unhex_sql(self@))]
    }

    open spec fn name_spec(&self) -> Seq<char> {
        "UUID32"@
    }

    fn get_type_parts(&self) -> (r: Vec<TypePart>) {
        vec![TypePart::UUID32]
    }

    fn values(&self) -> (r: Vec<DbOperationCacheValue>) {
        let a = cat("UNHEX(\"", self.uuid.as_str());
        let e = cat(a.as_str(), "\")");
        let r = vec![DbOperationCacheValue::Expression(e)];
        assert(models(r@) =~= self.values_spec());
        r
    }

    fn name(&self) -> (r: &'static str) {
        "UUID32"
    }

    proof fn lemma_values_fill_layout(&self) {
        reveal_with_fuel(non_blank_count, 2);
    }
}

} // verus!
