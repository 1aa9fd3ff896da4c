//! Wikidata entities: items, properties, media, lexemes, forms and senses.
//!
//! Keys are read with ASCII decimal digits; a number too large for its field reads
//! as zero, and a key of no known form is kept as an unknown entity.

use vstd::prelude::*;
use crate::db_operation_cache::{DbOperationCacheValue, ValueModel, models};
use crate::element_type::ElementType;
use crate::text::{
    all_digits, cat, decimal, digits_only, digits_value, first_index, index_of, lit, read_digits,
    u64_decimal,
};
use crate::type_part::{TypePart, non_blank_count};

verus! {

#[derive(Clone, Debug)]
pub enum Entity {
    Item(u32),
    Property(u16),
    Media(u32),
    Lexeme(u32),
    LexemeForm(u32, u8),
    LexemeSense(u32, u8),
    Unknown(String),
}

/// What an entity stands for.
pub enum EntityModel {
    Item(int),
    Property(int),
    Media(int),
    Lexeme(int),
    LexemeForm(int, int),
    LexemeSense(int, int),
    Unknown(Seq<char>),
}

impl View for Entity {
    type V = EntityModel;

    open spec fn view(&self) -> EntityModel {
        match self {
            Entity::Item(q) => EntityModel::Item(*q as int),
            Entity::Property(p) => EntityModel::Property(*p as int),
            Entity::Media(m) => EntityModel::Media(*m as int),
            Entity::Lexeme(l) => EntityModel::Lexeme(*l as int),
            Entity::LexemeForm(l, f) => EntityModel::LexemeForm(*l as int, *f as int),
            Entity::LexemeSense(l, s) => EntityModel::LexemeSense(*l as int, *s as int),
            Entity::Unknown(u) => EntityModel::Unknown(u@),
        }
    }
}

pub open spec fn is_letter(c: char, lower: char, upper: char) -> bool {
    c == lower || c == upper
}

/// `s` is the letter followed by one or more digits.
pub open spec fn numbered(s: Seq<char>, lower: char, upper: char) -> bool {
    s.len() >= 2 && is_letter(s[0], lower, upper) && all_digits(s.subrange(1, s.len() as int))
}

/// A number that does not fit in `max` reads as zero.
pub open spec fn capped(n: nat, max: nat) -> int {
    if n <= max { n as int } else { 0 }
}

/// The number after the letter of a `numbered` key.
pub open spec fn key_number(s: Seq<char>, max: nat) -> int {
    capped(digits_value(s.subrange(1, s.len() as int)), max)
}

/// `s` is `L<digits>-<letter><digits>`.
pub open spec fn lexeme_part(s: Seq<char>, lower: char, upper: char) -> bool {
    let k = first_index(s, '-');
    &&& k > 1
    &&& k + 2 < s.len()
    &&& is_letter(s[0], 'l', 'L')
    &&& all_digits(s.subrange(1, k))
    &&& is_letter(s[k + 1], lower, upper)
    &&& all_digits(s.subrange(k + 2, s.len() as int))
}

/// The lexeme number and the sub-number of a `lexeme_part` key.
pub open spec fn lexeme_numbers(s: Seq<char>) -> (int, int) {
    let k = first_index(s, '-');
    (
        capped(digits_value(s.subrange(1, k)), u32::MAX as nat),
        capped(digits_value(s.subrange(k + 2, s.len() as int)), u8::MAX as nat),
    )
}

/// The entity that a key such as `Q42`, `P31` or `L7-F2` stands for.
pub open spec fn entity_of(s: Seq<char>) -> EntityModel {
    if numbered(s, 'q', 'Q') {
        EntityModel::Item(key_number(s, u32::MAX as nat))
    } else if numbered(s, 'p', 'P') {
        EntityModel::Property(key_number(s, u16::MAX as nat))
    } else if numbered(s, 'm', 'M') {
        EntityModel::Media(key_number(s, u32::MAX as nat))
    } else if numbered(s, 'l', 'L') {
        EntityModel::Lexeme(key_number(s, u32::MAX as nat))
    } else if lexeme_part(s, 'f', 'F') {
        EntityModel::LexemeForm(lexeme_numbers(s).0, lexeme_numbers(s).1)
    } else if lexeme_part(s, 's', 'S') {
        EntityModel::LexemeSense(lexeme_numbers(s).0, lexeme_numbers(s).1)
    } else {
        EntityModel::Unknown(s)
    }
}

/// The key of an entity, such as `Q42`.
pub open spec fn entity_key(e: EntityModel) -> Seq<char> {
    match e {
        EntityModel::Item(q) => "Q"@ + decimal(q as nat),
        EntityModel::Property(p) => "P"@ + decimal(p as nat),
        EntityModel::Media(m) => "M"@ + decimal(m as nat),
        EntityModel::Lexeme(l) => "L"@ + decimal(l as nat),
        EntityModel::LexemeForm(l, f) => "L"@ + decimal(l as nat) + "-F"@ + decimal(f as nat),
        EntityModel::LexemeSense(l, s) => "L"@ + decimal(l as nat) + "-S"@ + decimal(s as nat),
        EntityModel::Unknown(u) => u,
    }
}

/// The kind name of an entity.
pub open spec fn entity_name(e: EntityModel) -> Seq<char> {
    match e {
        EntityModel::Item(_) => "EntityItem"@,
        EntityModel::Property(_) => "EntityProp"@,
        EntityModel::Media(_) => "EntityMedia"@,
        EntityModel::Lexeme(_) => "EntityLexeme"@,
        EntityModel::LexemeForm(_, _) => "EntityLexemeF"@,
        EntityModel::LexemeSense(_, _) => "EntityLexemeS"@,
        EntityModel::Unknown(_) => "EntityUnknown"@,
    }
}

/// The part of a table name that an entity contributes.
pub open spec fn entity_table_name(e: EntityModel) -> Seq<char> {
    match e {
        EntityModel::Property(p) => "P"@ + decimal(p as nat),
        _ => entity_name(e),
    }
}

/// The IRI of an entity.
pub open spec fn entity_url(e: EntityModel) -> Seq<char> {
    match e {
        EntityModel::Media(_) => "http://commons.wikimedia.org/entity/"@ + entity_key(e),
        EntityModel::Unknown(u) => u,
        _ => "http://www.wikidata.org/entity/"@ + entity_key(e),
    }
}

pub open spec fn entity_parts(e: EntityModel) -> Seq<TypePart> {
    match e {
        EntityModel::Unknown(_) => seq![TypePart::ShortText],
        EntityModel::Property(_) => seq![TypePart::U16],
        EntityModel::LexemeForm(_, _) => seq![TypePart::U32, TypePart::U8],
        EntityModel::LexemeSense(_, _) => seq![TypePart::U32, TypePart::U8],
        _ => seq![TypePart::U32],
    }
}

pub open spec fn entity_values(e: EntityModel) -> Seq<ValueModel> {
    match e {
        EntityModel::Item(n) => seq![ValueModel::Number(n)],
        EntityModel::Property(n) => seq![ValueModel::Number(n)],
        EntityModel::Media(n) => seq![ValueModel::Number(n)],
        EntityModel::Lexeme(n) => seq![ValueModel::Number(n)],
        EntityModel::LexemeForm(l, f) => seq![ValueModel::Number(l), ValueModel::Number(f)],
        EntityModel::LexemeSense(l, s) => seq![ValueModel::Number(l), ValueModel::Number(s)],
        EntityModel::Unknown(u) => seq![ValueModel::Quoted(u)],
    }
}

/// Whether `v` is the letter followed by one or more digits.
fn is_numbered(v: &Vec<char>, lower: char, upper: char) -> (r: bool)
    ensures
        r == numbered(v@, lower, upper),
{
    v.len() >= 2 && (v[0] == lower || v[0] == upper) && digits_only(v, 1, v.len())
}

fn number_or_zero(v: &Vec<char>, from: usize, to: usize, max: u64) -> (r: u64)
    requires
        from <= to <= v@.len(),
        all_digits(v@.subrange(from as int, to as int)),
    ensures
        r as int == capped(digits_value(v@.subrange(from as int, to as int)), max as nat),
        r <= max,
{
    match read_digits(v, from, to, max) {
        Some(n) => n,
        None => 0,
    }
}

/// The dash position of `v` if it is `L<digits>-<letter><digits>`.
fn lexeme_dash(v: &Vec<char>, lower: char, upper: char) -> (r: Option<usize>)
    ensures
        match r {
            Some(k) => lexeme_part(v@, lower, upper) && k as int == first_index(v@, '-'),
            None => !lexeme_part(v@, lower, upper),
        },
{
    match index_of(v, '-') {
        Some(k) => {
            if k > 1 && v.len() - k > 2 && (v[0] == 'l' || v[0] == 'L') && digits_only(v, 1, k)
                && (v[k + 1] == lower || v[k + 1] == upper) && digits_only(v, k + 2, v.len()) {
                Some(k)
            } else {
                None
            }
        },
        None => None,
    }
}

impl Entity {
    /// The entity that a key such as `Q42` stands for; other keys give `Unknown`.
    pub fn from_str(s: &str) -> (r: Entity)
        ensures
            r@ == entity_of(s@),
    {
        let v = crate::text::chars_of(s);
        let n = v.len();
        if is_numbered(&v, 'q', 'Q') {
            Entity::Item(number_or_zero(&v, 1, n, u32::MAX as u64) as u32)
        } else if is_numbered(&v, 'p', 'P') {
            Entity::Property(number_or_zero(&v, 1, n, u16::MAX as u64) as u16)
        } else if is_numbered(&v, 'm', 'M') {
            Entity::Media(number_or_zero(&v, 1, n, u32::MAX as u64) as u32)
        } else if is_numbered(&v, 'l', 'L') {
            Entity::Lexeme(number_or_zero(&v, 1, n, u32::MAX as u64) as u32)
        } else if let Some(k) = lexeme_dash(&v, 'f', 'F') {
            let l = number_or_zero(&v, 1, k, u32::MAX as u64) as u32;
            let f = number_or_zero(&v, k + 2, n, u8::MAX as u64) as u8;
            Entity::LexemeForm(l, f)
        } else if let Some(k) = lexeme_dash(&v, 's', 'S') {
            let l = number_or_zero(&v, 1, k, u32::MAX as u64) as u32;
            let f = number_or_zero(&v, k + 2, n, u8::MAX as u64) as u8;
            Entity::LexemeSense(l, f)
        } else {
            Entity::Unknown(s.to_string())
        }
    }

    pub fn copy(&self) -> (r: Self)
        ensures
            r@ == self@,
    {
        match self {
            Entity::Item(q) => Entity::Item(*q),
            Entity::Property(p) => Entity::Property(*p),
            Entity::Media(m) => Entity::Media(*m),
            Entity::Lexeme(l) => Entity::Lexeme(*l),
            Entity::LexemeForm(l, f) => Entity::LexemeForm(*l, *f),
            Entity::LexemeSense(l, s) => Entity::LexemeSense(*l, *s),
            Entity::Unknown(u) => Entity::Unknown(u.clone()),
        }
    }

    /// The key of this entity, such as `Q42`.
    pub fn to_string(&self) -> (r: String)
        ensures
            r@ == entity_key(self@),
    {
        match self {
            Entity::Item(q) => cat("Q", u64_decimal(*q as u64).as_str()),
            Entity::Property(p) => cat("P", u64_decimal(*p as u64).as_str()),
            Entity::Media(m) => cat("M", u64_decimal(*m as u64).as_str()),
            Entity::Lexeme(l) => cat("L", u64_decimal(*l as u64).as_str()),
            Entity::LexemeForm(l, f) => {
                let a = cat("L", u64_decimal(*l as u64).as_str());
                let b = cat(a.as_str(), "-F");
                cat(b.as_str(), u64_decimal(*f as u64).as_str())
            },
            Entity::LexemeSense(l, s) => {
                let a = cat("L", u64_decimal(*l as u64).as_str());
                let b = cat(a.as_str(), "-S");
                cat(b.as_str(), u64_decimal(*s as u64).as_str())
            },
            Entity::Unknown(u) => u.clone(),
        }
    }

    /// The part of a table name that this entity contributes.
    pub fn table_name(&self) -> (r: String)
        ensures
            r@ == entity_table_name(self@),
    {
        match self {
            Entity::Property(p) => cat("P", u64_decimal(*p as u64).as_str()),
            _ => lit(self.name()),
        }
    }

    /// The IRI of this entity.
    pub fn to_url(&self) -> (r: String)
        ensures
            r@ == entity_url(self@),
    {
        match self {
            Entity::Media(_) => cat("http://commons.wikimedia.org/entity/", self.to_string().as_str()),
            Entity::Unknown(u) => u.clone(),
            _ => cat("http://www.wikidata.org/entity/", self.to_string().as_str()),
        }
    }
}

impl ElementType for Entity {
    open spec fn type_parts_spec(&self) -> Seq<TypePart> {
        entity_parts(self@)
    }

    open spec fn values_spec(&self) -> Seq<ValueModel> {
        entity_values(self@)
    }

    open spec fn name_spec(&self) -> Seq<char> {
        entity_name(self@)
    }

    fn get_type_parts(&self) -> (r: Vec<TypePart>) {
        match self {
            Entity::Unknown(_) => vec![TypePart::ShortText],
            Entity::Property(_) => vec![TypePart::U16],
            Entity::LexemeForm(..) => vec![TypePart::U32, TypePart::U8],
            Entity::LexemeSense(..) => vec![TypePart::U32, TypePart::U8],
            _ => vec![TypePart::U32],
        }
    }

    fn values(&self) -> (r: Vec<DbOperationCacheValue>) {
        let r = match self {
            Entity::Item(q) => vec![DbOperationCacheValue::U32(*q)],
            Entity::Property(p) => vec![DbOperationCacheValue::U16(*p)],
            Entity::Media(m) => vec![DbOperationCacheValue::U32(*m)],
            Entity::Lexeme(l) => vec![DbOperationCacheValue::U32(*l)],
            Entity::LexemeForm(l, f) => vec![DbOperationCacheValue::U32(*l), DbOperationCacheValue::U8(*f)],
            Entity::LexemeSense(l, s) => vec![DbOperationCacheValue::U32(*l), DbOperationCacheValue::U8(*s)],
            Entity::Unknown(u) => vec![DbOperationCacheValue::Quoted(u.clone())],
        };
        assert(models(r@) =~= self.values_spec());
        r
    }

    fn name(&self) -> (r: &'static str) {
        match self {
            Entity::Item(_) => "EntityItem",
            Entity::Property(_) => "EntityProp",
            Entity::Media(_) => "EntityMedia",
            Entity::Lexeme(_) => "EntityLexeme",
            Entity::LexemeForm(..) => "EntityLexemeF",
            Entity::LexemeSense(..) => "EntityLexemeS",
            Entity::Unknown(_) => "EntityUnknown",
        }
    }

    proof fn lemma_values_fill_layout(&self) {
        reveal_with_fuel(non_blank_count, 3);
    }
}

/// The number that a stored column text holds, if it is digits with a value at most `max`.
pub open spec fn number_text(s: Seq<char>, max: nat) -> Option<int> {
    if s.len() > 0 && all_digits(s) && digits_value(s) <= max { Some(digits_value(s) as int) } else { None }
}

/// The entity of kind `name` that stored column texts hold.
pub open spec fn entity_from_columns(name: Seq<char>, v: Seq<Seq<char>>) -> Option<EntityModel> {
    if v.len() == 0 {
        None
    } else if name == "EntityItem"@ {
        match number_text(v[0], u32::MAX as nat) { Some(n) => Some(EntityModel::Item(n)), None => None }
    } else if name == "EntityProp"@ {
        match number_text(v[0], u16::MAX as nat) { Some(n) => Some(EntityModel::Property(n)), None => None }
    } else if name == "EntityMedia"@ {
        match number_text(v[0], u32::MAX as nat) { Some(n) => Some(EntityModel::Media(n)), None => None }
    } else if name == "EntityLexeme"@ {
        match number_text(v[0], u32::MAX as nat) { Some(n) => Some(EntityModel::Lexeme(n)), None => None }
    } else if name == "EntityLexemeF"@ && v.len() >= 2 {
        match (number_text(v[0], u32::MAX as nat), number_text(v[1], u8::MAX as nat)) {
            (Some(l), Some(f)) => Some(EntityModel::LexemeForm(l, f)),
            _ => None,
        }
    } else if name == "EntityLexemeS"@ && v.len() >= 2 {
        match (number_text(v[0], u32::MAX as nat), number_text(v[1], u8::MAX as nat)) {
            (Some(l), Some(f)) => Some(EntityModel::LexemeSense(l, f)),
            _ => None,
        }
    } else if name == "EntityUnknown"@ {
        Some(EntityModel::Unknown(v[0]))
    } else {
        None
    }
}

fn number_from(s: &str, max: u64) -> (r: Option<u64>)
    ensures
        match r {
            Some(n) => number_text(s@, max as nat) == Some(n as int) && n <= max,
            None => number_text(s@, max as nat) is None,
        },
{
    let v = crate::text::chars_of(s);
    let n = v.len();
    if n == 0 || !digits_only(&v, 0, n) {
        return None;
    }
    assert(v@.subrange(0, n as int) =~= v@);
    read_digits(&v, 0, n, max)
}

impl Entity {
    /// The entity of kind `name` that stored column texts hold; `None` for another
    /// kind, or where the texts are no valid numbers.
    pub fn from_sql_values(name: &str, value: &Vec<String>) -> (r: Option<Entity>)
        ensures
            match r {
                Some(e) => entity_from_columns(name@, crate::database_table::views(value@)) == Some(e@),
                None => entity_from_columns(name@, crate::database_table::views(value@)) is None,
            },
    {
        let ghost v = crate::database_table::views(value@);
        if value.len() == 0 {
            return None;
        }
        assert(v[0] == value@[0]@);
        let first = value[0].as_str();
        if crate::text::str_eq(name, "EntityItem") {
            match number_from(first, u32::MAX as u64) { Some(n) => Some(Entity::Item(n as u32)), None => None }
        } else if crate::text::str_eq(name, "EntityProp") {
            match number_from(first, u16::MAX as u64) { Some(n) => Some(Entity::Property(n as u16)), None => None }
        } else if crate::text::str_eq(name, "EntityMedia") {
            match number_from(first, u32::MAX as u64) { Some(n) => Some(Entity::Media(n as u32)), None => None }
        } else if crate::text::str_eq(name, "EntityLexeme") {
            match number_from(first, u32::MAX as u64) { Some(n) => Some(Entity::Lexeme(n as u32)), None => None }
        } else if crate::text::str_eq(name, "EntityLexemeF") && value.len() >= 2 {
            assert(v[1] == value@[1]@);
            match (number_from(first, u32::MAX as u64), number_from(value[1].as_str(), u8::MAX as u64)) {
                (Some(l), Some(f)) => Some(Entity::LexemeForm(l as u32, f as u8)),
                _ => None,
            }
        } else if crate::text::str_eq(name, "EntityLexemeS") && value.len() >= 2 {
            assert(v[1] == value@[1]@);
            match (number_from(first, u32::MAX as u64), number_from(value[1].as_str(), u8::MAX as u64)) {
                (Some(l), Some(f)) => Some(Entity::LexemeSense(l as u32, f as u8)),
                _ => None,
            }
        } else if crate::text::str_eq(name, "EntityUnknown") {
            Some(Entity::Unknown(value[0].clone()))
        } else {
            None
        }
    }
}

} // verus!
