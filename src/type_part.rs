//! Column types of the derived schema.

use vstd::prelude::*;

verus! {

/// The type of one column slot; `Blank` keeps a slot index without a column.
#[derive(Clone, Copy, Debug, PartialEq, Eq, Structural)]
pub enum TypePart {
    Text,
    ShortText,
    Int,
    Float,
    Point,
    UUID40,
    UUID32,
    I16,
    I32,
    U8,
    U16,
    U32,
    Blank,
}

/// The DDL fragment of a column of type `t`, or `None` for a blank slot.
pub open spec fn column_sql(t: TypePart) -> Option<Seq<char>> {
    match t {
        TypePart::Text => Some("VARCHAR(255) CHARACTER SET utf8 COLLATE utf8_unicode_ci NOT NULL"@),
        TypePart::ShortText => Some("VARCHAR(64) CHARACTER SET ascii COLLATE ascii_general_ci NOT NULL"@),
        TypePart::Int => Some("INT(11) UNSIGNED NOT NULL"@),
        TypePart::Float => Some("DOUBLE(11,4) UNSIGNED NOT NULL"@),
        TypePart::Point => Some("POINT NOT NULL"@),
        TypePart::UUID40 => Some("BINARY(20)"@),
        TypePart::UUID32 => Some("BINARY(16)"@),
        TypePart::I16 => Some("SMALLINT(6) SIGNED NOT NULL"@),
        TypePart::I32 => Some("INT(6) SIGNED NOT NULL"@),
        TypePart::U8 => Some("TINYINT(3) UNSIGNED NOT NULL"@),
        TypePart::U16 => Some("SMALLINT(6) UNSIGNED NOT NULL"@),
        TypePart::U32 => Some("INT(11) UNSIGNED NOT NULL"@),
        TypePart::Blank => None,
    }
}

/// The number of slots of `s` that hold a column.
pub open spec fn non_blank_count(s: Seq<TypePart>) -> nat
    decreases s.len(),
{
    if s.len() == 0 {
        0
    } else {
        non_blank_count(s.drop_last()) + if s.last() is Blank { 0nat } else { 1nat }
    }
}

impl TypePart {
    /// The DDL fragment of a column of this type, or `None` for a blank slot.
    pub fn create_sql(&self) -> (r: Option<&'static str>)
        ensures
            match r {
                Some(s) => column_sql(*self) == Some(s@),
                None => column_sql(*self) is None,
            },
    {
        match self {
            TypePart::Text => Some("VARCHAR(255) CHARACTER SET utf8 COLLATE utf8_unicode_ci NOT NULL"),
            TypePart::ShortText => Some("VARCHAR(64) CHARACTER SET ascii COLLATE ascii_general_ci NOT NULL"),
            TypePart::Int => Some("INT(11) UNSIGNED NOT NULL"),
            TypePart::Float => Some("DOUBLE(11,4) UNSIGNED NOT NULL"),
            TypePart::Point => Some("POINT NOT NULL"),
            TypePart::UUID40 => Some("BINARY(20)"),
            TypePart::UUID32 => Some("BINARY(16)"),
            TypePart::I16 => Some("SMALLINT(6) SIGNED NOT NULL"),
            TypePart::I32 => Some("INT(6) SIGNED NOT NULL"),
            TypePart::U8 => Some("TINYINT(3) UNSIGNED NOT NULL"),
            TypePart::U16 => Some("SMALLINT(6) UNSIGNED NOT NULL"),
            TypePart::U32 => Some("INT(11) UNSIGNED NOT NULL"),
            TypePart::Blank => None,
        }
    }

    /// Whether this slot holds no column.
    pub fn is_blank(&self) -> (r: bool)
        ensures
            r == (*self is Blank),
    {
        match self {
            TypePart::Blank => true,
            _ => false,
        }
    }
}

} // verus!
