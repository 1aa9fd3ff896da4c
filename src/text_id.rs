//! Text values that are stored once in the `texts` table and referred to by id.

use vstd::prelude::*;
use crate::db_operation_cache::{DbOperationCacheValue, ValueModel, models};
use crate::element_type::ElementType;
use crate::type_part::{TypePart, non_blank_count};

verus! {

/// What `percent_encoding::percent_decode` followed by `decode_utf8_lossy` makes of a string.
pub uninterp spec fn percent_decoded(s: Seq<char>) -> Seq<char>;

/// Relies on `percent_encoding::percent_decode` and `PercentDecode::decode_utf8_lossy`:
/// `%XX` sequences become bytes, invalid UTF-8 becomes U+FFFD.
#[verifier::external_body]
fn percent_decode_lossy(s: &str) -> (r: String)
    ensures
        r@ == percent_decoded(s@),
{
    percent_encoding::percent_decode(s.as_bytes()).decode_utf8_lossy().to_string()
}

/// The text that a lexical string stands for: percent-decoded where it holds a `%`.
pub open spec fn text_of(s: Seq<char>) -> Seq<char> {
    if s.contains('%') {
        percent_decoded(s)
    } else {
        s
    }
}

/// An interned text value.
#[derive(Clone, Debug)]
pub struct TextId {
    s: String,
}

impl View for TextId {
    type V = Seq<char>;

    closed spec fn view(&self) -> Seq<char> {
        self.s@
    }
}

impl TextId {
    /// The text that `s` stands for.
    pub fn from_str_lossy(s: &str) -> (r: Self)
        ensures
            r@ == text_of(s@),
    {
        let v = crate::text::chars_of(s);
        match crate::text::find_char(&v, '%', 0) {
            Some(_) => TextId { s: percent_decode_lossy(s) },
            None => {
                assert(!s@.contains('%'));
                TextId { s: s.to_string() }
            },
        }
    }

    /// A text value holding exactly `s`, with no decoding.
    pub fn verbatim(s: &str) -> (r: Self)
        ensures
            r@ == s@,
    {
        TextId { s: s.to_string() }
    }

    pub fn copy(&self) -> (r: Self)
        ensures
            r@ == self@,
    {
        TextId { s: self.s.clone() }
    }

    /// The text itself.
    pub fn to_string(&self) -> (r: String)
        ensures
            r@ == self@,
    {
        self.s.clone()
    }

    pub fn as_str(&self) -> (r: &str)
        ensures
            r@ == self@,
    {
        self.s.as_str()
    }
}

impl ElementType for TextId {
    open spec fn type_parts_spec(&self) -> Seq<TypePart> {
        seq![TypePart::Int]
    }

    open spec fn values_spec(&self) -> Seq<ValueModel> {
        seq![ValueModel::Text(self@)]
    }

    open spec fn name_spec(&self) -> Seq<char> {
        "TextId"@
    }

    fn get_type_parts(&self) -> (r: Vec<TypePart>) {
        vec![TypePart::Int]
    }

    fn values(&self) -> (r: Vec<DbOperationCacheValue>) {
        let r = vec![DbOperationCacheValue::Text(self.s.clone())];
        assert(models(r@) =~= self.values_spec());
        r
    }

    fn name(&self) -> (r: &'static str) {
        "TextId"
    }

    proof fn lemma_values_fill_layout(&self) {
        reveal_with_fuel(non_blank_count, 2);
    }
}

} // verus!
