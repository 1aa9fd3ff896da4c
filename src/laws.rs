//! Properties that relate several functions of the library, stated and proved over
//! the models that the functions' contracts use.

use vstd::prelude::*;
use crate::date_time::{pad2, year_digits, year_value};
use crate::database_table::{TableModel, table_name_of, table_of};
use crate::element::{ElementModel, Fixed, Keyed, key_suffix, kind_name, layout, layout_of_kind, stored_values, table_fragment};
use crate::element_parse::{fixed_of, fixed_root, keyed_root, parse_model, split_root};
use crate::entity::{EntityModel, entity_key, entity_of, entity_parts, lexeme_part, numbered};
use crate::query_triples::{PatternModel, conditions, group_key, key_index, planned, table_fits, table_select};
use crate::text::{all_digits, decimal, digit_char, digit_value, digits_value, first_at, first_index,
    is_digit, last_at, lemma_first_index, lemma_last_index};
use crate::type_part::{TypePart, non_blank_count};

verus! {

/// Every term stores exactly one value for each non-blank slot of its column layout.
pub proof fn lemma_layout_and_values_agree(e: ElementModel)
    ensures
        stored_values(e).len() == non_blank_count(layout(e)),
{
    reveal_with_fuel(non_blank_count, 7);
    match e {
        ElementModel::EntityStatement(x) => {
            let p = entity_parts(x.entity).push(TypePart::UUID32);
            assert(p.drop_last() =~= entity_parts(x.entity));
        },
        _ => {},
    }
}

proof fn lemma_digit(d: nat)
    requires
        d < 10,
    ensures
        is_digit(digit_char(d as int)),
        digit_value(digit_char(d as int)) == d,
        digit_char(d as int) != '/',
        digit_char(d as int) != '-',
{
    if d == 0 {} else if d == 1 {} else if d == 2 {} else if d == 3 {} else if d == 4 {}
    else if d == 5 {} else if d == 6 {} else if d == 7 {} else if d == 8 {} else {}
}

proof fn lemma_decimal(n: nat)
    ensures
        decimal(n).len() >= 1,
        all_digits(decimal(n)),
        digits_value(decimal(n)) == n,
    decreases n,
{
    let s = decimal(n);
    if n < 10 {
        lemma_digit(n);
        assert(s.drop_last() =~= Seq::<char>::empty());
        assert(s.last() == digit_char(n as int));
        assert(digits_value(Seq::<char>::empty()) == 0);
        assert(digits_value(s) == digits_value(s.drop_last()) * 10 + digit_value(s.last()));
    } else {
        lemma_decimal(n / 10);
        lemma_digit(n % 10);
        assert(s.drop_last() =~= decimal(n / 10));
        assert(s.last() == digit_char((n % 10) as int));
        assert(n == (n / 10) * 10 + n % 10) by (nonlinear_arith);
        assert forall|i: int| 0 <= i < s.len() implies is_digit(#[trigger] s[i]) by {
            if i < s.len() - 1 {
                assert(s[i] == decimal(n / 10)[i]);
            }
        }
    }
}

/// The entities whose key reads back as the same entity.
pub open spec fn key_round_trips(x: EntityModel) -> bool {
    match x {
        EntityModel::Item(q) => 0 <= q <= u32::MAX,
        EntityModel::Property(p) => 0 <= p <= u16::MAX,
        EntityModel::Lexeme(l) => 0 <= l <= u32::MAX,
        EntityModel::LexemeForm(l, f) => 0 <= l <= u32::MAX && 0 <= f <= u8::MAX,
        EntityModel::LexemeSense(l, f) => 0 <= l <= u32::MAX && 0 <= f <= u8::MAX,
        _ => false,
    }
}

proof fn lemma_letter_number(c: char, n: nat)
    ensures
        (seq![c] + decimal(n))[0] == c,
        (seq![c] + decimal(n)).subrange(1, (seq![c] + decimal(n)).len() as int) == decimal(n),
        (seq![c] + decimal(n)).len() >= 2,
        all_digits(decimal(n)),
        digits_value(decimal(n)) == n,
{
    lemma_decimal(n);
    assert((seq![c] + decimal(n)).subrange(1, (seq![c] + decimal(n)).len() as int) =~= decimal(n));
}

proof fn lemma_lexeme_key(l: nat, c: char, f: nat)
    ensures ({
        let s = seq!['L'] + decimal(l) + seq!['-', c] + decimal(f);
        let k: int = decimal(l).len() as int + 1;
        &&& first_index(s, '-') == k
        &&& s[0] == 'L'
        &&& s.subrange(1, k) == decimal(l)
        &&& s[k + 1] == c
        &&& s.subrange(k + 2, s.len() as int) == decimal(f)
        &&& k + 2 < s.len()
        &&& !all_digits(s.subrange(1, s.len() as int))
    }),
{
    lemma_decimal(l);
    lemma_decimal(f);
    let s = seq!['L'] + decimal(l) + seq!['-', c] + decimal(f);
    let k: int = decimal(l).len() as int + 1;
    assert(s[k] == '-');
    assert forall|j: int| 0 <= j < k implies s[j] != '-' by {
        if j > 0 {
            assert(s[j] == decimal(l)[j - 1]);
            assert(is_digit(decimal(l)[j - 1]));
        }
    }
    assert(first_at(s, '-', 0, k as int));
    lemma_first_index(s, '-', k as int);
    assert(s.subrange(1, k as int) =~= decimal(l));
    assert(s.subrange(k + 2, s.len() as int) =~= decimal(f));
    assert(!is_digit(s.subrange(1, s.len() as int)[k - 1]));
}

/// The key of an entity, written with upper-case letters.
pub open spec fn written_key(x: EntityModel) -> Seq<char> {
    match x {
        EntityModel::Item(q) => seq!['Q'] + decimal(q as nat),
        EntityModel::Property(p) => seq!['P'] + decimal(p as nat),
        EntityModel::Lexeme(l) => seq!['L'] + decimal(l as nat),
        EntityModel::LexemeForm(l, f) => seq!['L'] + decimal(l as nat) + seq!['-', 'F'] + decimal(f as nat),
        EntityModel::LexemeSense(l, f) => seq!['L'] + decimal(l as nat) + seq!['-', 'S'] + decimal(f as nat),
        _ => Seq::empty(),
    }
}

/// The key of an item, property, lexeme, form or sense reads back as the same entity.
pub proof fn lemma_entity_key_round_trip(x: EntityModel)
    requires
        key_round_trips(x),
    ensures
        entity_of(entity_key(x)) == x,
{
    reveal_strlit("Q");
    reveal_strlit("P");
    reveal_strlit("L");
    reveal_strlit("-F");
    reveal_strlit("-S");
    assert(entity_key(x) =~= written_key(x));
    match x {
        EntityModel::Item(q) => {
            lemma_letter_number('Q', q as nat);
            let s = written_key(x);
            assert(numbered(s, 'q', 'Q'));
            assert(crate::entity::key_number(s, u32::MAX as nat) == q);
        },
        EntityModel::Property(p) => {
            lemma_letter_number('P', p as nat);
            let s = written_key(x);
            assert(!numbered(s, 'q', 'Q'));
            assert(numbered(s, 'p', 'P'));
            assert(crate::entity::key_number(s, u16::MAX as nat) == p);
        },
        EntityModel::Lexeme(l) => {
            lemma_letter_number('L', l as nat);
            let s = written_key(x);
            assert(!numbered(s, 'q', 'Q'));
            assert(!numbered(s, 'p', 'P'));
            assert(!numbered(s, 'm', 'M'));
            assert(numbered(s, 'l', 'L'));
            assert(crate::entity::key_number(s, u32::MAX as nat) == l);
        },
        EntityModel::LexemeForm(l, f) => {
            lemma_lexeme_key(l as nat, 'F', f as nat);
            lemma_decimal(l as nat);
            lemma_decimal(f as nat);
            let s = written_key(x);
            assert(!numbered(s, 'q', 'Q'));
            assert(!numbered(s, 'p', 'P'));
            assert(!numbered(s, 'm', 'M'));
            assert(!numbered(s, 'l', 'L'));
            assert(lexeme_part(s, 'f', 'F'));
            assert(crate::entity::lexeme_numbers(s) == (l, f));
        },
        EntityModel::LexemeSense(l, f) => {
            lemma_lexeme_key(l as nat, 'S', f as nat);
            lemma_decimal(l as nat);
            lemma_decimal(f as nat);
            let s = written_key(x);
            assert(!numbered(s, 'q', 'Q'));
            assert(!numbered(s, 'p', 'P'));
            assert(!numbered(s, 'm', 'M'));
            assert(!numbered(s, 'l', 'L'));
            assert(!lexeme_part(s, 'f', 'F'));
            assert(lexeme_part(s, 's', 'S'));
            assert(crate::entity::lexeme_numbers(s) == (l, f));
        },
        _ => {},
    }
}

proof fn lemma_split(root: Seq<char>, key: Seq<char>)
    requires
        !key.contains('/'),
    ensures
        split_root(root + "/"@ + key) == (root, key),
{
    reveal_strlit("/");
    let s = root + "/"@ + key;
    let k = root.len() as int;
    assert(s[k] == '/');
    assert forall|j: int| k < j < s.len() implies s[j] != '/' by {
        assert(s[j] == key[j - k - 1]);
    }
    assert(last_at(s, '/', k));
    lemma_last_index(s, '/', k);
    assert(s.subrange(0, k) =~= root);
    assert(s.subrange(k + 1, s.len() as int) =~= key);
}

/// The IRI of an item, property, lexeme, form or sense reads back as the same entity.
pub proof fn lemma_entity_iri_round_trip(x: EntityModel)
    requires
        key_round_trips(x),
    ensures
        parse_model("http://www.wikidata.org/entity"@ + "/"@ + entity_key(x)) == ElementModel::Entity(x),
{
    lemma_entity_key_round_trip(x);
    lemma_key_has_no_slash(x);
    lemma_split("http://www.wikidata.org/entity"@, entity_key(x));
}

/// The property IRI of an item, property, lexeme, form or sense reads back as the
/// property term of the same entity.
pub proof fn lemma_property_iri_round_trip(x: EntityModel)
    requires
        key_round_trips(x),
    ensures
        parse_model("http://www.wikidata.org/prop"@ + "/"@ + entity_key(x)) == ElementModel::Property(x),
{
    lemma_entity_key_round_trip(x);
    lemma_key_has_no_slash(x);
    lemma_split("http://www.wikidata.org/prop"@, entity_key(x));
    reveal_strlit("http://www.wikidata.org/entity");
    reveal_strlit("http://www.wikidata.org/entity/statement");
    reveal_strlit("http://www.wikidata.org/prop");
    assert("http://www.wikidata.org/prop"@ != "http://www.wikidata.org/entity"@);
    assert("http://www.wikidata.org/prop"@ != "http://www.wikidata.org/entity/statement"@);
}

proof fn lemma_key_has_no_slash(x: EntityModel)
    requires
        key_round_trips(x),
    ensures
        !entity_key(x).contains('/'),
{
    reveal_strlit("Q");
    reveal_strlit("P");
    reveal_strlit("L");
    reveal_strlit("-F");
    reveal_strlit("-S");
    assert(entity_key(x) =~= written_key(x));
    let s = written_key(x);
    match x {
        EntityModel::Item(q) => lemma_decimal(q as nat),
        EntityModel::Property(p) => lemma_decimal(p as nat),
        EntityModel::Lexeme(l) => lemma_decimal(l as nat),
        EntityModel::LexemeForm(l, f) => {
            lemma_decimal(l as nat);
            lemma_decimal(f as nat);
        },
        EntityModel::LexemeSense(l, f) => {
            lemma_decimal(l as nat);
            lemma_decimal(f as nat);
        },
        _ => {},
    }
    assert forall|j: int| 0 <= j < s.len() implies s[j] != '/' by {
        match x {
            EntityModel::Item(q) => { if j > 0 { assert(is_digit(decimal(q as nat)[j - 1])); } },
            EntityModel::Property(p) => { if j > 0 { assert(is_digit(decimal(p as nat)[j - 1])); } },
            EntityModel::Lexeme(l) => { if j > 0 { assert(is_digit(decimal(l as nat)[j - 1])); } },
            EntityModel::LexemeForm(l, f) => {
                let a = decimal(l as nat).len() as int;
                if 0 < j <= a { assert(is_digit(decimal(l as nat)[j - 1])); }
                if j > a + 2 { assert(is_digit(decimal(f as nat)[j - a - 3])); }
            },
            EntityModel::LexemeSense(l, f) => {
                let a = decimal(l as nat).len() as int;
                if 0 < j <= a { assert(is_digit(decimal(l as nat)[j - 1])); }
                if j > a + 2 { assert(is_digit(decimal(f as nat)[j - a - 3])); }
            },
            _ => {},
        }
    }
}

/// The IRI root of each property role.
pub open spec fn role_root(k: Keyed) -> Seq<char> {
    match k {
        Keyed::PropertyDirect => "http://www.wikidata.org/prop/direct"@,
        Keyed::PropertyDirectNormalized => "http://www.wikidata.org/prop/direct-normalized"@,
        Keyed::PropertyStatement => "http://www.wikidata.org/prop/statement"@,
        Keyed::PropertyStatementValue => "http://www.wikidata.org/prop/statement/value"@,
        Keyed::PropertyStatementValueNormalized => "http://www.wikidata.org/prop/statement/value-normalized"@,
        Keyed::PropertyReference => "http://www.wikidata.org/prop/reference"@,
        Keyed::PropertyReferenceValue => "http://www.wikidata.org/prop/reference/value"@,
        Keyed::PropertyReferenceValueNormalized => "http://www.wikidata.org/prop/reference/value-normalized"@,
        Keyed::PropertyQualifier => "http://www.wikidata.org/prop/qualifier"@,
        Keyed::PropertyQualifierValue => "http://www.wikidata.org/prop/qualifier/value"@,
        Keyed::PropertyQualifierValueNormalized => "http://www.wikidata.org/prop/qualifier/value-normalized"@,
        Keyed::SchemaOrg => "http://schema.org"@,
        _ => Seq::empty(),
    }
}

pub open spec fn is_role(k: Keyed) -> bool {
    !(k is WikibaseOntology) && !(k is W3Owl)
}

/// The IRI of a property role with a key that holds no `/` reads back as the same term.
pub proof fn lemma_role_iri_round_trip(k: Keyed, key: Seq<char>)
    requires
        is_role(k),
        !key.contains('/'),
    ensures
        parse_model(role_root(k) + "/"@ + key) == ElementModel::Keyed(k, key),
{
    lemma_split(role_root(k), key);
    reveal_strlit("http://www.wikidata.org/entity");
    reveal_strlit("http://www.wikidata.org/entity/statement");
    reveal_strlit("http://www.wikidata.org/prop");
    reveal_strlit("http://www.wikidata.org/prop/direct");
    reveal_strlit("http://www.wikidata.org/prop/direct-normalized");
    reveal_strlit("http://www.wikidata.org/prop/statement");
    reveal_strlit("http://www.wikidata.org/prop/statement/value");
    reveal_strlit("http://www.wikidata.org/prop/statement/value-normalized");
    reveal_strlit("http://www.wikidata.org/prop/reference");
    reveal_strlit("http://www.wikidata.org/prop/reference/value");
    reveal_strlit("http://www.wikidata.org/prop/reference/value-normalized");
    reveal_strlit("http://www.wikidata.org/prop/qualifier");
    reveal_strlit("http://www.wikidata.org/prop/qualifier/value");
    reveal_strlit("http://www.wikidata.org/prop/qualifier/value-normalized");
    reveal_strlit("http://schema.org");
    let r = role_root(k);
    assert(r != "http://www.wikidata.org/entity"@);
    assert(r != "http://www.wikidata.org/entity/statement"@);
    assert(r != "http://www.wikidata.org/prop"@);
    match k {
        Keyed::PropertyDirect => {
            assert(keyed_root(r) == Some(k));
        },
        Keyed::PropertyDirectNormalized => {
            assert(keyed_root(r) == Some(k));
        },
        Keyed::PropertyStatement => {
            assert(r[29] != "http://www.wikidata.org/prop/reference"@[29]);
            assert(r[29] != "http://www.wikidata.org/prop/qualifier"@[29]);
            assert(keyed_root(r) == Some(k));
        },
        Keyed::PropertyStatementValue => {
            assert(r[29] != "http://www.wikidata.org/prop/reference/value"@[29]);
            assert(r[29] != "http://www.wikidata.org/prop/qualifier/value"@[29]);
            assert(keyed_root(r) == Some(k));
        },
        Keyed::PropertyStatementValueNormalized => {
            assert(r[29] != "http://www.wikidata.org/prop/reference/value-normalized"@[29]);
            assert(r[29] != "http://www.wikidata.org/prop/qualifier/value-normalized"@[29]);
            assert(keyed_root(r) == Some(k));
        },
        Keyed::PropertyReference => {
            assert(r[29] != "http://www.wikidata.org/prop/statement"@[29]);
            assert(r[29] != "http://www.wikidata.org/prop/qualifier"@[29]);
            assert(keyed_root(r) == Some(k));
        },
        Keyed::PropertyReferenceValue => {
            assert(r[29] != "http://www.wikidata.org/prop/statement/value"@[29]);
            assert(r[29] != "http://www.wikidata.org/prop/qualifier/value"@[29]);
            assert(keyed_root(r) == Some(k));
        },
        Keyed::PropertyReferenceValueNormalized => {
            assert(r[29] != "http://www.wikidata.org/prop/statement/value-normalized"@[29]);
            assert(r[29] != "http://www.wikidata.org/prop/qualifier/value-normalized"@[29]);
            assert(keyed_root(r) == Some(k));
        },
        Keyed::PropertyQualifier => {
            assert(r[29] != "http://www.wikidata.org/prop/statement"@[29]);
            assert(r[29] != "http://www.wikidata.org/prop/reference"@[29]);
            assert(keyed_root(r) == Some(k));
        },
        Keyed::PropertyQualifierValue => {
            assert(r[29] != "http://www.wikidata.org/prop/statement/value"@[29]);
            assert(r[29] != "http://www.wikidata.org/prop/reference/value"@[29]);
            assert(keyed_root(r) == Some(k));
        },
        Keyed::PropertyQualifierValueNormalized => {
            assert(r[29] != "http://www.wikidata.org/prop/statement/value-normalized"@[29]);
            assert(r[29] != "http://www.wikidata.org/prop/reference/value-normalized"@[29]);
            assert(keyed_root(r) == Some(k));
        },
        Keyed::SchemaOrg => {
            assert(keyed_root(r) == Some(k));
        },
        _ => {},
    }
}

/// The root and key of the IRI of each well-known term.
pub open spec fn fixed_iri(f: Fixed) -> (Seq<char>, Seq<char>) {
    match f {
        Fixed::RdfSchemaLabel => ("http://www.w3.org/2000/01"@, "rdf-schema#label"@),
        Fixed::WasDerivedFrom => ("http://www.w3.org/ns"@, "prov#wasDerivedFrom"@),
        Fixed::PurlLanguage => ("http://purl.org/dc/terms"@, "language"@),
        Fixed::W3RdfSyntaxNsType => ("http://www.w3.org/1999/02"@, "22-rdf-syntax-ns#type"@),
        Fixed::W3SkosCoreAltLabel => ("http://www.w3.org/2004/02/skos"@, "core#altLabel"@),
        Fixed::W3SkosCorePrefLabel => ("http://www.w3.org/2004/02/skos"@, "core#prefLabel"@),
        Fixed::W3OntolexLexicalForm => ("http://www.w3.org/ns/lemon"@, "ontolex#lexicalForm"@),
        Fixed::W3OntolexRepresentation => ("http://www.w3.org/ns/lemon"@, "ontolex#representation"@),
        Fixed::CreativeCommonsLicense => ("http://creativecommons.org"@, "ns#license"@),
    }
}

/// The IRI of each well-known term reads back as that term.
#[verifier::rlimit(60)]
pub proof fn lemma_fixed_iri_round_trip(f: Fixed)
    ensures
        parse_model(fixed_iri(f).0 + "/"@ + fixed_iri(f).1) == ElementModel::Fixed(f),
{
    reveal_strlit("http://www.wikidata.org/entity");
    reveal_strlit("http://www.wikidata.org/entity/statement");
    reveal_strlit("http://www.wikidata.org/prop");
    reveal_strlit("http://www.wikidata.org/prop/direct");
    reveal_strlit("http://www.wikidata.org/prop/direct-normalized");
    reveal_strlit("http://www.wikidata.org/prop/statement");
    reveal_strlit("http://www.wikidata.org/prop/statement/value");
    reveal_strlit("http://www.wikidata.org/prop/statement/value-normalized");
    reveal_strlit("http://www.wikidata.org/prop/reference");
    reveal_strlit("http://www.wikidata.org/prop/reference/value");
    reveal_strlit("http://www.wikidata.org/prop/reference/value-normalized");
    reveal_strlit("http://www.wikidata.org/prop/qualifier");
    reveal_strlit("http://www.wikidata.org/prop/qualifier/value");
    reveal_strlit("http://www.wikidata.org/prop/qualifier/value-normalized");
    reveal_strlit("http://schema.org");
    reveal_strlit("http://www.wikidata.org/reference");
    reveal_strlit("http://www.wikidata.org/value");
    reveal_strlit("http://wikiba.se");
    reveal_strlit("http://www.w3.org/2002/07");
    reveal_strlit("http://purl.org/dc/terms");
    reveal_strlit("http://www.w3.org/2000/01");
    reveal_strlit("http://creativecommons.org");
    reveal_strlit("http://www.w3.org/ns");
    reveal_strlit("http://www.w3.org/1999/02");
    reveal_strlit("http://www.w3.org/ns/lemon");
    reveal_strlit("http://www.w3.org/2004/02/skos");
    reveal_strlit("22-rdf-syntax-ns#type");
    reveal_strlit("core#altLabel");
    reveal_strlit("core#prefLabel");
    reveal_strlit("language");
    reveal_strlit("ns#license");
    reveal_strlit("ontolex#lexicalForm");
    reveal_strlit("ontolex#representation");
    reveal_strlit("prov#wasDerivedFrom");
    reveal_strlit("rdf-schema#label");
    let (root, key) = fixed_iri(f);
    assert(!key.contains('/'));
    lemma_split(root, key);
    match f {
        Fixed::W3SkosCoreAltLabel | Fixed::W3SkosCorePrefLabel => {
            assert(root[12] != "http://www.wikidata.org/entity"@[12]);
        },
        Fixed::RdfSchemaLabel => {
            assert(root[21] != "http://www.w3.org/2002/07"@[21]);
        },
        Fixed::W3RdfSyntaxNsType => {
            assert(root[18] != "http://www.w3.org/2002/07"@[18]);
        },
        _ => {},
    }
    assert(root != "http://www.wikidata.org/entity"@);
    assert(root != "http://www.wikidata.org/entity/statement"@);
    assert(root != "http://www.wikidata.org/prop"@);
    assert(keyed_root(root) is None);
    assert(root != "http://www.wikidata.org/reference"@);
    assert(root != "http://www.wikidata.org/value"@);
    assert(root != "http://wikiba.se"@);
    assert(root != "http://www.w3.org/2002/07"@);
    assert(fixed_root(root));
    assert(fixed_of(root, key) == Some(f));
}

/// For a triple's own pattern (all three positions given), its table is among the
/// tables the planner selects, and the conditions bind exactly the values that the
/// triple's row stores.
pub proof fn lemma_ingested_triple_selected(s: ElementModel, p: ElementModel, o: ElementModel)
    ensures
        table_fits(
            PatternModel { s: Some(s), p: Some(p), o: Some(o), s_var: None, o_var: None },
            table_of(s, p, o),
        ),
        conditions(Some(s), "k"@).map_values(|c: (Seq<char>, Seq<char>)| c.1).len()
            == stored_values(s).len(),
        conditions(Some(o), "v"@).map_values(|c: (Seq<char>, Seq<char>)| c.1).len()
            == stored_values(o).len(),
{
    lemma_layout_and_values_agree(s);
    lemma_layout_and_values_agree(o);
    crate::database_table::lemma_slot_names_len("k"@, layout(s));
    crate::database_table::lemma_slot_names_len("v"@, layout(o));
}

/// A pattern of three concrete terms.
pub open spec fn concrete(s: ElementModel, p: ElementModel, o: ElementModel) -> PatternModel {
    PatternModel { s: Some(s), p: Some(p), o: Some(o), s_var: None, o_var: None }
}

proof fn lemma_planned_keys(q: PatternModel, reg: Seq<TableModel>)
    requires
        q.s_var is None,
        q.o_var is None,
    ensures
        planned(q, reg) is Some,
        forall|i: int| 0 <= i < reg.len() && #[trigger] table_fits(q, reg[i]) ==> exists|j: int|
            0 <= j < planned(q, reg)->Some_0.len() && planned(q, reg)->Some_0[j].0 == group_key(reg[i]),
    decreases reg.len(),
{
    if reg.len() > 0 {
        let prev = reg.drop_last();
        lemma_planned_keys(q, prev);
        let g = planned(q, prev)->Some_0;
        let t = reg.last();
        assert(table_select(q, t) is Some);
        let r = planned(q, reg)->Some_0;
        if table_fits(q, t) {
            let k = group_key(t);
            let i = key_index(g, k);
            if i >= 0 {
                assert(0 <= i < g.len() && g[i].0 == k);
            }
            assert forall|a: int| 0 <= a < reg.len() && #[trigger] table_fits(q, reg[a]) implies exists|j: int|
                0 <= j < r.len() && r[j].0 == group_key(reg[a]) by {
                if a < reg.len() - 1 {
                    assert(reg[a] == prev[a]);
                    let j = choose|j: int| 0 <= j < g.len() && g[j].0 == group_key(prev[a]);
                    assert(r[j].0 == g[j].0);
                } else if i < 0 {
                    assert(r[g.len() as int].0 == k);
                } else {
                    assert(r[i].0 == k);
                }
            }
        } else {
            assert forall|a: int| 0 <= a < reg.len() && #[trigger] table_fits(q, reg[a]) implies exists|j: int|
                0 <= j < r.len() && r[j].0 == group_key(reg[a]) by {
                assert(a < reg.len() - 1);
                assert(reg[a] == prev[a]);
            }
        }
    }
}

/// Once the table of a triple is registered, the triple's own pattern is planned, and
/// the plan has a group for that table's shape.
pub proof fn lemma_ingested_triple_planned(s: ElementModel, p: ElementModel, o: ElementModel, reg: Seq<TableModel>)
    requires
        reg.contains(table_of(s, p, o)),
    ensures
        planned(concrete(s, p, o), reg) is Some,
        exists|j: int| 0 <= j < planned(concrete(s, p, o), reg)->Some_0.len()
            && planned(concrete(s, p, o), reg)->Some_0[j].0 == group_key(table_of(s, p, o)),
{
    let q = concrete(s, p, o);
    lemma_ingested_triple_selected(s, p, o);
    lemma_planned_keys(q, reg);
    let i = choose|i: int| 0 <= i < reg.len() && reg[i] == table_of(s, p, o);
    assert(table_fits(q, reg[i]));
}


/// Kind names hold no `_`.
pub proof fn lemma_kind_name_plain(e: ElementModel)
    ensures
        !kind_name(e).contains('_'),
{
    match e {
        ElementModel::Text(_) => { reveal_strlit("Text"); },
        ElementModel::TextInLanguage(_, _) => { reveal_strlit("TextInLanguage"); },
        ElementModel::WikiPage(_, _) => { reveal_strlit("WikiPage"); },
        ElementModel::Property(_) => { reveal_strlit("Property"); },
        ElementModel::Reference(_) => { reveal_strlit("Reference"); },
        ElementModel::Value(_) => { reveal_strlit("Value"); },
        ElementModel::DateTime(_) => { reveal_strlit("DateTime"); },
        ElementModel::LatLon(_) => { reveal_strlit("LatLon"); },
        ElementModel::Int(_) => { reveal_strlit("Integer"); },
        ElementModel::Float(_) => { reveal_strlit("Decimal"); },
        ElementModel::Url(_) => { reveal_strlit("Url"); },
        ElementModel::Entity(x) => match x {
            EntityModel::Item(_) => { reveal_strlit("EntityItem"); },
            EntityModel::Property(_) => { reveal_strlit("EntityProp"); },
            EntityModel::Media(_) => { reveal_strlit("EntityMedia"); },
            EntityModel::Lexeme(_) => { reveal_strlit("EntityLexeme"); },
            EntityModel::LexemeForm(_, _) => { reveal_strlit("EntityLexemeF"); },
            EntityModel::LexemeSense(_, _) => { reveal_strlit("EntityLexemeS"); },
            EntityModel::Unknown(_) => { reveal_strlit("EntityUnknown"); },
        },
        ElementModel::EntityStatement(x) => match x.entity {
            EntityModel::Item(_) => { reveal_strlit("StatementEntityItem"); },
            EntityModel::Property(_) => { reveal_strlit("StatementEntityProp"); },
            EntityModel::Media(_) => { reveal_strlit("StatementEntityMedia"); },
            EntityModel::Lexeme(_) => { reveal_strlit("StatementEntityLexeme"); },
            EntityModel::LexemeForm(_, _) => { reveal_strlit("StatementEntityLexemeF"); },
            EntityModel::LexemeSense(_, _) => { reveal_strlit("StatementEntityLexemeS"); },
            EntityModel::Unknown(_) => { reveal_strlit("StatementEntityUnknown"); },
        },
        ElementModel::Keyed(k, _) => match k {
            Keyed::PropertyDirect => { reveal_strlit("PropertyDirect"); },
            Keyed::PropertyDirectNormalized => { reveal_strlit("PropDirectNorm"); },
            Keyed::PropertyStatement => { reveal_strlit("PropStatement"); },
            Keyed::PropertyStatementValue => { reveal_strlit("PropStatementValue"); },
            Keyed::PropertyStatementValueNormalized => { reveal_strlit("PropStatementValueNorm"); },
            Keyed::PropertyReference => { reveal_strlit("PropRef"); },
            Keyed::PropertyReferenceValue => { reveal_strlit("PropReferenceValue"); },
            Keyed::PropertyReferenceValueNormalized => { reveal_strlit("PropReferenceValueNorm"); },
            Keyed::PropertyQualifier => { reveal_strlit("PropQual"); },
            Keyed::PropertyQualifierValue => { reveal_strlit("PropQualValue"); },
            Keyed::PropertyQualifierValueNormalized => { reveal_strlit("PropQualValueNorm"); },
            Keyed::WikibaseOntology => { reveal_strlit("WikibaseOntology"); },
            Keyed::SchemaOrg => { reveal_strlit("SchemaOrg"); },
            Keyed::W3Owl => { reveal_strlit("W3Owl"); },
        },
        ElementModel::Fixed(f) => match f {
            Fixed::RdfSchemaLabel => { reveal_strlit("RdfSchemaLabel"); },
            Fixed::WasDerivedFrom => { reveal_strlit("WasDerivedFrom"); },
            Fixed::PurlLanguage => { reveal_strlit("PurlLanguage"); },
            Fixed::W3RdfSyntaxNsType => { reveal_strlit("W3RdfSyntaxNsType"); },
            Fixed::W3SkosCoreAltLabel => { reveal_strlit("W3SkosCoreAltLabel"); },
            Fixed::W3SkosCorePrefLabel => { reveal_strlit("W3SkosCorePrefLabel"); },
            Fixed::W3OntolexLexicalForm => { reveal_strlit("W3OntolexLexicalForm"); },
            Fixed::W3OntolexRepresentation => { reveal_strlit("W3OntolexRepresentation"); },
            Fixed::CreativeCommonsLicense => { reveal_strlit("CreativeCommonsLicense"); },
        },
    }
}

proof fn lemma_kind_text()
    ensures
        layout_of_kind("Text"@) == seq![TypePart::Int],
{
    reveal_strlit("Text");
    reveal_strlit("Url");
    reveal_strlit("Integer");
}

proof fn lemma_kind_url()
    ensures
        layout_of_kind("Url"@) == seq![TypePart::Int],
{
    reveal_strlit("Url");
    reveal_strlit("Text");
    reveal_strlit("Integer");
}

proof fn lemma_kind_integer()
    ensures
        layout_of_kind("Integer"@) == seq![TypePart::Int],
{
    reveal_strlit("Integer");
    reveal_strlit("Text");
    reveal_strlit("Url");
}

proof fn lemma_kind_text_in_language()
    ensures
        layout_of_kind("TextInLanguage"@) == seq![TypePart::Int, TypePart::Int],
{
    reveal_strlit("TextInLanguage");
    reveal_strlit("Text");
    assert("TextInLanguage"@.len() != "Text"@.len());
    reveal_strlit("Url");
    assert("TextInLanguage"@.len() != "Url"@.len());
    reveal_strlit("Integer");
    assert("TextInLanguage"@.len() != "Integer"@.len());
    reveal_strlit("WikiPage");
}

proof fn lemma_kind_wiki_page()
    ensures
        layout_of_kind("WikiPage"@) == seq![TypePart::Int, TypePart::Int],
{
    reveal_strlit("WikiPage");
    reveal_strlit("Text");
    assert("WikiPage"@.len() != "Text"@.len());
    reveal_strlit("Url");
    assert("WikiPage"@.len() != "Url"@.len());
    reveal_strlit("Integer");
    assert("WikiPage"@.len() != "Integer"@.len());
    reveal_strlit("TextInLanguage");
}

proof fn lemma_kind_entity_item()
    ensures
        layout_of_kind("EntityItem"@) == seq![TypePart::U32],
{
    reveal_strlit("EntityItem");
    reveal_strlit("Text");
    assert("EntityItem"@.len() != "Text"@.len());
    reveal_strlit("Url");
    assert("EntityItem"@.len() != "Url"@.len());
    reveal_strlit("Integer");
    assert("EntityItem"@.len() != "Integer"@.len());
    reveal_strlit("TextInLanguage");
    assert("EntityItem"@.len() != "TextInLanguage"@.len());
    reveal_strlit("WikiPage");
    assert("EntityItem"@.len() != "WikiPage"@.len());
    reveal_strlit("EntityMedia");
    reveal_strlit("EntityLexeme");
}

proof fn lemma_kind_entity_media()
    ensures
        layout_of_kind("EntityMedia"@) == seq![TypePart::U32],
{
    reveal_strlit("EntityMedia");
    reveal_strlit("Text");
    assert("EntityMedia"@.len() != "Text"@.len());
    reveal_strlit("Url");
    assert("EntityMedia"@.len() != "Url"@.len());
    reveal_strlit("Integer");
    assert("EntityMedia"@.len() != "Integer"@.len());
    reveal_strlit("TextInLanguage");
    assert("EntityMedia"@.len() != "TextInLanguage"@.len());
    reveal_strlit("WikiPage");
    assert("EntityMedia"@.len() != "WikiPage"@.len());
    reveal_strlit("EntityItem");
    reveal_strlit("EntityLexeme");
}

proof fn lemma_kind_entity_lexeme()
    ensures
        layout_of_kind("EntityLexeme"@) == seq![TypePart::U32],
{
    reveal_strlit("EntityLexeme");
    reveal_strlit("Text");
    assert("EntityLexeme"@.len() != "Text"@.len());
    reveal_strlit("Url");
    assert("EntityLexeme"@.len() != "Url"@.len());
    reveal_strlit("Integer");
    assert("EntityLexeme"@.len() != "Integer"@.len());
    reveal_strlit("TextInLanguage");
    assert("EntityLexeme"@.len() != "TextInLanguage"@.len());
    reveal_strlit("WikiPage");
    assert("EntityLexeme"@.len() != "WikiPage"@.len());
    reveal_strlit("EntityItem");
    reveal_strlit("EntityMedia");
}

proof fn lemma_kind_entity_prop()
    ensures
        layout_of_kind("EntityProp"@) == seq![TypePart::U16],
{
    reveal_strlit("EntityProp");
    reveal_strlit("Text");
    assert("EntityProp"@.len() != "Text"@.len());
    reveal_strlit("Url");
    assert("EntityProp"@.len() != "Url"@.len());
    reveal_strlit("Integer");
    assert("EntityProp"@.len() != "Integer"@.len());
    reveal_strlit("TextInLanguage");
    assert("EntityProp"@.len() != "TextInLanguage"@.len());
    reveal_strlit("WikiPage");
    assert("EntityProp"@.len() != "WikiPage"@.len());
    reveal_strlit("EntityItem");
    assert("EntityProp"@[6] != "EntityItem"@[6]);
    reveal_strlit("EntityMedia");
    assert("EntityProp"@.len() != "EntityMedia"@.len());
    reveal_strlit("EntityLexeme");
    assert("EntityProp"@.len() != "EntityLexeme"@.len());
}

proof fn lemma_kind_entity_lexeme_f()
    ensures
        layout_of_kind("EntityLexemeF"@) == seq![TypePart::U32, TypePart::U8],
{
    reveal_strlit("EntityLexemeF");
    reveal_strlit("Text");
    assert("EntityLexemeF"@.len() != "Text"@.len());
    reveal_strlit("Url");
    assert("EntityLexemeF"@.len() != "Url"@.len());
    reveal_strlit("Integer");
    assert("EntityLexemeF"@.len() != "Integer"@.len());
    reveal_strlit("TextInLanguage");
    assert("EntityLexemeF"@.len() != "TextInLanguage"@.len());
    reveal_strlit("WikiPage");
    assert("EntityLexemeF"@.len() != "WikiPage"@.len());
    reveal_strlit("EntityItem");
    assert("EntityLexemeF"@.len() != "EntityItem"@.len());
    reveal_strlit("EntityMedia");
    assert("EntityLexemeF"@.len() != "EntityMedia"@.len());
    reveal_strlit("EntityLexeme");
    assert("EntityLexemeF"@.len() != "EntityLexeme"@.len());
    reveal_strlit("EntityProp");
    assert("EntityLexemeF"@.len() != "EntityProp"@.len());
    reveal_strlit("EntityLexemeS");
}

proof fn lemma_kind_entity_lexeme_s()
    ensures
        layout_of_kind("EntityLexemeS"@) == seq![TypePart::U32, TypePart::U8],
{
    reveal_strlit("EntityLexemeS");
    reveal_strlit("Text");
    assert("EntityLexemeS"@.len() != "Text"@.len());
    reveal_strlit("Url");
    assert("EntityLexemeS"@.len() != "Url"@.len());
    reveal_strlit("Integer");
    assert("EntityLexemeS"@.len() != "Integer"@.len());
    reveal_strlit("TextInLanguage");
    assert("EntityLexemeS"@.len() != "TextInLanguage"@.len());
    reveal_strlit("WikiPage");
    assert("EntityLexemeS"@.len() != "WikiPage"@.len());
    reveal_strlit("EntityItem");
    assert("EntityLexemeS"@.len() != "EntityItem"@.len());
    reveal_strlit("EntityMedia");
    assert("EntityLexemeS"@.len() != "EntityMedia"@.len());
    reveal_strlit("EntityLexeme");
    assert("EntityLexemeS"@.len() != "EntityLexeme"@.len());
    reveal_strlit("EntityProp");
    assert("EntityLexemeS"@.len() != "EntityProp"@.len());
    reveal_strlit("EntityLexemeF");
}

proof fn lemma_kind_entity_unknown()
    ensures
        layout_of_kind("EntityUnknown"@) == seq![TypePart::ShortText],
{
    reveal_strlit("EntityUnknown");
    reveal_strlit("Text");
    assert("EntityUnknown"@.len() != "Text"@.len());
    reveal_strlit("Url");
    assert("EntityUnknown"@.len() != "Url"@.len());
    reveal_strlit("Integer");
    assert("EntityUnknown"@.len() != "Integer"@.len());
    reveal_strlit("TextInLanguage");
    assert("EntityUnknown"@.len() != "TextInLanguage"@.len());
    reveal_strlit("WikiPage");
    assert("EntityUnknown"@.len() != "WikiPage"@.len());
    reveal_strlit("EntityItem");
    assert("EntityUnknown"@.len() != "EntityItem"@.len());
    reveal_strlit("EntityMedia");
    assert("EntityUnknown"@.len() != "EntityMedia"@.len());
    reveal_strlit("EntityLexeme");
    assert("EntityUnknown"@.len() != "EntityLexeme"@.len());
    reveal_strlit("EntityProp");
    assert("EntityUnknown"@.len() != "EntityProp"@.len());
    reveal_strlit("EntityLexemeF");
    assert("EntityUnknown"@[6] != "EntityLexemeF"@[6]);
    reveal_strlit("EntityLexemeS");
    assert("EntityUnknown"@[6] != "EntityLexemeS"@[6]);
    reveal_strlit("Property");
    reveal_strlit("PropertyDirect");
    reveal_strlit("PropDirectNorm");
    reveal_strlit("PropStatement");
    reveal_strlit("PropStatementValue");
    reveal_strlit("PropStatementValueNorm");
    reveal_strlit("PropRef");
    reveal_strlit("PropReferenceValue");
    reveal_strlit("PropReferenceValueNorm");
    reveal_strlit("PropQual");
    reveal_strlit("PropQualValue");
    reveal_strlit("PropQualValueNorm");
    reveal_strlit("WikibaseOntology");
    reveal_strlit("SchemaOrg");
    reveal_strlit("W3Owl");
}

proof fn lemma_kind_property()
    ensures
        layout_of_kind("Property"@) == seq![TypePart::ShortText],
{
    reveal_strlit("Property");
    reveal_strlit("Text");
    assert("Property"@.len() != "Text"@.len());
    reveal_strlit("Url");
    assert("Property"@.len() != "Url"@.len());
    reveal_strlit("Integer");
    assert("Property"@.len() != "Integer"@.len());
    reveal_strlit("TextInLanguage");
    assert("Property"@.len() != "TextInLanguage"@.len());
    reveal_strlit("WikiPage");
    assert("Property"@[0] != "WikiPage"@[0]);
    reveal_strlit("EntityItem");
    assert("Property"@.len() != "EntityItem"@.len());
    reveal_strlit("EntityMedia");
    assert("Property"@.len() != "EntityMedia"@.len());
    reveal_strlit("EntityLexeme");
    assert("Property"@.len() != "EntityLexeme"@.len());
    reveal_strlit("EntityProp");
    assert("Property"@.len() != "EntityProp"@.len());
    reveal_strlit("EntityLexemeF");
    assert("Property"@.len() != "EntityLexemeF"@.len());
    reveal_strlit("EntityLexemeS");
    assert("Property"@.len() != "EntityLexemeS"@.len());
    reveal_strlit("EntityUnknown");
    reveal_strlit("PropertyDirect");
    reveal_strlit("PropDirectNorm");
    reveal_strlit("PropStatement");
    reveal_strlit("PropStatementValue");
    reveal_strlit("PropStatementValueNorm");
    reveal_strlit("PropRef");
    reveal_strlit("PropReferenceValue");
    reveal_strlit("PropReferenceValueNorm");
    reveal_strlit("PropQual");
    reveal_strlit("PropQualValue");
    reveal_strlit("PropQualValueNorm");
    reveal_strlit("WikibaseOntology");
    reveal_strlit("SchemaOrg");
    reveal_strlit("W3Owl");
}

proof fn lemma_kind_property_direct()
    ensures
        layout_of_kind("PropertyDirect"@) == seq![TypePart::ShortText],
{
    reveal_strlit("PropertyDirect");
    reveal_strlit("Text");
    assert("PropertyDirect"@.len() != "Text"@.len());
    reveal_strlit("Url");
    assert("PropertyDirect"@.len() != "Url"@.len());
    reveal_strlit("Integer");
    assert("PropertyDirect"@.len() != "Integer"@.len());
    reveal_strlit("TextInLanguage");
    assert("PropertyDirect"@[0] != "TextInLanguage"@[0]);
    reveal_strlit("WikiPage");
    assert("PropertyDirect"@.len() != "WikiPage"@.len());
    reveal_strlit("EntityItem");
    assert("PropertyDirect"@.len() != "EntityItem"@.len());
    reveal_strlit("EntityMedia");
    assert("PropertyDirect"@.len() != "EntityMedia"@.len());
    reveal_strlit("EntityLexeme");
    assert("PropertyDirect"@.len() != "EntityLexeme"@.len());
    reveal_strlit("EntityProp");
    assert("PropertyDirect"@.len() != "EntityProp"@.len());
    reveal_strlit("EntityLexemeF");
    assert("PropertyDirect"@.len() != "EntityLexemeF"@.len());
    reveal_strlit("EntityLexemeS");
    assert("PropertyDirect"@.len() != "EntityLexemeS"@.len());
    reveal_strlit("EntityUnknown");
    reveal_strlit("Property");
    reveal_strlit("PropDirectNorm");
    reveal_strlit("PropStatement");
    reveal_strlit("PropStatementValue");
    reveal_strlit("PropStatementValueNorm");
    reveal_strlit("PropRef");
    reveal_strlit("PropReferenceValue");
    reveal_strlit("PropReferenceValueNorm");
    reveal_strlit("PropQual");
    reveal_strlit("PropQualValue");
    reveal_strlit("PropQualValueNorm");
    reveal_strlit("WikibaseOntology");
    reveal_strlit("SchemaOrg");
    reveal_strlit("W3Owl");
}

proof fn lemma_kind_prop_direct_norm()
    ensures
        layout_of_kind("PropDirectNorm"@) == seq![TypePart::ShortText],
{
    reveal_strlit("PropDirectNorm");
    reveal_strlit("Text");
    assert("PropDirectNorm"@.len() != "Text"@.len());
    reveal_strlit("Url");
    assert("PropDirectNorm"@.len() != "Url"@.len());
    reveal_strlit("Integer");
    assert("PropDirectNorm"@.len() != "Integer"@.len());
    reveal_strlit("TextInLanguage");
    assert("PropDirectNorm"@[0] != "TextInLanguage"@[0]);
    reveal_strlit("WikiPage");
    assert("PropDirectNorm"@.len() != "WikiPage"@.len());
    reveal_strlit("EntityItem");
    assert("PropDirectNorm"@.len() != "EntityItem"@.len());
    reveal_strlit("EntityMedia");
    assert("PropDirectNorm"@.len() != "EntityMedia"@.len());
    reveal_strlit("EntityLexeme");
    assert("PropDirectNorm"@.len() != "EntityLexeme"@.len());
    reveal_strlit("EntityProp");
    assert("PropDirectNorm"@.len() != "EntityProp"@.len());
    reveal_strlit("EntityLexemeF");
    assert("PropDirectNorm"@.len() != "EntityLexemeF"@.len());
    reveal_strlit("EntityLexemeS");
    assert("PropDirectNorm"@.len() != "EntityLexemeS"@.len());
    reveal_strlit("EntityUnknown");
    reveal_strlit("Property");
    reveal_strlit("PropertyDirect");
    reveal_strlit("PropStatement");
    reveal_strlit("PropStatementValue");
    reveal_strlit("PropStatementValueNorm");
    reveal_strlit("PropRef");
    reveal_strlit("PropReferenceValue");
    reveal_strlit("PropReferenceValueNorm");
    reveal_strlit("PropQual");
    reveal_strlit("PropQualValue");
    reveal_strlit("PropQualValueNorm");
    reveal_strlit("WikibaseOntology");
    reveal_strlit("SchemaOrg");
    reveal_strlit("W3Owl");
}

proof fn lemma_kind_prop_statement()
    ensures
        layout_of_kind("PropStatement"@) == seq![TypePart::ShortText],
{
    reveal_strlit("PropStatement");
    reveal_strlit("Text");
    assert("PropStatement"@.len() != "Text"@.len());
    reveal_strlit("Url");
    assert("PropStatement"@.len() != "Url"@.len());
    reveal_strlit("Integer");
    assert("PropStatement"@.len() != "Integer"@.len());
    reveal_strlit("TextInLanguage");
    assert("PropStatement"@.len() != "TextInLanguage"@.len());
    reveal_strlit("WikiPage");
    assert("PropStatement"@.len() != "WikiPage"@.len());
    reveal_strlit("EntityItem");
    assert("PropStatement"@.len() != "EntityItem"@.len());
    reveal_strlit("EntityMedia");
    assert("PropStatement"@.len() != "EntityMedia"@.len());
    reveal_strlit("EntityLexeme");
    assert("PropStatement"@.len() != "EntityLexeme"@.len());
    reveal_strlit("EntityProp");
    assert("PropStatement"@.len() != "EntityProp"@.len());
    reveal_strlit("EntityLexemeF");
    assert("PropStatement"@[0] != "EntityLexemeF"@[0]);
    reveal_strlit("EntityLexemeS");
    assert("PropStatement"@[0] != "EntityLexemeS"@[0]);
    reveal_strlit("EntityUnknown");
    reveal_strlit("Property");
    reveal_strlit("PropertyDirect");
    reveal_strlit("PropDirectNorm");
    reveal_strlit("PropStatementValue");
    reveal_strlit("PropStatementValueNorm");
    reveal_strlit("PropRef");
    reveal_strlit("PropReferenceValue");
    reveal_strlit("PropReferenceValueNorm");
    reveal_strlit("PropQual");
    reveal_strlit("PropQualValue");
    reveal_strlit("PropQualValueNorm");
    reveal_strlit("WikibaseOntology");
    reveal_strlit("SchemaOrg");
    reveal_strlit("W3Owl");
}

proof fn lemma_kind_prop_statement_value()
    ensures
        layout_of_kind("PropStatementValue"@) == seq![TypePart::ShortText],
{
    reveal_strlit("PropStatementValue");
    reveal_strlit("Text");
    assert("PropStatementValue"@.len() != "Text"@.len());
    reveal_strlit("Url");
    assert("PropStatementValue"@.len() != "Url"@.len());
    reveal_strlit("Integer");
    assert("PropStatementValue"@.len() != "Integer"@.len());
    reveal_strlit("TextInLanguage");
    assert("PropStatementValue"@.len() != "TextInLanguage"@.len());
    reveal_strlit("WikiPage");
    assert("PropStatementValue"@.len() != "WikiPage"@.len());
    reveal_strlit("EntityItem");
    assert("PropStatementValue"@.len() != "EntityItem"@.len());
    reveal_strlit("EntityMedia");
    assert("PropStatementValue"@.len() != "EntityMedia"@.len());
    reveal_strlit("EntityLexeme");
    assert("PropStatementValue"@.len() != "EntityLexeme"@.len());
    reveal_strlit("EntityProp");
    assert("PropStatementValue"@.len() != "EntityProp"@.len());
    reveal_strlit("EntityLexemeF");
    assert("PropStatementValue"@.len() != "EntityLexemeF"@.len());
    reveal_strlit("EntityLexemeS");
    assert("PropStatementValue"@.len() != "EntityLexemeS"@.len());
    reveal_strlit("EntityUnknown");
    reveal_strlit("Property");
    reveal_strlit("PropertyDirect");
    reveal_strlit("PropDirectNorm");
    reveal_strlit("PropStatement");
    reveal_strlit("PropStatementValueNorm");
    reveal_strlit("PropRef");
    reveal_strlit("PropReferenceValue");
    reveal_strlit("PropReferenceValueNorm");
    reveal_strlit("PropQual");
    reveal_strlit("PropQualValue");
    reveal_strlit("PropQualValueNorm");
    reveal_strlit("WikibaseOntology");
    reveal_strlit("SchemaOrg");
    reveal_strlit("W3Owl");
}

proof fn lemma_kind_prop_statement_value_norm()
    ensures
        layout_of_kind("PropStatementValueNorm"@) == seq![TypePart::ShortText],
{
    reveal_strlit("PropStatementValueNorm");
    reveal_strlit("Text");
    assert("PropStatementValueNorm"@.len() != "Text"@.len());
    reveal_strlit("Url");
    assert("PropStatementValueNorm"@.len() != "Url"@.len());
    reveal_strlit("Integer");
    assert("PropStatementValueNorm"@.len() != "Integer"@.len());
    reveal_strlit("TextInLanguage");
    assert("PropStatementValueNorm"@.len() != "TextInLanguage"@.len());
    reveal_strlit("WikiPage");
    assert("PropStatementValueNorm"@.len() != "WikiPage"@.len());
    reveal_strlit("EntityItem");
    assert("PropStatementValueNorm"@.len() != "EntityItem"@.len());
    reveal_strlit("EntityMedia");
    assert("PropStatementValueNorm"@.len() != "EntityMedia"@.len());
    reveal_strlit("EntityLexeme");
    assert("PropStatementValueNorm"@.len() != "EntityLexeme"@.len());
    reveal_strlit("EntityProp");
    assert("PropStatementValueNorm"@.len() != "EntityProp"@.len());
    reveal_strlit("EntityLexemeF");
    assert("PropStatementValueNorm"@.len() != "EntityLexemeF"@.len());
    reveal_strlit("EntityLexemeS");
    assert("PropStatementValueNorm"@.len() != "EntityLexemeS"@.len());
    reveal_strlit("EntityUnknown");
    reveal_strlit("Property");
    reveal_strlit("PropertyDirect");
    reveal_strlit("PropDirectNorm");
    reveal_strlit("PropStatement");
    reveal_strlit("PropStatementValue");
    reveal_strlit("PropRef");
    reveal_strlit("PropReferenceValue");
    reveal_strlit("PropReferenceValueNorm");
    reveal_strlit("PropQual");
    reveal_strlit("PropQualValue");
    reveal_strlit("PropQualValueNorm");
    reveal_strlit("WikibaseOntology");
    reveal_strlit("SchemaOrg");
    reveal_strlit("W3Owl");
}

proof fn lemma_kind_prop_ref()
    ensures
        layout_of_kind("PropRef"@) == seq![TypePart::ShortText],
{
    reveal_strlit("PropRef");
    reveal_strlit("Text");
    assert("PropRef"@.len() != "Text"@.len());
    reveal_strlit("Url");
    assert("PropRef"@.len() != "Url"@.len());
    reveal_strlit("Integer");
    assert("PropRef"@[0] != "Integer"@[0]);
    reveal_strlit("TextInLanguage");
    assert("PropRef"@.len() != "TextInLanguage"@.len());
    reveal_strlit("WikiPage");
    assert("PropRef"@.len() != "WikiPage"@.len());
    reveal_strlit("EntityItem");
    assert("PropRef"@.len() != "EntityItem"@.len());
    reveal_strlit("EntityMedia");
    assert("PropRef"@.len() != "EntityMedia"@.len());
    reveal_strlit("EntityLexeme");
    assert("PropRef"@.len() != "EntityLexeme"@.len());
    reveal_strlit("EntityProp");
    assert("PropRef"@.len() != "EntityProp"@.len());
    reveal_strlit("EntityLexemeF");
    assert("PropRef"@.len() != "EntityLexemeF"@.len());
    reveal_strlit("EntityLexemeS");
    assert("PropRef"@.len() != "EntityLexemeS"@.len());
    reveal_strlit("EntityUnknown");
    reveal_strlit("Property");
    reveal_strlit("PropertyDirect");
    reveal_strlit("PropDirectNorm");
    reveal_strlit("PropStatement");
    reveal_strlit("PropStatementValue");
    reveal_strlit("PropStatementValueNorm");
    reveal_strlit("PropReferenceValue");
    reveal_strlit("PropReferenceValueNorm");
    reveal_strlit("PropQual");
    reveal_strlit("PropQualValue");
    reveal_strlit("PropQualValueNorm");
    reveal_strlit("WikibaseOntology");
    reveal_strlit("SchemaOrg");
    reveal_strlit("W3Owl");
}

proof fn lemma_kind_prop_reference_value()
    ensures
        layout_of_kind("PropReferenceValue"@) == seq![TypePart::ShortText],
{
    reveal_strlit("PropReferenceValue");
    reveal_strlit("Text");
    assert("PropReferenceValue"@.len() != "Text"@.len());
    reveal_strlit("Url");
    assert("PropReferenceValue"@.len() != "Url"@.len());
    reveal_strlit("Integer");
    assert("PropReferenceValue"@.len() != "Integer"@.len());
    reveal_strlit("TextInLanguage");
    assert("PropReferenceValue"@.len() != "TextInLanguage"@.len());
    reveal_strlit("WikiPage");
    assert("PropReferenceValue"@.len() != "WikiPage"@.len());
    reveal_strlit("EntityItem");
    assert("PropReferenceValue"@.len() != "EntityItem"@.len());
    reveal_strlit("EntityMedia");
    assert("PropReferenceValue"@.len() != "EntityMedia"@.len());
    reveal_strlit("EntityLexeme");
    assert("PropReferenceValue"@.len() != "EntityLexeme"@.len());
    reveal_strlit("EntityProp");
    assert("PropReferenceValue"@.len() != "EntityProp"@.len());
    reveal_strlit("EntityLexemeF");
    assert("PropReferenceValue"@.len() != "EntityLexemeF"@.len());
    reveal_strlit("EntityLexemeS");
    assert("PropReferenceValue"@.len() != "EntityLexemeS"@.len());
    reveal_strlit("EntityUnknown");
    reveal_strlit("Property");
    reveal_strlit("PropertyDirect");
    reveal_strlit("PropDirectNorm");
    reveal_strlit("PropStatement");
    reveal_strlit("PropStatementValue");
    reveal_strlit("PropStatementValueNorm");
    reveal_strlit("PropRef");
    reveal_strlit("PropReferenceValueNorm");
    reveal_strlit("PropQual");
    reveal_strlit("PropQualValue");
    reveal_strlit("PropQualValueNorm");
    reveal_strlit("WikibaseOntology");
    reveal_strlit("SchemaOrg");
    reveal_strlit("W3Owl");
}

proof fn lemma_kind_prop_reference_value_norm()
    ensures
        layout_of_kind("PropReferenceValueNorm"@) == seq![TypePart::ShortText],
{
    reveal_strlit("PropReferenceValueNorm");
    reveal_strlit("Text");
    assert("PropReferenceValueNorm"@.len() != "Text"@.len());
    reveal_strlit("Url");
    assert("PropReferenceValueNorm"@.len() != "Url"@.len());
    reveal_strlit("Integer");
    assert("PropReferenceValueNorm"@.len() != "Integer"@.len());
    reveal_strlit("TextInLanguage");
    assert("PropReferenceValueNorm"@.len() != "TextInLanguage"@.len());
    reveal_strlit("WikiPage");
    assert("PropReferenceValueNorm"@.len() != "WikiPage"@.len());
    reveal_strlit("EntityItem");
    assert("PropReferenceValueNorm"@.len() != "EntityItem"@.len());
    reveal_strlit("EntityMedia");
    assert("PropReferenceValueNorm"@.len() != "EntityMedia"@.len());
    reveal_strlit("EntityLexeme");
    assert("PropReferenceValueNorm"@.len() != "EntityLexeme"@.len());
    reveal_strlit("EntityProp");
    assert("PropReferenceValueNorm"@.len() != "EntityProp"@.len());
    reveal_strlit("EntityLexemeF");
    assert("PropReferenceValueNorm"@.len() != "EntityLexemeF"@.len());
    reveal_strlit("EntityLexemeS");
    assert("PropReferenceValueNorm"@.len() != "EntityLexemeS"@.len());
    reveal_strlit("EntityUnknown");
    reveal_strlit("Property");
    reveal_strlit("PropertyDirect");
    reveal_strlit("PropDirectNorm");
    reveal_strlit("PropStatement");
    reveal_strlit("PropStatementValue");
    reveal_strlit("PropStatementValueNorm");
    reveal_strlit("PropRef");
    reveal_strlit("PropReferenceValue");
    reveal_strlit("PropQual");
    reveal_strlit("PropQualValue");
    reveal_strlit("PropQualValueNorm");
    reveal_strlit("WikibaseOntology");
    reveal_strlit("SchemaOrg");
    reveal_strlit("W3Owl");
}

proof fn lemma_kind_prop_qual()
    ensures
        layout_of_kind("PropQual"@) == seq![TypePart::ShortText],
{
    reveal_strlit("PropQual");
    reveal_strlit("Text");
    assert("PropQual"@.len() != "Text"@.len());
    reveal_strlit("Url");
    assert("PropQual"@.len() != "Url"@.len());
    reveal_strlit("Integer");
    assert("PropQual"@.len() != "Integer"@.len());
    reveal_strlit("TextInLanguage");
    assert("PropQual"@.len() != "TextInLanguage"@.len());
    reveal_strlit("WikiPage");
    assert("PropQual"@[0] != "WikiPage"@[0]);
    reveal_strlit("EntityItem");
    assert("PropQual"@.len() != "EntityItem"@.len());
    reveal_strlit("EntityMedia");
    assert("PropQual"@.len() != "EntityMedia"@.len());
    reveal_strlit("EntityLexeme");
    assert("PropQual"@.len() != "EntityLexeme"@.len());
    reveal_strlit("EntityProp");
    assert("PropQual"@.len() != "EntityProp"@.len());
    reveal_strlit("EntityLexemeF");
    assert("PropQual"@.len() != "EntityLexemeF"@.len());
    reveal_strlit("EntityLexemeS");
    assert("PropQual"@.len() != "EntityLexemeS"@.len());
    reveal_strlit("EntityUnknown");
    reveal_strlit("Property");
    reveal_strlit("PropertyDirect");
    reveal_strlit("PropDirectNorm");
    reveal_strlit("PropStatement");
    reveal_strlit("PropStatementValue");
    reveal_strlit("PropStatementValueNorm");
    reveal_strlit("PropRef");
    reveal_strlit("PropReferenceValue");
    reveal_strlit("PropReferenceValueNorm");
    reveal_strlit("PropQualValue");
    reveal_strlit("PropQualValueNorm");
    reveal_strlit("WikibaseOntology");
    reveal_strlit("SchemaOrg");
    reveal_strlit("W3Owl");
}

proof fn lemma_kind_prop_qual_value()
    ensures
        layout_of_kind("PropQualValue"@) == seq![TypePart::ShortText],
{
    reveal_strlit("PropQualValue");
    reveal_strlit("Text");
    assert("PropQualValue"@.len() != "Text"@.len());
    reveal_strlit("Url");
    assert("PropQualValue"@.len() != "Url"@.len());
    reveal_strlit("Integer");
    assert("PropQualValue"@.len() != "Integer"@.len());
    reveal_strlit("TextInLanguage");
    assert("PropQualValue"@.len() != "TextInLanguage"@.len());
    reveal_strlit("WikiPage");
    assert("PropQualValue"@.len() != "WikiPage"@.len());
    reveal_strlit("EntityItem");
    assert("PropQualValue"@.len() != "EntityItem"@.len());
    reveal_strlit("EntityMedia");
    assert("PropQualValue"@.len() != "EntityMedia"@.len());
    reveal_strlit("EntityLexeme");
    assert("PropQualValue"@.len() != "EntityLexeme"@.len());
    reveal_strlit("EntityProp");
    assert("PropQualValue"@.len() != "EntityProp"@.len());
    reveal_strlit("EntityLexemeF");
    assert("PropQualValue"@[0] != "EntityLexemeF"@[0]);
    reveal_strlit("EntityLexemeS");
    assert("PropQualValue"@[0] != "EntityLexemeS"@[0]);
    reveal_strlit("EntityUnknown");
    reveal_strlit("Property");
    reveal_strlit("PropertyDirect");
    reveal_strlit("PropDirectNorm");
    reveal_strlit("PropStatement");
    reveal_strlit("PropStatementValue");
    reveal_strlit("PropStatementValueNorm");
    reveal_strlit("PropRef");
    reveal_strlit("PropReferenceValue");
    reveal_strlit("PropReferenceValueNorm");
    reveal_strlit("PropQual");
    reveal_strlit("PropQualValueNorm");
    reveal_strlit("WikibaseOntology");
    reveal_strlit("SchemaOrg");
    reveal_strlit("W3Owl");
}

proof fn lemma_kind_prop_qual_value_norm()
    ensures
        layout_of_kind("PropQualValueNorm"@) == seq![TypePart::ShortText],
{
    reveal_strlit("PropQualValueNorm");
    reveal_strlit("Text");
    assert("PropQualValueNorm"@.len() != "Text"@.len());
    reveal_strlit("Url");
    assert("PropQualValueNorm"@.len() != "Url"@.len());
    reveal_strlit("Integer");
    assert("PropQualValueNorm"@.len() != "Integer"@.len());
    reveal_strlit("TextInLanguage");
    assert("PropQualValueNorm"@.len() != "TextInLanguage"@.len());
    reveal_strlit("WikiPage");
    assert("PropQualValueNorm"@.len() != "WikiPage"@.len());
    reveal_strlit("EntityItem");
    assert("PropQualValueNorm"@.len() != "EntityItem"@.len());
    reveal_strlit("EntityMedia");
    assert("PropQualValueNorm"@.len() != "EntityMedia"@.len());
    reveal_strlit("EntityLexeme");
    assert("PropQualValueNorm"@.len() != "EntityLexeme"@.len());
    reveal_strlit("EntityProp");
    assert("PropQualValueNorm"@.len() != "EntityProp"@.len());
    reveal_strlit("EntityLexemeF");
    assert("PropQualValueNorm"@.len() != "EntityLexemeF"@.len());
    reveal_strlit("EntityLexemeS");
    assert("PropQualValueNorm"@.len() != "EntityLexemeS"@.len());
    reveal_strlit("EntityUnknown");
    reveal_strlit("Property");
    reveal_strlit("PropertyDirect");
    reveal_strlit("PropDirectNorm");
    reveal_strlit("PropStatement");
    reveal_strlit("PropStatementValue");
    reveal_strlit("PropStatementValueNorm");
    reveal_strlit("PropRef");
    reveal_strlit("PropReferenceValue");
    reveal_strlit("PropReferenceValueNorm");
    reveal_strlit("PropQual");
    reveal_strlit("PropQualValue");
    reveal_strlit("WikibaseOntology");
    reveal_strlit("SchemaOrg");
    reveal_strlit("W3Owl");
}

proof fn lemma_kind_wikibase_ontology()
    ensures
        layout_of_kind("WikibaseOntology"@) == seq![TypePart::ShortText],
{
    reveal_strlit("WikibaseOntology");
    reveal_strlit("Text");
    assert("WikibaseOntology"@.len() != "Text"@.len());
    reveal_strlit("Url");
    assert("WikibaseOntology"@.len() != "Url"@.len());
    reveal_strlit("Integer");
    assert("WikibaseOntology"@.len() != "Integer"@.len());
    reveal_strlit("TextInLanguage");
    assert("WikibaseOntology"@.len() != "TextInLanguage"@.len());
    reveal_strlit("WikiPage");
    assert("WikibaseOntology"@.len() != "WikiPage"@.len());
    reveal_strlit("EntityItem");
    assert("WikibaseOntology"@.len() != "EntityItem"@.len());
    reveal_strlit("EntityMedia");
    assert("WikibaseOntology"@.len() != "EntityMedia"@.len());
    reveal_strlit("EntityLexeme");
    assert("WikibaseOntology"@.len() != "EntityLexeme"@.len());
    reveal_strlit("EntityProp");
    assert("WikibaseOntology"@.len() != "EntityProp"@.len());
    reveal_strlit("EntityLexemeF");
    assert("WikibaseOntology"@.len() != "EntityLexemeF"@.len());
    reveal_strlit("EntityLexemeS");
    assert("WikibaseOntology"@.len() != "EntityLexemeS"@.len());
    reveal_strlit("EntityUnknown");
    reveal_strlit("Property");
    reveal_strlit("PropertyDirect");
    reveal_strlit("PropDirectNorm");
    reveal_strlit("PropStatement");
    reveal_strlit("PropStatementValue");
    reveal_strlit("PropStatementValueNorm");
    reveal_strlit("PropRef");
    reveal_strlit("PropReferenceValue");
    reveal_strlit("PropReferenceValueNorm");
    reveal_strlit("PropQual");
    reveal_strlit("PropQualValue");
    reveal_strlit("PropQualValueNorm");
    reveal_strlit("SchemaOrg");
    reveal_strlit("W3Owl");
}

proof fn lemma_kind_schema_org()
    ensures
        layout_of_kind("SchemaOrg"@) == seq![TypePart::ShortText],
{
    reveal_strlit("SchemaOrg");
    reveal_strlit("Text");
    assert("SchemaOrg"@.len() != "Text"@.len());
    reveal_strlit("Url");
    assert("SchemaOrg"@.len() != "Url"@.len());
    reveal_strlit("Integer");
    assert("SchemaOrg"@.len() != "Integer"@.len());
    reveal_strlit("TextInLanguage");
    assert("SchemaOrg"@.len() != "TextInLanguage"@.len());
    reveal_strlit("WikiPage");
    assert("SchemaOrg"@.len() != "WikiPage"@.len());
    reveal_strlit("EntityItem");
    assert("SchemaOrg"@.len() != "EntityItem"@.len());
    reveal_strlit("EntityMedia");
    assert("SchemaOrg"@.len() != "EntityMedia"@.len());
    reveal_strlit("EntityLexeme");
    assert("SchemaOrg"@.len() != "EntityLexeme"@.len());
    reveal_strlit("EntityProp");
    assert("SchemaOrg"@.len() != "EntityProp"@.len());
    reveal_strlit("EntityLexemeF");
    assert("SchemaOrg"@.len() != "EntityLexemeF"@.len());
    reveal_strlit("EntityLexemeS");
    assert("SchemaOrg"@.len() != "EntityLexemeS"@.len());
    reveal_strlit("EntityUnknown");
    reveal_strlit("Property");
    reveal_strlit("PropertyDirect");
    reveal_strlit("PropDirectNorm");
    reveal_strlit("PropStatement");
    reveal_strlit("PropStatementValue");
    reveal_strlit("PropStatementValueNorm");
    reveal_strlit("PropRef");
    reveal_strlit("PropReferenceValue");
    reveal_strlit("PropReferenceValueNorm");
    reveal_strlit("PropQual");
    reveal_strlit("PropQualValue");
    reveal_strlit("PropQualValueNorm");
    reveal_strlit("WikibaseOntology");
    reveal_strlit("W3Owl");
}

proof fn lemma_kind_w3_owl()
    ensures
        layout_of_kind("W3Owl"@) == seq![TypePart::ShortText],
{
    reveal_strlit("W3Owl");
    reveal_strlit("Text");
    assert("W3Owl"@.len() != "Text"@.len());
    reveal_strlit("Url");
    assert("W3Owl"@.len() != "Url"@.len());
    reveal_strlit("Integer");
    assert("W3Owl"@.len() != "Integer"@.len());
    reveal_strlit("TextInLanguage");
    assert("W3Owl"@.len() != "TextInLanguage"@.len());
    reveal_strlit("WikiPage");
    assert("W3Owl"@.len() != "WikiPage"@.len());
    reveal_strlit("EntityItem");
    assert("W3Owl"@.len() != "EntityItem"@.len());
    reveal_strlit("EntityMedia");
    assert("W3Owl"@.len() != "EntityMedia"@.len());
    reveal_strlit("EntityLexeme");
    assert("W3Owl"@.len() != "EntityLexeme"@.len());
    reveal_strlit("EntityProp");
    assert("W3Owl"@.len() != "EntityProp"@.len());
    reveal_strlit("EntityLexemeF");
    assert("W3Owl"@.len() != "EntityLexemeF"@.len());
    reveal_strlit("EntityLexemeS");
    assert("W3Owl"@.len() != "EntityLexemeS"@.len());
    reveal_strlit("EntityUnknown");
    reveal_strlit("Property");
    reveal_strlit("PropertyDirect");
    reveal_strlit("PropDirectNorm");
    reveal_strlit("PropStatement");
    reveal_strlit("PropStatementValue");
    reveal_strlit("PropStatementValueNorm");
    reveal_strlit("PropRef");
    reveal_strlit("PropReferenceValue");
    reveal_strlit("PropReferenceValueNorm");
    reveal_strlit("PropQual");
    reveal_strlit("PropQualValue");
    reveal_strlit("PropQualValueNorm");
    reveal_strlit("WikibaseOntology");
    reveal_strlit("SchemaOrg");
}

proof fn lemma_kind_statement_entity_item()
    ensures
        layout_of_kind("StatementEntityItem"@) == seq![TypePart::U32, TypePart::UUID32],
{
    reveal_strlit("StatementEntityItem");
    reveal_strlit("Text");
    assert("StatementEntityItem"@.len() != "Text"@.len());
    reveal_strlit("Url");
    assert("StatementEntityItem"@.len() != "Url"@.len());
    reveal_strlit("Integer");
    assert("StatementEntityItem"@.len() != "Integer"@.len());
    reveal_strlit("TextInLanguage");
    assert("StatementEntityItem"@.len() != "TextInLanguage"@.len());
    reveal_strlit("WikiPage");
    assert("StatementEntityItem"@.len() != "WikiPage"@.len());
    reveal_strlit("EntityItem");
    assert("StatementEntityItem"@.len() != "EntityItem"@.len());
    reveal_strlit("EntityMedia");
    assert("StatementEntityItem"@.len() != "EntityMedia"@.len());
    reveal_strlit("EntityLexeme");
    assert("StatementEntityItem"@.len() != "EntityLexeme"@.len());
    reveal_strlit("EntityProp");
    assert("StatementEntityItem"@.len() != "EntityProp"@.len());
    reveal_strlit("EntityLexemeF");
    assert("StatementEntityItem"@.len() != "EntityLexemeF"@.len());
    reveal_strlit("EntityLexemeS");
    assert("StatementEntityItem"@.len() != "EntityLexemeS"@.len());
    reveal_strlit("EntityUnknown");
    assert("StatementEntityItem"@.len() != "EntityUnknown"@.len());
    reveal_strlit("Property");
    assert("StatementEntityItem"@.len() != "Property"@.len());
    reveal_strlit("PropertyDirect");
    assert("StatementEntityItem"@.len() != "PropertyDirect"@.len());
    reveal_strlit("PropDirectNorm");
    assert("StatementEntityItem"@.len() != "PropDirectNorm"@.len());
    reveal_strlit("PropStatement");
    assert("StatementEntityItem"@.len() != "PropStatement"@.len());
    reveal_strlit("PropStatementValue");
    assert("StatementEntityItem"@.len() != "PropStatementValue"@.len());
    reveal_strlit("PropStatementValueNorm");
    assert("StatementEntityItem"@.len() != "PropStatementValueNorm"@.len());
    reveal_strlit("PropRef");
    assert("StatementEntityItem"@.len() != "PropRef"@.len());
    reveal_strlit("PropReferenceValue");
    assert("StatementEntityItem"@.len() != "PropReferenceValue"@.len());
    reveal_strlit("PropReferenceValueNorm");
    assert("StatementEntityItem"@.len() != "PropReferenceValueNorm"@.len());
    reveal_strlit("PropQual");
    assert("StatementEntityItem"@.len() != "PropQual"@.len());
    reveal_strlit("PropQualValue");
    assert("StatementEntityItem"@.len() != "PropQualValue"@.len());
    reveal_strlit("PropQualValueNorm");
    assert("StatementEntityItem"@.len() != "PropQualValueNorm"@.len());
    reveal_strlit("WikibaseOntology");
    assert("StatementEntityItem"@.len() != "WikibaseOntology"@.len());
    reveal_strlit("SchemaOrg");
    assert("StatementEntityItem"@.len() != "SchemaOrg"@.len());
    reveal_strlit("W3Owl");
    assert("StatementEntityItem"@.len() != "W3Owl"@.len());
    reveal_strlit("StatementEntityMedia");
    reveal_strlit("StatementEntityLexeme");
}

proof fn lemma_kind_statement_entity_media()
    ensures
        layout_of_kind("StatementEntityMedia"@) == seq![TypePart::U32, TypePart::UUID32],
{
    reveal_strlit("StatementEntityMedia");
    reveal_strlit("Text");
    assert("StatementEntityMedia"@.len() != "Text"@.len());
    reveal_strlit("Url");
    assert("StatementEntityMedia"@.len() != "Url"@.len());
    reveal_strlit("Integer");
    assert("StatementEntityMedia"@.len() != "Integer"@.len());
    reveal_strlit("TextInLanguage");
    assert("StatementEntityMedia"@.len() != "TextInLanguage"@.len());
    reveal_strlit("WikiPage");
    assert("StatementEntityMedia"@.len() != "WikiPage"@.len());
    reveal_strlit("EntityItem");
    assert("StatementEntityMedia"@.len() != "EntityItem"@.len());
    reveal_strlit("EntityMedia");
    assert("StatementEntityMedia"@.len() != "EntityMedia"@.len());
    reveal_strlit("EntityLexeme");
    assert("StatementEntityMedia"@.len() != "EntityLexeme"@.len());
    reveal_strlit("EntityProp");
    assert("StatementEntityMedia"@.len() != "EntityProp"@.len());
    reveal_strlit("EntityLexemeF");
    assert("StatementEntityMedia"@.len() != "EntityLexemeF"@.len());
    reveal_strlit("EntityLexemeS");
    assert("StatementEntityMedia"@.len() != "EntityLexemeS"@.len());
    reveal_strlit("EntityUnknown");
    assert("StatementEntityMedia"@.len() != "EntityUnknown"@.len());
    reveal_strlit("Property");
    assert("StatementEntityMedia"@.len() != "Property"@.len());
    reveal_strlit("PropertyDirect");
    assert("StatementEntityMedia"@.len() != "PropertyDirect"@.len());
    reveal_strlit("PropDirectNorm");
    assert("StatementEntityMedia"@.len() != "PropDirectNorm"@.len());
    reveal_strlit("PropStatement");
    assert("StatementEntityMedia"@.len() != "PropStatement"@.len());
    reveal_strlit("PropStatementValue");
    assert("StatementEntityMedia"@.len() != "PropStatementValue"@.len());
    reveal_strlit("PropStatementValueNorm");
    assert("StatementEntityMedia"@.len() != "PropStatementValueNorm"@.len());
    reveal_strlit("PropRef");
    assert("StatementEntityMedia"@.len() != "PropRef"@.len());
    reveal_strlit("PropReferenceValue");
    assert("StatementEntityMedia"@.len() != "PropReferenceValue"@.len());
    reveal_strlit("PropReferenceValueNorm");
    assert("StatementEntityMedia"@.len() != "PropReferenceValueNorm"@.len());
    reveal_strlit("PropQual");
    assert("StatementEntityMedia"@.len() != "PropQual"@.len());
    reveal_strlit("PropQualValue");
    assert("StatementEntityMedia"@.len() != "PropQualValue"@.len());
    reveal_strlit("PropQualValueNorm");
    assert("StatementEntityMedia"@.len() != "PropQualValueNorm"@.len());
    reveal_strlit("WikibaseOntology");
    assert("StatementEntityMedia"@.len() != "WikibaseOntology"@.len());
    reveal_strlit("SchemaOrg");
    assert("StatementEntityMedia"@.len() != "SchemaOrg"@.len());
    reveal_strlit("W3Owl");
    assert("StatementEntityMedia"@.len() != "W3Owl"@.len());
    reveal_strlit("StatementEntityItem");
    reveal_strlit("StatementEntityLexeme");
}

proof fn lemma_kind_statement_entity_lexeme()
    ensures
        layout_of_kind("StatementEntityLexeme"@) == seq![TypePart::U32, TypePart::UUID32],
{
    reveal_strlit("StatementEntityLexeme");
    reveal_strlit("Text");
    assert("StatementEntityLexeme"@.len() != "Text"@.len());
    reveal_strlit("Url");
    assert("StatementEntityLexeme"@.len() != "Url"@.len());
    reveal_strlit("Integer");
    assert("StatementEntityLexeme"@.len() != "Integer"@.len());
    reveal_strlit("TextInLanguage");
    assert("StatementEntityLexeme"@.len() != "TextInLanguage"@.len());
    reveal_strlit("WikiPage");
    assert("StatementEntityLexeme"@.len() != "WikiPage"@.len());
    reveal_strlit("EntityItem");
    assert("StatementEntityLexeme"@.len() != "EntityItem"@.len());
    reveal_strlit("EntityMedia");
    assert("StatementEntityLexeme"@.len() != "EntityMedia"@.len());
    reveal_strlit("EntityLexeme");
    assert("StatementEntityLexeme"@.len() != "EntityLexeme"@.len());
    reveal_strlit("EntityProp");
    assert("StatementEntityLexeme"@.len() != "EntityProp"@.len());
    reveal_strlit("EntityLexemeF");
    assert("StatementEntityLexeme"@.len() != "EntityLexemeF"@.len());
    reveal_strlit("EntityLexemeS");
    assert("StatementEntityLexeme"@.len() != "EntityLexemeS"@.len());
    reveal_strlit("EntityUnknown");
    assert("StatementEntityLexeme"@.len() != "EntityUnknown"@.len());
    reveal_strlit("Property");
    assert("StatementEntityLexeme"@.len() != "Property"@.len());
    reveal_strlit("PropertyDirect");
    assert("StatementEntityLexeme"@.len() != "PropertyDirect"@.len());
    reveal_strlit("PropDirectNorm");
    assert("StatementEntityLexeme"@.len() != "PropDirectNorm"@.len());
    reveal_strlit("PropStatement");
    assert("StatementEntityLexeme"@.len() != "PropStatement"@.len());
    reveal_strlit("PropStatementValue");
    assert("StatementEntityLexeme"@.len() != "PropStatementValue"@.len());
    reveal_strlit("PropStatementValueNorm");
    assert("StatementEntityLexeme"@.len() != "PropStatementValueNorm"@.len());
    reveal_strlit("PropRef");
    assert("StatementEntityLexeme"@.len() != "PropRef"@.len());
    reveal_strlit("PropReferenceValue");
    assert("StatementEntityLexeme"@.len() != "PropReferenceValue"@.len());
    reveal_strlit("PropReferenceValueNorm");
    assert("StatementEntityLexeme"@.len() != "PropReferenceValueNorm"@.len());
    reveal_strlit("PropQual");
    assert("StatementEntityLexeme"@.len() != "PropQual"@.len());
    reveal_strlit("PropQualValue");
    assert("StatementEntityLexeme"@.len() != "PropQualValue"@.len());
    reveal_strlit("PropQualValueNorm");
    assert("StatementEntityLexeme"@.len() != "PropQualValueNorm"@.len());
    reveal_strlit("WikibaseOntology");
    assert("StatementEntityLexeme"@.len() != "WikibaseOntology"@.len());
    reveal_strlit("SchemaOrg");
    assert("StatementEntityLexeme"@.len() != "SchemaOrg"@.len());
    reveal_strlit("W3Owl");
    assert("StatementEntityLexeme"@.len() != "W3Owl"@.len());
    reveal_strlit("StatementEntityItem");
    reveal_strlit("StatementEntityMedia");
}

proof fn lemma_kind_statement_entity_prop()
    ensures
        layout_of_kind("StatementEntityProp"@) == seq![TypePart::U16, TypePart::UUID32],
{
    reveal_strlit("StatementEntityProp");
    reveal_strlit("Text");
    assert("StatementEntityProp"@.len() != "Text"@.len());
    reveal_strlit("Url");
    assert("StatementEntityProp"@.len() != "Url"@.len());
    reveal_strlit("Integer");
    assert("StatementEntityProp"@.len() != "Integer"@.len());
    reveal_strlit("TextInLanguage");
    assert("StatementEntityProp"@.len() != "TextInLanguage"@.len());
    reveal_strlit("WikiPage");
    assert("StatementEntityProp"@.len() != "WikiPage"@.len());
    reveal_strlit("EntityItem");
    assert("StatementEntityProp"@.len() != "EntityItem"@.len());
    reveal_strlit("EntityMedia");
    assert("StatementEntityProp"@.len() != "EntityMedia"@.len());
    reveal_strlit("EntityLexeme");
    assert("StatementEntityProp"@.len() != "EntityLexeme"@.len());
    reveal_strlit("EntityProp");
    assert("StatementEntityProp"@.len() != "EntityProp"@.len());
    reveal_strlit("EntityLexemeF");
    assert("StatementEntityProp"@.len() != "EntityLexemeF"@.len());
    reveal_strlit("EntityLexemeS");
    assert("StatementEntityProp"@.len() != "EntityLexemeS"@.len());
    reveal_strlit("EntityUnknown");
    assert("StatementEntityProp"@.len() != "EntityUnknown"@.len());
    reveal_strlit("Property");
    assert("StatementEntityProp"@.len() != "Property"@.len());
    reveal_strlit("PropertyDirect");
    assert("StatementEntityProp"@.len() != "PropertyDirect"@.len());
    reveal_strlit("PropDirectNorm");
    assert("StatementEntityProp"@.len() != "PropDirectNorm"@.len());
    reveal_strlit("PropStatement");
    assert("StatementEntityProp"@.len() != "PropStatement"@.len());
    reveal_strlit("PropStatementValue");
    assert("StatementEntityProp"@.len() != "PropStatementValue"@.len());
    reveal_strlit("PropStatementValueNorm");
    assert("StatementEntityProp"@.len() != "PropStatementValueNorm"@.len());
    reveal_strlit("PropRef");
    assert("StatementEntityProp"@.len() != "PropRef"@.len());
    reveal_strlit("PropReferenceValue");
    assert("StatementEntityProp"@.len() != "PropReferenceValue"@.len());
    reveal_strlit("PropReferenceValueNorm");
    assert("StatementEntityProp"@.len() != "PropReferenceValueNorm"@.len());
    reveal_strlit("PropQual");
    assert("StatementEntityProp"@.len() != "PropQual"@.len());
    reveal_strlit("PropQualValue");
    assert("StatementEntityProp"@.len() != "PropQualValue"@.len());
    reveal_strlit("PropQualValueNorm");
    assert("StatementEntityProp"@.len() != "PropQualValueNorm"@.len());
    reveal_strlit("WikibaseOntology");
    assert("StatementEntityProp"@.len() != "WikibaseOntology"@.len());
    reveal_strlit("SchemaOrg");
    assert("StatementEntityProp"@.len() != "SchemaOrg"@.len());
    reveal_strlit("W3Owl");
    assert("StatementEntityProp"@.len() != "W3Owl"@.len());
    reveal_strlit("StatementEntityItem");
    assert("StatementEntityProp"@[15] != "StatementEntityItem"@[15]);
    reveal_strlit("StatementEntityMedia");
    assert("StatementEntityProp"@.len() != "StatementEntityMedia"@.len());
    reveal_strlit("StatementEntityLexeme");
    assert("StatementEntityProp"@.len() != "StatementEntityLexeme"@.len());
}

proof fn lemma_kind_statement_entity_lexeme_f()
    ensures
        layout_of_kind("StatementEntityLexemeF"@) == seq![TypePart::U32, TypePart::U8, TypePart::UUID32],
{
    reveal_strlit("StatementEntityLexemeF");
    reveal_strlit("Text");
    assert("StatementEntityLexemeF"@.len() != "Text"@.len());
    reveal_strlit("Url");
    assert("StatementEntityLexemeF"@.len() != "Url"@.len());
    reveal_strlit("Integer");
    assert("StatementEntityLexemeF"@.len() != "Integer"@.len());
    reveal_strlit("TextInLanguage");
    assert("StatementEntityLexemeF"@.len() != "TextInLanguage"@.len());
    reveal_strlit("WikiPage");
    assert("StatementEntityLexemeF"@.len() != "WikiPage"@.len());
    reveal_strlit("EntityItem");
    assert("StatementEntityLexemeF"@.len() != "EntityItem"@.len());
    reveal_strlit("EntityMedia");
    assert("StatementEntityLexemeF"@.len() != "EntityMedia"@.len());
    reveal_strlit("EntityLexeme");
    assert("StatementEntityLexemeF"@.len() != "EntityLexeme"@.len());
    reveal_strlit("EntityProp");
    assert("StatementEntityLexemeF"@.len() != "EntityProp"@.len());
    reveal_strlit("EntityLexemeF");
    assert("StatementEntityLexemeF"@.len() != "EntityLexemeF"@.len());
    reveal_strlit("EntityLexemeS");
    assert("StatementEntityLexemeF"@.len() != "EntityLexemeS"@.len());
    reveal_strlit("EntityUnknown");
    assert("StatementEntityLexemeF"@.len() != "EntityUnknown"@.len());
    reveal_strlit("Property");
    assert("StatementEntityLexemeF"@.len() != "Property"@.len());
    reveal_strlit("PropertyDirect");
    assert("StatementEntityLexemeF"@.len() != "PropertyDirect"@.len());
    reveal_strlit("PropDirectNorm");
    assert("StatementEntityLexemeF"@.len() != "PropDirectNorm"@.len());
    reveal_strlit("PropStatement");
    assert("StatementEntityLexemeF"@.len() != "PropStatement"@.len());
    reveal_strlit("PropStatementValue");
    assert("StatementEntityLexemeF"@.len() != "PropStatementValue"@.len());
    reveal_strlit("PropStatementValueNorm");
    assert("StatementEntityLexemeF"@[0] != "PropStatementValueNorm"@[0]);
    reveal_strlit("PropRef");
    assert("StatementEntityLexemeF"@.len() != "PropRef"@.len());
    reveal_strlit("PropReferenceValue");
    assert("StatementEntityLexemeF"@.len() != "PropReferenceValue"@.len());
    reveal_strlit("PropReferenceValueNorm");
    assert("StatementEntityLexemeF"@[0] != "PropReferenceValueNorm"@[0]);
    reveal_strlit("PropQual");
    assert("StatementEntityLexemeF"@.len() != "PropQual"@.len());
    reveal_strlit("PropQualValue");
    assert("StatementEntityLexemeF"@.len() != "PropQualValue"@.len());
    reveal_strlit("PropQualValueNorm");
    assert("StatementEntityLexemeF"@.len() != "PropQualValueNorm"@.len());
    reveal_strlit("WikibaseOntology");
    assert("StatementEntityLexemeF"@.len() != "WikibaseOntology"@.len());
    reveal_strlit("SchemaOrg");
    assert("StatementEntityLexemeF"@.len() != "SchemaOrg"@.len());
    reveal_strlit("W3Owl");
    assert("StatementEntityLexemeF"@.len() != "W3Owl"@.len());
    reveal_strlit("StatementEntityItem");
    assert("StatementEntityLexemeF"@.len() != "StatementEntityItem"@.len());
    reveal_strlit("StatementEntityMedia");
    assert("StatementEntityLexemeF"@.len() != "StatementEntityMedia"@.len());
    reveal_strlit("StatementEntityLexeme");
    assert("StatementEntityLexemeF"@.len() != "StatementEntityLexeme"@.len());
    reveal_strlit("StatementEntityProp");
    assert("StatementEntityLexemeF"@.len() != "StatementEntityProp"@.len());
    reveal_strlit("StatementEntityLexemeS");
}

proof fn lemma_kind_statement_entity_lexeme_s()
    ensures
        layout_of_kind("StatementEntityLexemeS"@) == seq![TypePart::U32, TypePart::U8, TypePart::UUID32],
{
    reveal_strlit("StatementEntityLexemeS");
    reveal_strlit("Text");
    assert("StatementEntityLexemeS"@.len() != "Text"@.len());
    reveal_strlit("Url");
    assert("StatementEntityLexemeS"@.len() != "Url"@.len());
    reveal_strlit("Integer");
    assert("StatementEntityLexemeS"@.len() != "Integer"@.len());
    reveal_strlit("TextInLanguage");
    assert("StatementEntityLexemeS"@.len() != "TextInLanguage"@.len());
    reveal_strlit("WikiPage");
    assert("StatementEntityLexemeS"@.len() != "WikiPage"@.len());
    reveal_strlit("EntityItem");
    assert("StatementEntityLexemeS"@.len() != "EntityItem"@.len());
    reveal_strlit("EntityMedia");
    assert("StatementEntityLexemeS"@.len() != "EntityMedia"@.len());
    reveal_strlit("EntityLexeme");
    assert("StatementEntityLexemeS"@.len() != "EntityLexeme"@.len());
    reveal_strlit("EntityProp");
    assert("StatementEntityLexemeS"@.len() != "EntityProp"@.len());
    reveal_strlit("EntityLexemeF");
    assert("StatementEntityLexemeS"@.len() != "EntityLexemeF"@.len());
    reveal_strlit("EntityLexemeS");
    assert("StatementEntityLexemeS"@.len() != "EntityLexemeS"@.len());
    reveal_strlit("EntityUnknown");
    assert("StatementEntityLexemeS"@.len() != "EntityUnknown"@.len());
    reveal_strlit("Property");
    assert("StatementEntityLexemeS"@.len() != "Property"@.len());
    reveal_strlit("PropertyDirect");
    assert("StatementEntityLexemeS"@.len() != "PropertyDirect"@.len());
    reveal_strlit("PropDirectNorm");
    assert("StatementEntityLexemeS"@.len() != "PropDirectNorm"@.len());
    reveal_strlit("PropStatement");
    assert("StatementEntityLexemeS"@.len() != "PropStatement"@.len());
    reveal_strlit("PropStatementValue");
    assert("StatementEntityLexemeS"@.len() != "PropStatementValue"@.len());
    reveal_strlit("PropStatementValueNorm");
    assert("StatementEntityLexemeS"@[0] != "PropStatementValueNorm"@[0]);
    reveal_strlit("PropRef");
    assert("StatementEntityLexemeS"@.len() != "PropRef"@.len());
    reveal_strlit("PropReferenceValue");
    assert("StatementEntityLexemeS"@.len() != "PropReferenceValue"@.len());
    reveal_strlit("PropReferenceValueNorm");
    assert("StatementEntityLexemeS"@[0] != "PropReferenceValueNorm"@[0]);
    reveal_strlit("PropQual");
    assert("StatementEntityLexemeS"@.len() != "PropQual"@.len());
    reveal_strlit("PropQualValue");
    assert("StatementEntityLexemeS"@.len() != "PropQualValue"@.len());
    reveal_strlit("PropQualValueNorm");
    assert("StatementEntityLexemeS"@.len() != "PropQualValueNorm"@.len());
    reveal_strlit("WikibaseOntology");
    assert("StatementEntityLexemeS"@.len() != "WikibaseOntology"@.len());
    reveal_strlit("SchemaOrg");
    assert("StatementEntityLexemeS"@.len() != "SchemaOrg"@.len());
    reveal_strlit("W3Owl");
    assert("StatementEntityLexemeS"@.len() != "W3Owl"@.len());
    reveal_strlit("StatementEntityItem");
    assert("StatementEntityLexemeS"@.len() != "StatementEntityItem"@.len());
    reveal_strlit("StatementEntityMedia");
    assert("StatementEntityLexemeS"@.len() != "StatementEntityMedia"@.len());
    reveal_strlit("StatementEntityLexeme");
    assert("StatementEntityLexemeS"@.len() != "StatementEntityLexeme"@.len());
    reveal_strlit("StatementEntityProp");
    assert("StatementEntityLexemeS"@.len() != "StatementEntityProp"@.len());
    reveal_strlit("StatementEntityLexemeF");
}

proof fn lemma_kind_statement_entity_unknown()
    ensures
        layout_of_kind("StatementEntityUnknown"@) == seq![TypePart::ShortText, TypePart::UUID32],
{
    reveal_strlit("StatementEntityUnknown");
    reveal_strlit("Text");
    assert("StatementEntityUnknown"@.len() != "Text"@.len());
    reveal_strlit("Url");
    assert("StatementEntityUnknown"@.len() != "Url"@.len());
    reveal_strlit("Integer");
    assert("StatementEntityUnknown"@.len() != "Integer"@.len());
    reveal_strlit("TextInLanguage");
    assert("StatementEntityUnknown"@.len() != "TextInLanguage"@.len());
    reveal_strlit("WikiPage");
    assert("StatementEntityUnknown"@.len() != "WikiPage"@.len());
    reveal_strlit("EntityItem");
    assert("StatementEntityUnknown"@.len() != "EntityItem"@.len());
    reveal_strlit("EntityMedia");
    assert("StatementEntityUnknown"@.len() != "EntityMedia"@.len());
    reveal_strlit("EntityLexeme");
    assert("StatementEntityUnknown"@.len() != "EntityLexeme"@.len());
    reveal_strlit("EntityProp");
    assert("StatementEntityUnknown"@.len() != "EntityProp"@.len());
    reveal_strlit("EntityLexemeF");
    assert("StatementEntityUnknown"@.len() != "EntityLexemeF"@.len());
    reveal_strlit("EntityLexemeS");
    assert("StatementEntityUnknown"@.len() != "EntityLexemeS"@.len());
    reveal_strlit("EntityUnknown");
    assert("StatementEntityUnknown"@.len() != "EntityUnknown"@.len());
    reveal_strlit("Property");
    assert("StatementEntityUnknown"@.len() != "Property"@.len());
    reveal_strlit("PropertyDirect");
    assert("StatementEntityUnknown"@.len() != "PropertyDirect"@.len());
    reveal_strlit("PropDirectNorm");
    assert("StatementEntityUnknown"@.len() != "PropDirectNorm"@.len());
    reveal_strlit("PropStatement");
    assert("StatementEntityUnknown"@.len() != "PropStatement"@.len());
    reveal_strlit("PropStatementValue");
    assert("StatementEntityUnknown"@.len() != "PropStatementValue"@.len());
    reveal_strlit("PropStatementValueNorm");
    assert("StatementEntityUnknown"@[0] != "PropStatementValueNorm"@[0]);
    reveal_strlit("PropRef");
    assert("StatementEntityUnknown"@.len() != "PropRef"@.len());
    reveal_strlit("PropReferenceValue");
    assert("StatementEntityUnknown"@.len() != "PropReferenceValue"@.len());
    reveal_strlit("PropReferenceValueNorm");
    assert("StatementEntityUnknown"@[0] != "PropReferenceValueNorm"@[0]);
    reveal_strlit("PropQual");
    assert("StatementEntityUnknown"@.len() != "PropQual"@.len());
    reveal_strlit("PropQualValue");
    assert("StatementEntityUnknown"@.len() != "PropQualValue"@.len());
    reveal_strlit("PropQualValueNorm");
    assert("StatementEntityUnknown"@.len() != "PropQualValueNorm"@.len());
    reveal_strlit("WikibaseOntology");
    assert("StatementEntityUnknown"@.len() != "WikibaseOntology"@.len());
    reveal_strlit("SchemaOrg");
    assert("StatementEntityUnknown"@.len() != "SchemaOrg"@.len());
    reveal_strlit("W3Owl");
    assert("StatementEntityUnknown"@.len() != "W3Owl"@.len());
    reveal_strlit("StatementEntityItem");
    assert("StatementEntityUnknown"@.len() != "StatementEntityItem"@.len());
    reveal_strlit("StatementEntityMedia");
    assert("StatementEntityUnknown"@.len() != "StatementEntityMedia"@.len());
    reveal_strlit("StatementEntityLexeme");
    assert("StatementEntityUnknown"@.len() != "StatementEntityLexeme"@.len());
    reveal_strlit("StatementEntityProp");
    assert("StatementEntityUnknown"@.len() != "StatementEntityProp"@.len());
    reveal_strlit("StatementEntityLexemeF");
    assert("StatementEntityUnknown"@[15] != "StatementEntityLexemeF"@[15]);
    reveal_strlit("StatementEntityLexemeS");
    assert("StatementEntityUnknown"@[15] != "StatementEntityLexemeS"@[15]);
}

proof fn lemma_kind_reference()
    ensures
        layout_of_kind("Reference"@) == seq![TypePart::UUID40],
{
    reveal_strlit("Reference");
    reveal_strlit("Text");
    assert("Reference"@.len() != "Text"@.len());
    reveal_strlit("Url");
    assert("Reference"@.len() != "Url"@.len());
    reveal_strlit("Integer");
    assert("Reference"@.len() != "Integer"@.len());
    reveal_strlit("TextInLanguage");
    assert("Reference"@.len() != "TextInLanguage"@.len());
    reveal_strlit("WikiPage");
    assert("Reference"@.len() != "WikiPage"@.len());
    reveal_strlit("EntityItem");
    assert("Reference"@.len() != "EntityItem"@.len());
    reveal_strlit("EntityMedia");
    assert("Reference"@.len() != "EntityMedia"@.len());
    reveal_strlit("EntityLexeme");
    assert("Reference"@.len() != "EntityLexeme"@.len());
    reveal_strlit("EntityProp");
    assert("Reference"@.len() != "EntityProp"@.len());
    reveal_strlit("EntityLexemeF");
    assert("Reference"@.len() != "EntityLexemeF"@.len());
    reveal_strlit("EntityLexemeS");
    assert("Reference"@.len() != "EntityLexemeS"@.len());
    reveal_strlit("EntityUnknown");
    assert("Reference"@.len() != "EntityUnknown"@.len());
    reveal_strlit("Property");
    assert("Reference"@.len() != "Property"@.len());
    reveal_strlit("PropertyDirect");
    assert("Reference"@.len() != "PropertyDirect"@.len());
    reveal_strlit("PropDirectNorm");
    assert("Reference"@.len() != "PropDirectNorm"@.len());
    reveal_strlit("PropStatement");
    assert("Reference"@.len() != "PropStatement"@.len());
    reveal_strlit("PropStatementValue");
    assert("Reference"@.len() != "PropStatementValue"@.len());
    reveal_strlit("PropStatementValueNorm");
    assert("Reference"@.len() != "PropStatementValueNorm"@.len());
    reveal_strlit("PropRef");
    assert("Reference"@.len() != "PropRef"@.len());
    reveal_strlit("PropReferenceValue");
    assert("Reference"@.len() != "PropReferenceValue"@.len());
    reveal_strlit("PropReferenceValueNorm");
    assert("Reference"@.len() != "PropReferenceValueNorm"@.len());
    reveal_strlit("PropQual");
    assert("Reference"@.len() != "PropQual"@.len());
    reveal_strlit("PropQualValue");
    assert("Reference"@.len() != "PropQualValue"@.len());
    reveal_strlit("PropQualValueNorm");
    assert("Reference"@.len() != "PropQualValueNorm"@.len());
    reveal_strlit("WikibaseOntology");
    assert("Reference"@.len() != "WikibaseOntology"@.len());
    reveal_strlit("SchemaOrg");
    assert("Reference"@[0] != "SchemaOrg"@[0]);
    reveal_strlit("W3Owl");
    assert("Reference"@.len() != "W3Owl"@.len());
    reveal_strlit("StatementEntityItem");
    assert("Reference"@.len() != "StatementEntityItem"@.len());
    reveal_strlit("StatementEntityMedia");
    assert("Reference"@.len() != "StatementEntityMedia"@.len());
    reveal_strlit("StatementEntityLexeme");
    assert("Reference"@.len() != "StatementEntityLexeme"@.len());
    reveal_strlit("StatementEntityProp");
    assert("Reference"@.len() != "StatementEntityProp"@.len());
    reveal_strlit("StatementEntityLexemeF");
    assert("Reference"@.len() != "StatementEntityLexemeF"@.len());
    reveal_strlit("StatementEntityLexemeS");
    assert("Reference"@.len() != "StatementEntityLexemeS"@.len());
    reveal_strlit("StatementEntityUnknown");
    assert("Reference"@.len() != "StatementEntityUnknown"@.len());
}

proof fn lemma_kind_value()
    ensures
        layout_of_kind("Value"@) == seq![TypePart::UUID32],
{
    reveal_strlit("Value");
    reveal_strlit("Text");
    assert("Value"@.len() != "Text"@.len());
    reveal_strlit("Url");
    assert("Value"@.len() != "Url"@.len());
    reveal_strlit("Integer");
    assert("Value"@.len() != "Integer"@.len());
    reveal_strlit("TextInLanguage");
    assert("Value"@.len() != "TextInLanguage"@.len());
    reveal_strlit("WikiPage");
    assert("Value"@.len() != "WikiPage"@.len());
    reveal_strlit("EntityItem");
    assert("Value"@.len() != "EntityItem"@.len());
    reveal_strlit("EntityMedia");
    assert("Value"@.len() != "EntityMedia"@.len());
    reveal_strlit("EntityLexeme");
    assert("Value"@.len() != "EntityLexeme"@.len());
    reveal_strlit("EntityProp");
    assert("Value"@.len() != "EntityProp"@.len());
    reveal_strlit("EntityLexemeF");
    assert("Value"@.len() != "EntityLexemeF"@.len());
    reveal_strlit("EntityLexemeS");
    assert("Value"@.len() != "EntityLexemeS"@.len());
    reveal_strlit("EntityUnknown");
    assert("Value"@.len() != "EntityUnknown"@.len());
    reveal_strlit("Property");
    assert("Value"@.len() != "Property"@.len());
    reveal_strlit("PropertyDirect");
    assert("Value"@.len() != "PropertyDirect"@.len());
    reveal_strlit("PropDirectNorm");
    assert("Value"@.len() != "PropDirectNorm"@.len());
    reveal_strlit("PropStatement");
    assert("Value"@.len() != "PropStatement"@.len());
    reveal_strlit("PropStatementValue");
    assert("Value"@.len() != "PropStatementValue"@.len());
    reveal_strlit("PropStatementValueNorm");
    assert("Value"@.len() != "PropStatementValueNorm"@.len());
    reveal_strlit("PropRef");
    assert("Value"@.len() != "PropRef"@.len());
    reveal_strlit("PropReferenceValue");
    assert("Value"@.len() != "PropReferenceValue"@.len());
    reveal_strlit("PropReferenceValueNorm");
    assert("Value"@.len() != "PropReferenceValueNorm"@.len());
    reveal_strlit("PropQual");
    assert("Value"@.len() != "PropQual"@.len());
    reveal_strlit("PropQualValue");
    assert("Value"@.len() != "PropQualValue"@.len());
    reveal_strlit("PropQualValueNorm");
    assert("Value"@.len() != "PropQualValueNorm"@.len());
    reveal_strlit("WikibaseOntology");
    assert("Value"@.len() != "WikibaseOntology"@.len());
    reveal_strlit("SchemaOrg");
    assert("Value"@.len() != "SchemaOrg"@.len());
    reveal_strlit("W3Owl");
    assert("Value"@[0] != "W3Owl"@[0]);
    reveal_strlit("StatementEntityItem");
    assert("Value"@.len() != "StatementEntityItem"@.len());
    reveal_strlit("StatementEntityMedia");
    assert("Value"@.len() != "StatementEntityMedia"@.len());
    reveal_strlit("StatementEntityLexeme");
    assert("Value"@.len() != "StatementEntityLexeme"@.len());
    reveal_strlit("StatementEntityProp");
    assert("Value"@.len() != "StatementEntityProp"@.len());
    reveal_strlit("StatementEntityLexemeF");
    assert("Value"@.len() != "StatementEntityLexemeF"@.len());
    reveal_strlit("StatementEntityLexemeS");
    assert("Value"@.len() != "StatementEntityLexemeS"@.len());
    reveal_strlit("StatementEntityUnknown");
    assert("Value"@.len() != "StatementEntityUnknown"@.len());
    reveal_strlit("Reference");
    assert("Value"@.len() != "Reference"@.len());
}

proof fn lemma_kind_date_time()
    ensures
        layout_of_kind("DateTime"@) == seq![TypePart::I16, TypePart::U8, TypePart::U8, TypePart::U8, TypePart::U8, TypePart::U8],
{
    reveal_strlit("DateTime");
    reveal_strlit("Text");
    assert("DateTime"@.len() != "Text"@.len());
    reveal_strlit("Url");
    assert("DateTime"@.len() != "Url"@.len());
    reveal_strlit("Integer");
    assert("DateTime"@.len() != "Integer"@.len());
    reveal_strlit("TextInLanguage");
    assert("DateTime"@.len() != "TextInLanguage"@.len());
    reveal_strlit("WikiPage");
    assert("DateTime"@[0] != "WikiPage"@[0]);
    reveal_strlit("EntityItem");
    assert("DateTime"@.len() != "EntityItem"@.len());
    reveal_strlit("EntityMedia");
    assert("DateTime"@.len() != "EntityMedia"@.len());
    reveal_strlit("EntityLexeme");
    assert("DateTime"@.len() != "EntityLexeme"@.len());
    reveal_strlit("EntityProp");
    assert("DateTime"@.len() != "EntityProp"@.len());
    reveal_strlit("EntityLexemeF");
    assert("DateTime"@.len() != "EntityLexemeF"@.len());
    reveal_strlit("EntityLexemeS");
    assert("DateTime"@.len() != "EntityLexemeS"@.len());
    reveal_strlit("EntityUnknown");
    assert("DateTime"@.len() != "EntityUnknown"@.len());
    reveal_strlit("Property");
    assert("DateTime"@[0] != "Property"@[0]);
    reveal_strlit("PropertyDirect");
    assert("DateTime"@.len() != "PropertyDirect"@.len());
    reveal_strlit("PropDirectNorm");
    assert("DateTime"@.len() != "PropDirectNorm"@.len());
    reveal_strlit("PropStatement");
    assert("DateTime"@.len() != "PropStatement"@.len());
    reveal_strlit("PropStatementValue");
    assert("DateTime"@.len() != "PropStatementValue"@.len());
    reveal_strlit("PropStatementValueNorm");
    assert("DateTime"@.len() != "PropStatementValueNorm"@.len());
    reveal_strlit("PropRef");
    assert("DateTime"@.len() != "PropRef"@.len());
    reveal_strlit("PropReferenceValue");
    assert("DateTime"@.len() != "PropReferenceValue"@.len());
    reveal_strlit("PropReferenceValueNorm");
    assert("DateTime"@.len() != "PropReferenceValueNorm"@.len());
    reveal_strlit("PropQual");
    assert("DateTime"@[0] != "PropQual"@[0]);
    reveal_strlit("PropQualValue");
    assert("DateTime"@.len() != "PropQualValue"@.len());
    reveal_strlit("PropQualValueNorm");
    assert("DateTime"@.len() != "PropQualValueNorm"@.len());
    reveal_strlit("WikibaseOntology");
    assert("DateTime"@.len() != "WikibaseOntology"@.len());
    reveal_strlit("SchemaOrg");
    assert("DateTime"@.len() != "SchemaOrg"@.len());
    reveal_strlit("W3Owl");
    assert("DateTime"@.len() != "W3Owl"@.len());
    reveal_strlit("StatementEntityItem");
    assert("DateTime"@.len() != "StatementEntityItem"@.len());
    reveal_strlit("StatementEntityMedia");
    assert("DateTime"@.len() != "StatementEntityMedia"@.len());
    reveal_strlit("StatementEntityLexeme");
    assert("DateTime"@.len() != "StatementEntityLexeme"@.len());
    reveal_strlit("StatementEntityProp");
    assert("DateTime"@.len() != "StatementEntityProp"@.len());
    reveal_strlit("StatementEntityLexemeF");
    assert("DateTime"@.len() != "StatementEntityLexemeF"@.len());
    reveal_strlit("StatementEntityLexemeS");
    assert("DateTime"@.len() != "StatementEntityLexemeS"@.len());
    reveal_strlit("StatementEntityUnknown");
    assert("DateTime"@.len() != "StatementEntityUnknown"@.len());
    reveal_strlit("Reference");
    assert("DateTime"@.len() != "Reference"@.len());
    reveal_strlit("Value");
    assert("DateTime"@.len() != "Value"@.len());
}

proof fn lemma_kind_lat_lon()
    ensures
        layout_of_kind("LatLon"@) == seq![TypePart::Point, TypePart::U32],
{
    reveal_strlit("LatLon");
    reveal_strlit("Text");
    assert("LatLon"@.len() != "Text"@.len());
    reveal_strlit("Url");
    assert("LatLon"@.len() != "Url"@.len());
    reveal_strlit("Integer");
    assert("LatLon"@.len() != "Integer"@.len());
    reveal_strlit("TextInLanguage");
    assert("LatLon"@.len() != "TextInLanguage"@.len());
    reveal_strlit("WikiPage");
    assert("LatLon"@.len() != "WikiPage"@.len());
    reveal_strlit("EntityItem");
    assert("LatLon"@.len() != "EntityItem"@.len());
    reveal_strlit("EntityMedia");
    assert("LatLon"@.len() != "EntityMedia"@.len());
    reveal_strlit("EntityLexeme");
    assert("LatLon"@.len() != "EntityLexeme"@.len());
    reveal_strlit("EntityProp");
    assert("LatLon"@.len() != "EntityProp"@.len());
    reveal_strlit("EntityLexemeF");
    assert("LatLon"@.len() != "EntityLexemeF"@.len());
    reveal_strlit("EntityLexemeS");
    assert("LatLon"@.len() != "EntityLexemeS"@.len());
    reveal_strlit("EntityUnknown");
    assert("LatLon"@.len() != "EntityUnknown"@.len());
    reveal_strlit("Property");
    assert("LatLon"@.len() != "Property"@.len());
    reveal_strlit("PropertyDirect");
    assert("LatLon"@.len() != "PropertyDirect"@.len());
    reveal_strlit("PropDirectNorm");
    assert("LatLon"@.len() != "PropDirectNorm"@.len());
    reveal_strlit("PropStatement");
    assert("LatLon"@.len() != "PropStatement"@.len());
    reveal_strlit("PropStatementValue");
    assert("LatLon"@.len() != "PropStatementValue"@.len());
    reveal_strlit("PropStatementValueNorm");
    assert("LatLon"@.len() != "PropStatementValueNorm"@.len());
    reveal_strlit("PropRef");
    assert("LatLon"@.len() != "PropRef"@.len());
    reveal_strlit("PropReferenceValue");
    assert("LatLon"@.len() != "PropReferenceValue"@.len());
    reveal_strlit("PropReferenceValueNorm");
    assert("LatLon"@.len() != "PropReferenceValueNorm"@.len());
    reveal_strlit("PropQual");
    assert("LatLon"@.len() != "PropQual"@.len());
    reveal_strlit("PropQualValue");
    assert("LatLon"@.len() != "PropQualValue"@.len());
    reveal_strlit("PropQualValueNorm");
    assert("LatLon"@.len() != "PropQualValueNorm"@.len());
    reveal_strlit("WikibaseOntology");
    assert("LatLon"@.len() != "WikibaseOntology"@.len());
    reveal_strlit("SchemaOrg");
    assert("LatLon"@.len() != "SchemaOrg"@.len());
    reveal_strlit("W3Owl");
    assert("LatLon"@.len() != "W3Owl"@.len());
    reveal_strlit("StatementEntityItem");
    assert("LatLon"@.len() != "StatementEntityItem"@.len());
    reveal_strlit("StatementEntityMedia");
    assert("LatLon"@.len() != "StatementEntityMedia"@.len());
    reveal_strlit("StatementEntityLexeme");
    assert("LatLon"@.len() != "StatementEntityLexeme"@.len());
    reveal_strlit("StatementEntityProp");
    assert("LatLon"@.len() != "StatementEntityProp"@.len());
    reveal_strlit("StatementEntityLexemeF");
    assert("LatLon"@.len() != "StatementEntityLexemeF"@.len());
    reveal_strlit("StatementEntityLexemeS");
    assert("LatLon"@.len() != "StatementEntityLexemeS"@.len());
    reveal_strlit("StatementEntityUnknown");
    assert("LatLon"@.len() != "StatementEntityUnknown"@.len());
    reveal_strlit("Reference");
    assert("LatLon"@.len() != "Reference"@.len());
    reveal_strlit("Value");
    assert("LatLon"@.len() != "Value"@.len());
    reveal_strlit("DateTime");
    assert("LatLon"@.len() != "DateTime"@.len());
}

proof fn lemma_kind_decimal()
    ensures
        layout_of_kind("Decimal"@) == seq![TypePart::Float],
{
    reveal_strlit("Decimal");
    reveal_strlit("Text");
    assert("Decimal"@.len() != "Text"@.len());
    reveal_strlit("Url");
    assert("Decimal"@.len() != "Url"@.len());
    reveal_strlit("Integer");
    assert("Decimal"@[0] != "Integer"@[0]);
    reveal_strlit("TextInLanguage");
    assert("Decimal"@.len() != "TextInLanguage"@.len());
    reveal_strlit("WikiPage");
    assert("Decimal"@.len() != "WikiPage"@.len());
    reveal_strlit("EntityItem");
    assert("Decimal"@.len() != "EntityItem"@.len());
    reveal_strlit("EntityMedia");
    assert("Decimal"@.len() != "EntityMedia"@.len());
    reveal_strlit("EntityLexeme");
    assert("Decimal"@.len() != "EntityLexeme"@.len());
    reveal_strlit("EntityProp");
    assert("Decimal"@.len() != "EntityProp"@.len());
    reveal_strlit("EntityLexemeF");
    assert("Decimal"@.len() != "EntityLexemeF"@.len());
    reveal_strlit("EntityLexemeS");
    assert("Decimal"@.len() != "EntityLexemeS"@.len());
    reveal_strlit("EntityUnknown");
    assert("Decimal"@.len() != "EntityUnknown"@.len());
    reveal_strlit("Property");
    assert("Decimal"@.len() != "Property"@.len());
    reveal_strlit("PropertyDirect");
    assert("Decimal"@.len() != "PropertyDirect"@.len());
    reveal_strlit("PropDirectNorm");
    assert("Decimal"@.len() != "PropDirectNorm"@.len());
    reveal_strlit("PropStatement");
    assert("Decimal"@.len() != "PropStatement"@.len());
    reveal_strlit("PropStatementValue");
    assert("Decimal"@.len() != "PropStatementValue"@.len());
    reveal_strlit("PropStatementValueNorm");
    assert("Decimal"@.len() != "PropStatementValueNorm"@.len());
    reveal_strlit("PropRef");
    assert("Decimal"@[0] != "PropRef"@[0]);
    reveal_strlit("PropReferenceValue");
    assert("Decimal"@.len() != "PropReferenceValue"@.len());
    reveal_strlit("PropReferenceValueNorm");
    assert("Decimal"@.len() != "PropReferenceValueNorm"@.len());
    reveal_strlit("PropQual");
    assert("Decimal"@.len() != "PropQual"@.len());
    reveal_strlit("PropQualValue");
    assert("Decimal"@.len() != "PropQualValue"@.len());
    reveal_strlit("PropQualValueNorm");
    assert("Decimal"@.len() != "PropQualValueNorm"@.len());
    reveal_strlit("WikibaseOntology");
    assert("Decimal"@.len() != "WikibaseOntology"@.len());
    reveal_strlit("SchemaOrg");
    assert("Decimal"@.len() != "SchemaOrg"@.len());
    reveal_strlit("W3Owl");
    assert("Decimal"@.len() != "W3Owl"@.len());
    reveal_strlit("StatementEntityItem");
    assert("Decimal"@.len() != "StatementEntityItem"@.len());
    reveal_strlit("StatementEntityMedia");
    assert("Decimal"@.len() != "StatementEntityMedia"@.len());
    reveal_strlit("StatementEntityLexeme");
    assert("Decimal"@.len() != "StatementEntityLexeme"@.len());
    reveal_strlit("StatementEntityProp");
    assert("Decimal"@.len() != "StatementEntityProp"@.len());
    reveal_strlit("StatementEntityLexemeF");
    assert("Decimal"@.len() != "StatementEntityLexemeF"@.len());
    reveal_strlit("StatementEntityLexemeS");
    assert("Decimal"@.len() != "StatementEntityLexemeS"@.len());
    reveal_strlit("StatementEntityUnknown");
    assert("Decimal"@.len() != "StatementEntityUnknown"@.len());
    reveal_strlit("Reference");
    assert("Decimal"@.len() != "Reference"@.len());
    reveal_strlit("Value");
    assert("Decimal"@.len() != "Value"@.len());
    reveal_strlit("DateTime");
    assert("Decimal"@.len() != "DateTime"@.len());
    reveal_strlit("LatLon");
    assert("Decimal"@.len() != "LatLon"@.len());
}

proof fn lemma_kind_rdf_schema_label()
    ensures
        layout_of_kind("RdfSchemaLabel"@) == seq![TypePart::Blank],
{
    reveal_strlit("RdfSchemaLabel");
    reveal_strlit("Text");
    assert("RdfSchemaLabel"@.len() != "Text"@.len());
    reveal_strlit("Url");
    assert("RdfSchemaLabel"@.len() != "Url"@.len());
    reveal_strlit("Integer");
    assert("RdfSchemaLabel"@.len() != "Integer"@.len());
    reveal_strlit("TextInLanguage");
    assert("RdfSchemaLabel"@[0] != "TextInLanguage"@[0]);
    reveal_strlit("WikiPage");
    assert("RdfSchemaLabel"@.len() != "WikiPage"@.len());
    reveal_strlit("EntityItem");
    assert("RdfSchemaLabel"@.len() != "EntityItem"@.len());
    reveal_strlit("EntityMedia");
    assert("RdfSchemaLabel"@.len() != "EntityMedia"@.len());
    reveal_strlit("EntityLexeme");
    assert("RdfSchemaLabel"@.len() != "EntityLexeme"@.len());
    reveal_strlit("EntityProp");
    assert("RdfSchemaLabel"@.len() != "EntityProp"@.len());
    reveal_strlit("EntityLexemeF");
    assert("RdfSchemaLabel"@.len() != "EntityLexemeF"@.len());
    reveal_strlit("EntityLexemeS");
    assert("RdfSchemaLabel"@.len() != "EntityLexemeS"@.len());
    reveal_strlit("EntityUnknown");
    assert("RdfSchemaLabel"@.len() != "EntityUnknown"@.len());
    reveal_strlit("Property");
    assert("RdfSchemaLabel"@.len() != "Property"@.len());
    reveal_strlit("PropertyDirect");
    assert("RdfSchemaLabel"@[0] != "PropertyDirect"@[0]);
    reveal_strlit("PropDirectNorm");
    assert("RdfSchemaLabel"@[0] != "PropDirectNorm"@[0]);
    reveal_strlit("PropStatement");
    assert("RdfSchemaLabel"@.len() != "PropStatement"@.len());
    reveal_strlit("PropStatementValue");
    assert("RdfSchemaLabel"@.len() != "PropStatementValue"@.len());
    reveal_strlit("PropStatementValueNorm");
    assert("RdfSchemaLabel"@.len() != "PropStatementValueNorm"@.len());
    reveal_strlit("PropRef");
    assert("RdfSchemaLabel"@.len() != "PropRef"@.len());
    reveal_strlit("PropReferenceValue");
    assert("RdfSchemaLabel"@.len() != "PropReferenceValue"@.len());
    reveal_strlit("PropReferenceValueNorm");
    assert("RdfSchemaLabel"@.len() != "PropReferenceValueNorm"@.len());
    reveal_strlit("PropQual");
    assert("RdfSchemaLabel"@.len() != "PropQual"@.len());
    reveal_strlit("PropQualValue");
    assert("RdfSchemaLabel"@.len() != "PropQualValue"@.len());
    reveal_strlit("PropQualValueNorm");
    assert("RdfSchemaLabel"@.len() != "PropQualValueNorm"@.len());
    reveal_strlit("WikibaseOntology");
    assert("RdfSchemaLabel"@.len() != "WikibaseOntology"@.len());
    reveal_strlit("SchemaOrg");
    assert("RdfSchemaLabel"@.len() != "SchemaOrg"@.len());
    reveal_strlit("W3Owl");
    assert("RdfSchemaLabel"@.len() != "W3Owl"@.len());
    reveal_strlit("StatementEntityItem");
    assert("RdfSchemaLabel"@.len() != "StatementEntityItem"@.len());
    reveal_strlit("StatementEntityMedia");
    assert("RdfSchemaLabel"@.len() != "StatementEntityMedia"@.len());
    reveal_strlit("StatementEntityLexeme");
    assert("RdfSchemaLabel"@.len() != "StatementEntityLexeme"@.len());
    reveal_strlit("StatementEntityProp");
    assert("RdfSchemaLabel"@.len() != "StatementEntityProp"@.len());
    reveal_strlit("StatementEntityLexemeF");
    assert("RdfSchemaLabel"@.len() != "StatementEntityLexemeF"@.len());
    reveal_strlit("StatementEntityLexemeS");
    assert("RdfSchemaLabel"@.len() != "StatementEntityLexemeS"@.len());
    reveal_strlit("StatementEntityUnknown");
    assert("RdfSchemaLabel"@.len() != "StatementEntityUnknown"@.len());
    reveal_strlit("Reference");
    assert("RdfSchemaLabel"@.len() != "Reference"@.len());
    reveal_strlit("Value");
    assert("RdfSchemaLabel"@.len() != "Value"@.len());
    reveal_strlit("DateTime");
    assert("RdfSchemaLabel"@.len() != "DateTime"@.len());
    reveal_strlit("LatLon");
    assert("RdfSchemaLabel"@.len() != "LatLon"@.len());
    reveal_strlit("Decimal");
    assert("RdfSchemaLabel"@.len() != "Decimal"@.len());
    reveal_strlit("WasDerivedFrom");
    reveal_strlit("PurlLanguage");
    reveal_strlit("W3RdfSyntaxNsType");
    reveal_strlit("W3SkosCoreAltLabel");
    reveal_strlit("W3SkosCorePrefLabel");
    reveal_strlit("W3OntolexLexicalForm");
    reveal_strlit("W3OntolexRepresentation");
    reveal_strlit("CreativeCommonsLicense");
}

proof fn lemma_kind_was_derived_from()
    ensures
        layout_of_kind("WasDerivedFrom"@) == seq![TypePart::Blank],
{
    reveal_strlit("WasDerivedFrom");
    reveal_strlit("Text");
    assert("WasDerivedFrom"@.len() != "Text"@.len());
    reveal_strlit("Url");
    assert("WasDerivedFrom"@.len() != "Url"@.len());
    reveal_strlit("Integer");
    assert("WasDerivedFrom"@.len() != "Integer"@.len());
    reveal_strlit("TextInLanguage");
    assert("WasDerivedFrom"@[0] != "TextInLanguage"@[0]);
    reveal_strlit("WikiPage");
    assert("WasDerivedFrom"@.len() != "WikiPage"@.len());
    reveal_strlit("EntityItem");
    assert("WasDerivedFrom"@.len() != "EntityItem"@.len());
    reveal_strlit("EntityMedia");
    assert("WasDerivedFrom"@.len() != "EntityMedia"@.len());
    reveal_strlit("EntityLexeme");
    assert("WasDerivedFrom"@.len() != "EntityLexeme"@.len());
    reveal_strlit("EntityProp");
    assert("WasDerivedFrom"@.len() != "EntityProp"@.len());
    reveal_strlit("EntityLexemeF");
    assert("WasDerivedFrom"@.len() != "EntityLexemeF"@.len());
    reveal_strlit("EntityLexemeS");
    assert("WasDerivedFrom"@.len() != "EntityLexemeS"@.len());
    reveal_strlit("EntityUnknown");
    assert("WasDerivedFrom"@.len() != "EntityUnknown"@.len());
    reveal_strlit("Property");
    assert("WasDerivedFrom"@.len() != "Property"@.len());
    reveal_strlit("PropertyDirect");
    assert("WasDerivedFrom"@[0] != "PropertyDirect"@[0]);
    reveal_strlit("PropDirectNorm");
    assert("WasDerivedFrom"@[0] != "PropDirectNorm"@[0]);
    reveal_strlit("PropStatement");
    assert("WasDerivedFrom"@.len() != "PropStatement"@.len());
    reveal_strlit("PropStatementValue");
    assert("WasDerivedFrom"@.len() != "PropStatementValue"@.len());
    reveal_strlit("PropStatementValueNorm");
    assert("WasDerivedFrom"@.len() != "PropStatementValueNorm"@.len());
    reveal_strlit("PropRef");
    assert("WasDerivedFrom"@.len() != "PropRef"@.len());
    reveal_strlit("PropReferenceValue");
    assert("WasDerivedFrom"@.len() != "PropReferenceValue"@.len());
    reveal_strlit("PropReferenceValueNorm");
    assert("WasDerivedFrom"@.len() != "PropReferenceValueNorm"@.len());
    reveal_strlit("PropQual");
    assert("WasDerivedFrom"@.len() != "PropQual"@.len());
    reveal_strlit("PropQualValue");
    assert("WasDerivedFrom"@.len() != "PropQualValue"@.len());
    reveal_strlit("PropQualValueNorm");
    assert("WasDerivedFrom"@.len() != "PropQualValueNorm"@.len());
    reveal_strlit("WikibaseOntology");
    assert("WasDerivedFrom"@.len() != "WikibaseOntology"@.len());
    reveal_strlit("SchemaOrg");
    assert("WasDerivedFrom"@.len() != "SchemaOrg"@.len());
    reveal_strlit("W3Owl");
    assert("WasDerivedFrom"@.len() != "W3Owl"@.len());
    reveal_strlit("StatementEntityItem");
    assert("WasDerivedFrom"@.len() != "StatementEntityItem"@.len());
    reveal_strlit("StatementEntityMedia");
    assert("WasDerivedFrom"@.len() != "StatementEntityMedia"@.len());
    reveal_strlit("StatementEntityLexeme");
    assert("WasDerivedFrom"@.len() != "StatementEntityLexeme"@.len());
    reveal_strlit("StatementEntityProp");
    assert("WasDerivedFrom"@.len() != "StatementEntityProp"@.len());
    reveal_strlit("StatementEntityLexemeF");
    assert("WasDerivedFrom"@.len() != "StatementEntityLexemeF"@.len());
    reveal_strlit("StatementEntityLexemeS");
    assert("WasDerivedFrom"@.len() != "StatementEntityLexemeS"@.len());
    reveal_strlit("StatementEntityUnknown");
    assert("WasDerivedFrom"@.len() != "StatementEntityUnknown"@.len());
    reveal_strlit("Reference");
    assert("WasDerivedFrom"@.len() != "Reference"@.len());
    reveal_strlit("Value");
    assert("WasDerivedFrom"@.len() != "Value"@.len());
    reveal_strlit("DateTime");
    assert("WasDerivedFrom"@.len() != "DateTime"@.len());
    reveal_strlit("LatLon");
    assert("WasDerivedFrom"@.len() != "LatLon"@.len());
    reveal_strlit("Decimal");
    assert("WasDerivedFrom"@.len() != "Decimal"@.len());
    reveal_strlit("RdfSchemaLabel");
    reveal_strlit("PurlLanguage");
    reveal_strlit("W3RdfSyntaxNsType");
    reveal_strlit("W3SkosCoreAltLabel");
    reveal_strlit("W3SkosCorePrefLabel");
    reveal_strlit("W3OntolexLexicalForm");
    reveal_strlit("W3OntolexRepresentation");
    reveal_strlit("CreativeCommonsLicense");
}

proof fn lemma_kind_purl_language()
    ensures
        layout_of_kind("PurlLanguage"@) == seq![TypePart::Blank],
{
    reveal_strlit("PurlLanguage");
    reveal_strlit("Text");
    assert("PurlLanguage"@.len() != "Text"@.len());
    reveal_strlit("Url");
    assert("PurlLanguage"@.len() != "Url"@.len());
    reveal_strlit("Integer");
    assert("PurlLanguage"@.len() != "Integer"@.len());
    reveal_strlit("TextInLanguage");
    assert("PurlLanguage"@.len() != "TextInLanguage"@.len());
    reveal_strlit("WikiPage");
    assert("PurlLanguage"@.len() != "WikiPage"@.len());
    reveal_strlit("EntityItem");
    assert("PurlLanguage"@.len() != "EntityItem"@.len());
    reveal_strlit("EntityMedia");
    assert("PurlLanguage"@.len() != "EntityMedia"@.len());
    reveal_strlit("EntityLexeme");
    assert("PurlLanguage"@[0] != "EntityLexeme"@[0]);
    reveal_strlit("EntityProp");
    assert("PurlLanguage"@.len() != "EntityProp"@.len());
    reveal_strlit("EntityLexemeF");
    assert("PurlLanguage"@.len() != "EntityLexemeF"@.len());
    reveal_strlit("EntityLexemeS");
    assert("PurlLanguage"@.len() != "EntityLexemeS"@.len());
    reveal_strlit("EntityUnknown");
    assert("PurlLanguage"@.len() != "EntityUnknown"@.len());
    reveal_strlit("Property");
    assert("PurlLanguage"@.len() != "Property"@.len());
    reveal_strlit("PropertyDirect");
    assert("PurlLanguage"@.len() != "PropertyDirect"@.len());
    reveal_strlit("PropDirectNorm");
    assert("PurlLanguage"@.len() != "PropDirectNorm"@.len());
    reveal_strlit("PropStatement");
    assert("PurlLanguage"@.len() != "PropStatement"@.len());
    reveal_strlit("PropStatementValue");
    assert("PurlLanguage"@.len() != "PropStatementValue"@.len());
    reveal_strlit("PropStatementValueNorm");
    assert("PurlLanguage"@.len() != "PropStatementValueNorm"@.len());
    reveal_strlit("PropRef");
    assert("PurlLanguage"@.len() != "PropRef"@.len());
    reveal_strlit("PropReferenceValue");
    assert("PurlLanguage"@.len() != "PropReferenceValue"@.len());
    reveal_strlit("PropReferenceValueNorm");
    assert("PurlLanguage"@.len() != "PropReferenceValueNorm"@.len());
    reveal_strlit("PropQual");
    assert("PurlLanguage"@.len() != "PropQual"@.len());
    reveal_strlit("PropQualValue");
    assert("PurlLanguage"@.len() != "PropQualValue"@.len());
    reveal_strlit("PropQualValueNorm");
    assert("PurlLanguage"@.len() != "PropQualValueNorm"@.len());
    reveal_strlit("WikibaseOntology");
    assert("PurlLanguage"@.len() != "WikibaseOntology"@.len());
    reveal_strlit("SchemaOrg");
    assert("PurlLanguage"@.len() != "SchemaOrg"@.len());
    reveal_strlit("W3Owl");
    assert("PurlLanguage"@.len() != "W3Owl"@.len());
    reveal_strlit("StatementEntityItem");
    assert("PurlLanguage"@.len() != "StatementEntityItem"@.len());
    reveal_strlit("StatementEntityMedia");
    assert("PurlLanguage"@.len() != "StatementEntityMedia"@.len());
    reveal_strlit("StatementEntityLexeme");
    assert("PurlLanguage"@.len() != "StatementEntityLexeme"@.len());
    reveal_strlit("StatementEntityProp");
    assert("PurlLanguage"@.len() != "StatementEntityProp"@.len());
    reveal_strlit("StatementEntityLexemeF");
    assert("PurlLanguage"@.len() != "StatementEntityLexemeF"@.len());
    reveal_strlit("StatementEntityLexemeS");
    assert("PurlLanguage"@.len() != "StatementEntityLexemeS"@.len());
    reveal_strlit("StatementEntityUnknown");
    assert("PurlLanguage"@.len() != "StatementEntityUnknown"@.len());
    reveal_strlit("Reference");
    assert("PurlLanguage"@.len() != "Reference"@.len());
    reveal_strlit("Value");
    assert("PurlLanguage"@.len() != "Value"@.len());
    reveal_strlit("DateTime");
    assert("PurlLanguage"@.len() != "DateTime"@.len());
    reveal_strlit("LatLon");
    assert("PurlLanguage"@.len() != "LatLon"@.len());
    reveal_strlit("Decimal");
    assert("PurlLanguage"@.len() != "Decimal"@.len());
    reveal_strlit("RdfSchemaLabel");
    reveal_strlit("WasDerivedFrom");
    reveal_strlit("W3RdfSyntaxNsType");
    reveal_strlit("W3SkosCoreAltLabel");
    reveal_strlit("W3SkosCorePrefLabel");
    reveal_strlit("W3OntolexLexicalForm");
    reveal_strlit("W3OntolexRepresentation");
    reveal_strlit("CreativeCommonsLicense");
}

proof fn lemma_kind_w3_rdf_syntax_ns_type()
    ensures
        layout_of_kind("W3RdfSyntaxNsType"@) == seq![TypePart::Blank],
{
    reveal_strlit("W3RdfSyntaxNsType");
    reveal_strlit("Text");
    assert("W3RdfSyntaxNsType"@.len() != "Text"@.len());
    reveal_strlit("Url");
    assert("W3RdfSyntaxNsType"@.len() != "Url"@.len());
    reveal_strlit("Integer");
    assert("W3RdfSyntaxNsType"@.len() != "Integer"@.len());
    reveal_strlit("TextInLanguage");
    assert("W3RdfSyntaxNsType"@.len() != "TextInLanguage"@.len());
    reveal_strlit("WikiPage");
    assert("W3RdfSyntaxNsType"@.len() != "WikiPage"@.len());
    reveal_strlit("EntityItem");
    assert("W3RdfSyntaxNsType"@.len() != "EntityItem"@.len());
    reveal_strlit("EntityMedia");
    assert("W3RdfSyntaxNsType"@.len() != "EntityMedia"@.len());
    reveal_strlit("EntityLexeme");
    assert("W3RdfSyntaxNsType"@.len() != "EntityLexeme"@.len());
    reveal_strlit("EntityProp");
    assert("W3RdfSyntaxNsType"@.len() != "EntityProp"@.len());
    reveal_strlit("EntityLexemeF");
    assert("W3RdfSyntaxNsType"@.len() != "EntityLexemeF"@.len());
    reveal_strlit("EntityLexemeS");
    assert("W3RdfSyntaxNsType"@.len() != "EntityLexemeS"@.len());
    reveal_strlit("EntityUnknown");
    assert("W3RdfSyntaxNsType"@.len() != "EntityUnknown"@.len());
    reveal_strlit("Property");
    assert("W3RdfSyntaxNsType"@.len() != "Property"@.len());
    reveal_strlit("PropertyDirect");
    assert("W3RdfSyntaxNsType"@.len() != "PropertyDirect"@.len());
    reveal_strlit("PropDirectNorm");
    assert("W3RdfSyntaxNsType"@.len() != "PropDirectNorm"@.len());
    reveal_strlit("PropStatement");
    assert("W3RdfSyntaxNsType"@.len() != "PropStatement"@.len());
    reveal_strlit("PropStatementValue");
    assert("W3RdfSyntaxNsType"@.len() != "PropStatementValue"@.len());
    reveal_strlit("PropStatementValueNorm");
    assert("W3RdfSyntaxNsType"@.len() != "PropStatementValueNorm"@.len());
    reveal_strlit("PropRef");
    assert("W3RdfSyntaxNsType"@.len() != "PropRef"@.len());
    reveal_strlit("PropReferenceValue");
    assert("W3RdfSyntaxNsType"@.len() != "PropReferenceValue"@.len());
    reveal_strlit("PropReferenceValueNorm");
    assert("W3RdfSyntaxNsType"@.len() != "PropReferenceValueNorm"@.len());
    reveal_strlit("PropQual");
    assert("W3RdfSyntaxNsType"@.len() != "PropQual"@.len());
    reveal_strlit("PropQualValue");
    assert("W3RdfSyntaxNsType"@.len() != "PropQualValue"@.len());
    reveal_strlit("PropQualValueNorm");
    assert("W3RdfSyntaxNsType"@[0] != "PropQualValueNorm"@[0]);
    reveal_strlit("WikibaseOntology");
    assert("W3RdfSyntaxNsType"@.len() != "WikibaseOntology"@.len());
    reveal_strlit("SchemaOrg");
    assert("W3RdfSyntaxNsType"@.len() != "SchemaOrg"@.len());
    reveal_strlit("W3Owl");
    assert("W3RdfSyntaxNsType"@.len() != "W3Owl"@.len());
    reveal_strlit("StatementEntityItem");
    assert("W3RdfSyntaxNsType"@.len() != "StatementEntityItem"@.len());
    reveal_strlit("StatementEntityMedia");
    assert("W3RdfSyntaxNsType"@.len() != "StatementEntityMedia"@.len());
    reveal_strlit("StatementEntityLexeme");
    assert("W3RdfSyntaxNsType"@.len() != "StatementEntityLexeme"@.len());
    reveal_strlit("StatementEntityProp");
    assert("W3RdfSyntaxNsType"@.len() != "StatementEntityProp"@.len());
    reveal_strlit("StatementEntityLexemeF");
    assert("W3RdfSyntaxNsType"@.len() != "StatementEntityLexemeF"@.len());
    reveal_strlit("StatementEntityLexemeS");
    assert("W3RdfSyntaxNsType"@.len() != "StatementEntityLexemeS"@.len());
    reveal_strlit("StatementEntityUnknown");
    assert("W3RdfSyntaxNsType"@.len() != "StatementEntityUnknown"@.len());
    reveal_strlit("Reference");
    assert("W3RdfSyntaxNsType"@.len() != "Reference"@.len());
    reveal_strlit("Value");
    assert("W3RdfSyntaxNsType"@.len() != "Value"@.len());
    reveal_strlit("DateTime");
    assert("W3RdfSyntaxNsType"@.len() != "DateTime"@.len());
    reveal_strlit("LatLon");
    assert("W3RdfSyntaxNsType"@.len() != "LatLon"@.len());
    reveal_strlit("Decimal");
    assert("W3RdfSyntaxNsType"@.len() != "Decimal"@.len());
    reveal_strlit("RdfSchemaLabel");
    reveal_strlit("WasDerivedFrom");
    reveal_strlit("PurlLanguage");
    reveal_strlit("W3SkosCoreAltLabel");
    reveal_strlit("W3SkosCorePrefLabel");
    reveal_strlit("W3OntolexLexicalForm");
    reveal_strlit("W3OntolexRepresentation");
    reveal_strlit("CreativeCommonsLicense");
}

proof fn lemma_kind_w3_skos_core_alt_label()
    ensures
        layout_of_kind("W3SkosCoreAltLabel"@) == seq![TypePart::Blank],
{
    reveal_strlit("W3SkosCoreAltLabel");
    reveal_strlit("Text");
    assert("W3SkosCoreAltLabel"@.len() != "Text"@.len());
    reveal_strlit("Url");
    assert("W3SkosCoreAltLabel"@.len() != "Url"@.len());
    reveal_strlit("Integer");
    assert("W3SkosCoreAltLabel"@.len() != "Integer"@.len());
    reveal_strlit("TextInLanguage");
    assert("W3SkosCoreAltLabel"@.len() != "TextInLanguage"@.len());
    reveal_strlit("WikiPage");
    assert("W3SkosCoreAltLabel"@.len() != "WikiPage"@.len());
    reveal_strlit("EntityItem");
    assert("W3SkosCoreAltLabel"@.len() != "EntityItem"@.len());
    reveal_strlit("EntityMedia");
    assert("W3SkosCoreAltLabel"@.len() != "EntityMedia"@.len());
    reveal_strlit("EntityLexeme");
    assert("W3SkosCoreAltLabel"@.len() != "EntityLexeme"@.len());
    reveal_strlit("EntityProp");
    assert("W3SkosCoreAltLabel"@.len() != "EntityProp"@.len());
    reveal_strlit("EntityLexemeF");
    assert("W3SkosCoreAltLabel"@.len() != "EntityLexemeF"@.len());
    reveal_strlit("EntityLexemeS");
    assert("W3SkosCoreAltLabel"@.len() != "EntityLexemeS"@.len());
    reveal_strlit("EntityUnknown");
    assert("W3SkosCoreAltLabel"@.len() != "EntityUnknown"@.len());
    reveal_strlit("Property");
    assert("W3SkosCoreAltLabel"@.len() != "Property"@.len());
    reveal_strlit("PropertyDirect");
    assert("W3SkosCoreAltLabel"@.len() != "PropertyDirect"@.len());
    reveal_strlit("PropDirectNorm");
    assert("W3SkosCoreAltLabel"@.len() != "PropDirectNorm"@.len());
    reveal_strlit("PropStatement");
    assert("W3SkosCoreAltLabel"@.len() != "PropStatement"@.len());
    reveal_strlit("PropStatementValue");
    assert("W3SkosCoreAltLabel"@[0] != "PropStatementValue"@[0]);
    reveal_strlit("PropStatementValueNorm");
    assert("W3SkosCoreAltLabel"@.len() != "PropStatementValueNorm"@.len());
    reveal_strlit("PropRef");
    assert("W3SkosCoreAltLabel"@.len() != "PropRef"@.len());
    reveal_strlit("PropReferenceValue");
    assert("W3SkosCoreAltLabel"@[0] != "PropReferenceValue"@[0]);
    reveal_strlit("PropReferenceValueNorm");
    assert("W3SkosCoreAltLabel"@.len() != "PropReferenceValueNorm"@.len());
    reveal_strlit("PropQual");
    assert("W3SkosCoreAltLabel"@.len() != "PropQual"@.len());
    reveal_strlit("PropQualValue");
    assert("W3SkosCoreAltLabel"@.len() != "PropQualValue"@.len());
    reveal_strlit("PropQualValueNorm");
    assert("W3SkosCoreAltLabel"@.len() != "PropQualValueNorm"@.len());
    reveal_strlit("WikibaseOntology");
    assert("W3SkosCoreAltLabel"@.len() != "WikibaseOntology"@.len());
    reveal_strlit("SchemaOrg");
    assert("W3SkosCoreAltLabel"@.len() != "SchemaOrg"@.len());
    reveal_strlit("W3Owl");
    assert("W3SkosCoreAltLabel"@.len() != "W3Owl"@.len());
    reveal_strlit("StatementEntityItem");
    assert("W3SkosCoreAltLabel"@.len() != "StatementEntityItem"@.len());
    reveal_strlit("StatementEntityMedia");
    assert("W3SkosCoreAltLabel"@.len() != "StatementEntityMedia"@.len());
    reveal_strlit("StatementEntityLexeme");
    assert("W3SkosCoreAltLabel"@.len() != "StatementEntityLexeme"@.len());
    reveal_strlit("StatementEntityProp");
    assert("W3SkosCoreAltLabel"@.len() != "StatementEntityProp"@.len());
    reveal_strlit("StatementEntityLexemeF");
    assert("W3SkosCoreAltLabel"@.len() != "StatementEntityLexemeF"@.len());
    reveal_strlit("StatementEntityLexemeS");
    assert("W3SkosCoreAltLabel"@.len() != "StatementEntityLexemeS"@.len());
    reveal_strlit("StatementEntityUnknown");
    assert("W3SkosCoreAltLabel"@.len() != "StatementEntityUnknown"@.len());
    reveal_strlit("Reference");
    assert("W3SkosCoreAltLabel"@.len() != "Reference"@.len());
    reveal_strlit("Value");
    assert("W3SkosCoreAltLabel"@.len() != "Value"@.len());
    reveal_strlit("DateTime");
    assert("W3SkosCoreAltLabel"@.len() != "DateTime"@.len());
    reveal_strlit("LatLon");
    assert("W3SkosCoreAltLabel"@.len() != "LatLon"@.len());
    reveal_strlit("Decimal");
    assert("W3SkosCoreAltLabel"@.len() != "Decimal"@.len());
    reveal_strlit("RdfSchemaLabel");
    reveal_strlit("WasDerivedFrom");
    reveal_strlit("PurlLanguage");
    reveal_strlit("W3RdfSyntaxNsType");
    reveal_strlit("W3SkosCorePrefLabel");
    reveal_strlit("W3OntolexLexicalForm");
    reveal_strlit("W3OntolexRepresentation");
    reveal_strlit("CreativeCommonsLicense");
}

proof fn lemma_kind_w3_skos_core_pref_label()
    ensures
        layout_of_kind("W3SkosCorePrefLabel"@) == seq![TypePart::Blank],
{
    reveal_strlit("W3SkosCorePrefLabel");
    reveal_strlit("Text");
    assert("W3SkosCorePrefLabel"@.len() != "Text"@.len());
    reveal_strlit("Url");
    assert("W3SkosCorePrefLabel"@.len() != "Url"@.len());
    reveal_strlit("Integer");
    assert("W3SkosCorePrefLabel"@.len() != "Integer"@.len());
    reveal_strlit("TextInLanguage");
    assert("W3SkosCorePrefLabel"@.len() != "TextInLanguage"@.len());
    reveal_strlit("WikiPage");
    assert("W3SkosCorePrefLabel"@.len() != "WikiPage"@.len());
    reveal_strlit("EntityItem");
    assert("W3SkosCorePrefLabel"@.len() != "EntityItem"@.len());
    reveal_strlit("EntityMedia");
    assert("W3SkosCorePrefLabel"@.len() != "EntityMedia"@.len());
    reveal_strlit("EntityLexeme");
    assert("W3SkosCorePrefLabel"@.len() != "EntityLexeme"@.len());
    reveal_strlit("EntityProp");
    assert("W3SkosCorePrefLabel"@.len() != "EntityProp"@.len());
    reveal_strlit("EntityLexemeF");
    assert("W3SkosCorePrefLabel"@.len() != "EntityLexemeF"@.len());
    reveal_strlit("EntityLexemeS");
    assert("W3SkosCorePrefLabel"@.len() != "EntityLexemeS"@.len());
    reveal_strlit("EntityUnknown");
    assert("W3SkosCorePrefLabel"@.len() != "EntityUnknown"@.len());
    reveal_strlit("Property");
    assert("W3SkosCorePrefLabel"@.len() != "Property"@.len());
    reveal_strlit("PropertyDirect");
    assert("W3SkosCorePrefLabel"@.len() != "PropertyDirect"@.len());
    reveal_strlit("PropDirectNorm");
    assert("W3SkosCorePrefLabel"@.len() != "PropDirectNorm"@.len());
    reveal_strlit("PropStatement");
    assert("W3SkosCorePrefLabel"@.len() != "PropStatement"@.len());
    reveal_strlit("PropStatementValue");
    assert("W3SkosCorePrefLabel"@.len() != "PropStatementValue"@.len());
    reveal_strlit("PropStatementValueNorm");
    assert("W3SkosCorePrefLabel"@.len() != "PropStatementValueNorm"@.len());
    reveal_strlit("PropRef");
    assert("W3SkosCorePrefLabel"@.len() != "PropRef"@.len());
    reveal_strlit("PropReferenceValue");
    assert("W3SkosCorePrefLabel"@.len() != "PropReferenceValue"@.len());
    reveal_strlit("PropReferenceValueNorm");
    assert("W3SkosCorePrefLabel"@.len() != "PropReferenceValueNorm"@.len());
    reveal_strlit("PropQual");
    assert("W3SkosCorePrefLabel"@.len() != "PropQual"@.len());
    reveal_strlit("PropQualValue");
    assert("W3SkosCorePrefLabel"@.len() != "PropQualValue"@.len());
    reveal_strlit("PropQualValueNorm");
    assert("W3SkosCorePrefLabel"@.len() != "PropQualValueNorm"@.len());
    reveal_strlit("WikibaseOntology");
    assert("W3SkosCorePrefLabel"@.len() != "WikibaseOntology"@.len());
    reveal_strlit("SchemaOrg");
    assert("W3SkosCorePrefLabel"@.len() != "SchemaOrg"@.len());
    reveal_strlit("W3Owl");
    assert("W3SkosCorePrefLabel"@.len() != "W3Owl"@.len());
    reveal_strlit("StatementEntityItem");
    assert("W3SkosCorePrefLabel"@[0] != "StatementEntityItem"@[0]);
    reveal_strlit("StatementEntityMedia");
    assert("W3SkosCorePrefLabel"@.len() != "StatementEntityMedia"@.len());
    reveal_strlit("StatementEntityLexeme");
    assert("W3SkosCorePrefLabel"@.len() != "StatementEntityLexeme"@.len());
    reveal_strlit("StatementEntityProp");
    assert("W3SkosCorePrefLabel"@[0] != "StatementEntityProp"@[0]);
    reveal_strlit("StatementEntityLexemeF");
    assert("W3SkosCorePrefLabel"@.len() != "StatementEntityLexemeF"@.len());
    reveal_strlit("StatementEntityLexemeS");
    assert("W3SkosCorePrefLabel"@.len() != "StatementEntityLexemeS"@.len());
    reveal_strlit("StatementEntityUnknown");
    assert("W3SkosCorePrefLabel"@.len() != "StatementEntityUnknown"@.len());
    reveal_strlit("Reference");
    assert("W3SkosCorePrefLabel"@.len() != "Reference"@.len());
    reveal_strlit("Value");
    assert("W3SkosCorePrefLabel"@.len() != "Value"@.len());
    reveal_strlit("DateTime");
    assert("W3SkosCorePrefLabel"@.len() != "DateTime"@.len());
    reveal_strlit("LatLon");
    assert("W3SkosCorePrefLabel"@.len() != "LatLon"@.len());
    reveal_strlit("Decimal");
    assert("W3SkosCorePrefLabel"@.len() != "Decimal"@.len());
    reveal_strlit("RdfSchemaLabel");
    reveal_strlit("WasDerivedFrom");
    reveal_strlit("PurlLanguage");
    reveal_strlit("W3RdfSyntaxNsType");
    reveal_strlit("W3SkosCoreAltLabel");
    reveal_strlit("W3OntolexLexicalForm");
    reveal_strlit("W3OntolexRepresentation");
    reveal_strlit("CreativeCommonsLicense");
}

proof fn lemma_kind_w3_ontolex_lexical_form()
    ensures
        layout_of_kind("W3OntolexLexicalForm"@) == seq![TypePart::Blank],
{
    reveal_strlit("W3OntolexLexicalForm");
    reveal_strlit("Text");
    assert("W3OntolexLexicalForm"@.len() != "Text"@.len());
    reveal_strlit("Url");
    assert("W3OntolexLexicalForm"@.len() != "Url"@.len());
    reveal_strlit("Integer");
    assert("W3OntolexLexicalForm"@.len() != "Integer"@.len());
    reveal_strlit("TextInLanguage");
    assert("W3OntolexLexicalForm"@.len() != "TextInLanguage"@.len());
    reveal_strlit("WikiPage");
    assert("W3OntolexLexicalForm"@.len() != "WikiPage"@.len());
    reveal_strlit("EntityItem");
    assert("W3OntolexLexicalForm"@.len() != "EntityItem"@.len());
    reveal_strlit("EntityMedia");
    assert("W3OntolexLexicalForm"@.len() != "EntityMedia"@.len());
    reveal_strlit("EntityLexeme");
    assert("W3OntolexLexicalForm"@.len() != "EntityLexeme"@.len());
    reveal_strlit("EntityProp");
    assert("W3OntolexLexicalForm"@.len() != "EntityProp"@.len());
    reveal_strlit("EntityLexemeF");
    assert("W3OntolexLexicalForm"@.len() != "EntityLexemeF"@.len());
    reveal_strlit("EntityLexemeS");
    assert("W3OntolexLexicalForm"@.len() != "EntityLexemeS"@.len());
    reveal_strlit("EntityUnknown");
    assert("W3OntolexLexicalForm"@.len() != "EntityUnknown"@.len());
    reveal_strlit("Property");
    assert("W3OntolexLexicalForm"@.len() != "Property"@.len());
    reveal_strlit("PropertyDirect");
    assert("W3OntolexLexicalForm"@.len() != "PropertyDirect"@.len());
    reveal_strlit("PropDirectNorm");
    assert("W3OntolexLexicalForm"@.len() != "PropDirectNorm"@.len());
    reveal_strlit("PropStatement");
    assert("W3OntolexLexicalForm"@.len() != "PropStatement"@.len());
    reveal_strlit("PropStatementValue");
    assert("W3OntolexLexicalForm"@.len() != "PropStatementValue"@.len());
    reveal_strlit("PropStatementValueNorm");
    assert("W3OntolexLexicalForm"@.len() != "PropStatementValueNorm"@.len());
    reveal_strlit("PropRef");
    assert("W3OntolexLexicalForm"@.len() != "PropRef"@.len());
    reveal_strlit("PropReferenceValue");
    assert("W3OntolexLexicalForm"@.len() != "PropReferenceValue"@.len());
    reveal_strlit("PropReferenceValueNorm");
    assert("W3OntolexLexicalForm"@.len() != "PropReferenceValueNorm"@.len());
    reveal_strlit("PropQual");
    assert("W3OntolexLexicalForm"@.len() != "PropQual"@.len());
    reveal_strlit("PropQualValue");
    assert("W3OntolexLexicalForm"@.len() != "PropQualValue"@.len());
    reveal_strlit("PropQualValueNorm");
    assert("W3OntolexLexicalForm"@.len() != "PropQualValueNorm"@.len());
    reveal_strlit("WikibaseOntology");
    assert("W3OntolexLexicalForm"@.len() != "WikibaseOntology"@.len());
    reveal_strlit("SchemaOrg");
    assert("W3OntolexLexicalForm"@.len() != "SchemaOrg"@.len());
    reveal_strlit("W3Owl");
    assert("W3OntolexLexicalForm"@.len() != "W3Owl"@.len());
    reveal_strlit("StatementEntityItem");
    assert("W3OntolexLexicalForm"@.len() != "StatementEntityItem"@.len());
    reveal_strlit("StatementEntityMedia");
    assert("W3OntolexLexicalForm"@[0] != "StatementEntityMedia"@[0]);
    reveal_strlit("StatementEntityLexeme");
    assert("W3OntolexLexicalForm"@.len() != "StatementEntityLexeme"@.len());
    reveal_strlit("StatementEntityProp");
    assert("W3OntolexLexicalForm"@.len() != "StatementEntityProp"@.len());
    reveal_strlit("StatementEntityLexemeF");
    assert("W3OntolexLexicalForm"@.len() != "StatementEntityLexemeF"@.len());
    reveal_strlit("StatementEntityLexemeS");
    assert("W3OntolexLexicalForm"@.len() != "StatementEntityLexemeS"@.len());
    reveal_strlit("StatementEntityUnknown");
    assert("W3OntolexLexicalForm"@.len() != "StatementEntityUnknown"@.len());
    reveal_strlit("Reference");
    assert("W3OntolexLexicalForm"@.len() != "Reference"@.len());
    reveal_strlit("Value");
    assert("W3OntolexLexicalForm"@.len() != "Value"@.len());
    reveal_strlit("DateTime");
    assert("W3OntolexLexicalForm"@.len() != "DateTime"@.len());
    reveal_strlit("LatLon");
    assert("W3OntolexLexicalForm"@.len() != "LatLon"@.len());
    reveal_strlit("Decimal");
    assert("W3OntolexLexicalForm"@.len() != "Decimal"@.len());
    reveal_strlit("RdfSchemaLabel");
    reveal_strlit("WasDerivedFrom");
    reveal_strlit("PurlLanguage");
    reveal_strlit("W3RdfSyntaxNsType");
    reveal_strlit("W3SkosCoreAltLabel");
    reveal_strlit("W3SkosCorePrefLabel");
    reveal_strlit("W3OntolexRepresentation");
    reveal_strlit("CreativeCommonsLicense");
}

proof fn lemma_kind_w3_ontolex_representation()
    ensures
        layout_of_kind("W3OntolexRepresentation"@) == seq![TypePart::Blank],
{
    reveal_strlit("W3OntolexRepresentation");
    reveal_strlit("Text");
    assert("W3OntolexRepresentation"@.len() != "Text"@.len());
    reveal_strlit("Url");
    assert("W3OntolexRepresentation"@.len() != "Url"@.len());
    reveal_strlit("Integer");
    assert("W3OntolexRepresentation"@.len() != "Integer"@.len());
    reveal_strlit("TextInLanguage");
    assert("W3OntolexRepresentation"@.len() != "TextInLanguage"@.len());
    reveal_strlit("WikiPage");
    assert("W3OntolexRepresentation"@.len() != "WikiPage"@.len());
    reveal_strlit("EntityItem");
    assert("W3OntolexRepresentation"@.len() != "EntityItem"@.len());
    reveal_strlit("EntityMedia");
    assert("W3OntolexRepresentation"@.len() != "EntityMedia"@.len());
    reveal_strlit("EntityLexeme");
    assert("W3OntolexRepresentation"@.len() != "EntityLexeme"@.len());
    reveal_strlit("EntityProp");
    assert("W3OntolexRepresentation"@.len() != "EntityProp"@.len());
    reveal_strlit("EntityLexemeF");
    assert("W3OntolexRepresentation"@.len() != "EntityLexemeF"@.len());
    reveal_strlit("EntityLexemeS");
    assert("W3OntolexRepresentation"@.len() != "EntityLexemeS"@.len());
    reveal_strlit("EntityUnknown");
    assert("W3OntolexRepresentation"@.len() != "EntityUnknown"@.len());
    reveal_strlit("Property");
    assert("W3OntolexRepresentation"@.len() != "Property"@.len());
    reveal_strlit("PropertyDirect");
    assert("W3OntolexRepresentation"@.len() != "PropertyDirect"@.len());
    reveal_strlit("PropDirectNorm");
    assert("W3OntolexRepresentation"@.len() != "PropDirectNorm"@.len());
    reveal_strlit("PropStatement");
    assert("W3OntolexRepresentation"@.len() != "PropStatement"@.len());
    reveal_strlit("PropStatementValue");
    assert("W3OntolexRepresentation"@.len() != "PropStatementValue"@.len());
    reveal_strlit("PropStatementValueNorm");
    assert("W3OntolexRepresentation"@.len() != "PropStatementValueNorm"@.len());
    reveal_strlit("PropRef");
    assert("W3OntolexRepresentation"@.len() != "PropRef"@.len());
    reveal_strlit("PropReferenceValue");
    assert("W3OntolexRepresentation"@.len() != "PropReferenceValue"@.len());
    reveal_strlit("PropReferenceValueNorm");
    assert("W3OntolexRepresentation"@.len() != "PropReferenceValueNorm"@.len());
    reveal_strlit("PropQual");
    assert("W3OntolexRepresentation"@.len() != "PropQual"@.len());
    reveal_strlit("PropQualValue");
    assert("W3OntolexRepresentation"@.len() != "PropQualValue"@.len());
    reveal_strlit("PropQualValueNorm");
    assert("W3OntolexRepresentation"@.len() != "PropQualValueNorm"@.len());
    reveal_strlit("WikibaseOntology");
    assert("W3OntolexRepresentation"@.len() != "WikibaseOntology"@.len());
    reveal_strlit("SchemaOrg");
    assert("W3OntolexRepresentation"@.len() != "SchemaOrg"@.len());
    reveal_strlit("W3Owl");
    assert("W3OntolexRepresentation"@.len() != "W3Owl"@.len());
    reveal_strlit("StatementEntityItem");
    assert("W3OntolexRepresentation"@.len() != "StatementEntityItem"@.len());
    reveal_strlit("StatementEntityMedia");
    assert("W3OntolexRepresentation"@.len() != "StatementEntityMedia"@.len());
    reveal_strlit("StatementEntityLexeme");
    assert("W3OntolexRepresentation"@.len() != "StatementEntityLexeme"@.len());
    reveal_strlit("StatementEntityProp");
    assert("W3OntolexRepresentation"@.len() != "StatementEntityProp"@.len());
    reveal_strlit("StatementEntityLexemeF");
    assert("W3OntolexRepresentation"@.len() != "StatementEntityLexemeF"@.len());
    reveal_strlit("StatementEntityLexemeS");
    assert("W3OntolexRepresentation"@.len() != "StatementEntityLexemeS"@.len());
    reveal_strlit("StatementEntityUnknown");
    assert("W3OntolexRepresentation"@.len() != "StatementEntityUnknown"@.len());
    reveal_strlit("Reference");
    assert("W3OntolexRepresentation"@.len() != "Reference"@.len());
    reveal_strlit("Value");
    assert("W3OntolexRepresentation"@.len() != "Value"@.len());
    reveal_strlit("DateTime");
    assert("W3OntolexRepresentation"@.len() != "DateTime"@.len());
    reveal_strlit("LatLon");
    assert("W3OntolexRepresentation"@.len() != "LatLon"@.len());
    reveal_strlit("Decimal");
    assert("W3OntolexRepresentation"@.len() != "Decimal"@.len());
    reveal_strlit("RdfSchemaLabel");
    reveal_strlit("WasDerivedFrom");
    reveal_strlit("PurlLanguage");
    reveal_strlit("W3RdfSyntaxNsType");
    reveal_strlit("W3SkosCoreAltLabel");
    reveal_strlit("W3SkosCorePrefLabel");
    reveal_strlit("W3OntolexLexicalForm");
    reveal_strlit("CreativeCommonsLicense");
}

proof fn lemma_kind_creative_commons_license()
    ensures
        layout_of_kind("CreativeCommonsLicense"@) == seq![TypePart::Blank],
{
    reveal_strlit("CreativeCommonsLicense");
    reveal_strlit("Text");
    assert("CreativeCommonsLicense"@.len() != "Text"@.len());
    reveal_strlit("Url");
    assert("CreativeCommonsLicense"@.len() != "Url"@.len());
    reveal_strlit("Integer");
    assert("CreativeCommonsLicense"@.len() != "Integer"@.len());
    reveal_strlit("TextInLanguage");
    assert("CreativeCommonsLicense"@.len() != "TextInLanguage"@.len());
    reveal_strlit("WikiPage");
    assert("CreativeCommonsLicense"@.len() != "WikiPage"@.len());
    reveal_strlit("EntityItem");
    assert("CreativeCommonsLicense"@.len() != "EntityItem"@.len());
    reveal_strlit("EntityMedia");
    assert("CreativeCommonsLicense"@.len() != "EntityMedia"@.len());
    reveal_strlit("EntityLexeme");
    assert("CreativeCommonsLicense"@.len() != "EntityLexeme"@.len());
    reveal_strlit("EntityProp");
    assert("CreativeCommonsLicense"@.len() != "EntityProp"@.len());
    reveal_strlit("EntityLexemeF");
    assert("CreativeCommonsLicense"@.len() != "EntityLexemeF"@.len());
    reveal_strlit("EntityLexemeS");
    assert("CreativeCommonsLicense"@.len() != "EntityLexemeS"@.len());
    reveal_strlit("EntityUnknown");
    assert("CreativeCommonsLicense"@.len() != "EntityUnknown"@.len());
    reveal_strlit("Property");
    assert("CreativeCommonsLicense"@.len() != "Property"@.len());
    reveal_strlit("PropertyDirect");
    assert("CreativeCommonsLicense"@.len() != "PropertyDirect"@.len());
    reveal_strlit("PropDirectNorm");
    assert("CreativeCommonsLicense"@.len() != "PropDirectNorm"@.len());
    reveal_strlit("PropStatement");
    assert("CreativeCommonsLicense"@.len() != "PropStatement"@.len());
    reveal_strlit("PropStatementValue");
    assert("CreativeCommonsLicense"@.len() != "PropStatementValue"@.len());
    reveal_strlit("PropStatementValueNorm");
    assert("CreativeCommonsLicense"@[0] != "PropStatementValueNorm"@[0]);
    reveal_strlit("PropRef");
    assert("CreativeCommonsLicense"@.len() != "PropRef"@.len());
    reveal_strlit("PropReferenceValue");
    assert("CreativeCommonsLicense"@.len() != "PropReferenceValue"@.len());
    reveal_strlit("PropReferenceValueNorm");
    assert("CreativeCommonsLicense"@[0] != "PropReferenceValueNorm"@[0]);
    reveal_strlit("PropQual");
    assert("CreativeCommonsLicense"@.len() != "PropQual"@.len());
    reveal_strlit("PropQualValue");
    assert("CreativeCommonsLicense"@.len() != "PropQualValue"@.len());
    reveal_strlit("PropQualValueNorm");
    assert("CreativeCommonsLicense"@.len() != "PropQualValueNorm"@.len());
    reveal_strlit("WikibaseOntology");
    assert("CreativeCommonsLicense"@.len() != "WikibaseOntology"@.len());
    reveal_strlit("SchemaOrg");
    assert("CreativeCommonsLicense"@.len() != "SchemaOrg"@.len());
    reveal_strlit("W3Owl");
    assert("CreativeCommonsLicense"@.len() != "W3Owl"@.len());
    reveal_strlit("StatementEntityItem");
    assert("CreativeCommonsLicense"@.len() != "StatementEntityItem"@.len());
    reveal_strlit("StatementEntityMedia");
    assert("CreativeCommonsLicense"@.len() != "StatementEntityMedia"@.len());
    reveal_strlit("StatementEntityLexeme");
    assert("CreativeCommonsLicense"@.len() != "StatementEntityLexeme"@.len());
    reveal_strlit("StatementEntityProp");
    assert("CreativeCommonsLicense"@.len() != "StatementEntityProp"@.len());
    reveal_strlit("StatementEntityLexemeF");
    assert("CreativeCommonsLicense"@[0] != "StatementEntityLexemeF"@[0]);
    reveal_strlit("StatementEntityLexemeS");
    assert("CreativeCommonsLicense"@[0] != "StatementEntityLexemeS"@[0]);
    reveal_strlit("StatementEntityUnknown");
    assert("CreativeCommonsLicense"@[0] != "StatementEntityUnknown"@[0]);
    reveal_strlit("Reference");
    assert("CreativeCommonsLicense"@.len() != "Reference"@.len());
    reveal_strlit("Value");
    assert("CreativeCommonsLicense"@.len() != "Value"@.len());
    reveal_strlit("DateTime");
    assert("CreativeCommonsLicense"@.len() != "DateTime"@.len());
    reveal_strlit("LatLon");
    assert("CreativeCommonsLicense"@.len() != "LatLon"@.len());
    reveal_strlit("Decimal");
    assert("CreativeCommonsLicense"@.len() != "Decimal"@.len());
    reveal_strlit("RdfSchemaLabel");
    reveal_strlit("WasDerivedFrom");
    reveal_strlit("PurlLanguage");
    reveal_strlit("W3RdfSyntaxNsType");
    reveal_strlit("W3SkosCoreAltLabel");
    reveal_strlit("W3SkosCorePrefLabel");
    reveal_strlit("W3OntolexLexicalForm");
    reveal_strlit("W3OntolexRepresentation");
}

/// The column layout of a term is a function of its kind name.
pub proof fn lemma_layout_of_kind(e: ElementModel)
    ensures
        layout(e) == layout_of_kind(kind_name(e)),
{
    match e {
        ElementModel::Text(_) => { lemma_kind_text(); },
        ElementModel::TextInLanguage(_, _) => { lemma_kind_text_in_language(); },
        ElementModel::WikiPage(_, _) => { lemma_kind_wiki_page(); },
        ElementModel::Property(_) => { lemma_kind_property(); },
        ElementModel::Reference(_) => { lemma_kind_reference(); },
        ElementModel::Value(_) => { lemma_kind_value(); },
        ElementModel::DateTime(_) => { lemma_kind_date_time(); },
        ElementModel::LatLon(_) => { lemma_kind_lat_lon(); },
        ElementModel::Int(_) => { lemma_kind_integer(); },
        ElementModel::Float(_) => { lemma_kind_decimal(); },
        ElementModel::Url(_) => { lemma_kind_url(); },
        ElementModel::Entity(x) => match x {
            EntityModel::Item(_) => { lemma_kind_entity_item(); },
            EntityModel::Property(_) => { lemma_kind_entity_prop(); },
            EntityModel::Media(_) => { lemma_kind_entity_media(); },
            EntityModel::Lexeme(_) => { lemma_kind_entity_lexeme(); },
            EntityModel::LexemeForm(_, _) => { lemma_kind_entity_lexeme_f(); },
            EntityModel::LexemeSense(_, _) => { lemma_kind_entity_lexeme_s(); },
            EntityModel::Unknown(_) => { lemma_kind_entity_unknown(); },
        },
        ElementModel::EntityStatement(x) => match x.entity {
            EntityModel::Item(_) => { lemma_kind_statement_entity_item(); },
            EntityModel::Property(_) => { lemma_kind_statement_entity_prop(); },
            EntityModel::Media(_) => { lemma_kind_statement_entity_media(); },
            EntityModel::Lexeme(_) => { lemma_kind_statement_entity_lexeme(); },
            EntityModel::LexemeForm(_, _) => { lemma_kind_statement_entity_lexeme_f(); },
            EntityModel::LexemeSense(_, _) => { lemma_kind_statement_entity_lexeme_s(); },
            EntityModel::Unknown(_) => { lemma_kind_statement_entity_unknown(); },
        },
        ElementModel::Keyed(k, _) => match k {
            Keyed::PropertyDirect => { lemma_kind_property_direct(); },
            Keyed::PropertyDirectNormalized => { lemma_kind_prop_direct_norm(); },
            Keyed::PropertyStatement => { lemma_kind_prop_statement(); },
            Keyed::PropertyStatementValue => { lemma_kind_prop_statement_value(); },
            Keyed::PropertyStatementValueNormalized => { lemma_kind_prop_statement_value_norm(); },
            Keyed::PropertyReference => { lemma_kind_prop_ref(); },
            Keyed::PropertyReferenceValue => { lemma_kind_prop_reference_value(); },
            Keyed::PropertyReferenceValueNormalized => { lemma_kind_prop_reference_value_norm(); },
            Keyed::PropertyQualifier => { lemma_kind_prop_qual(); },
            Keyed::PropertyQualifierValue => { lemma_kind_prop_qual_value(); },
            Keyed::PropertyQualifierValueNormalized => { lemma_kind_prop_qual_value_norm(); },
            Keyed::WikibaseOntology => { lemma_kind_wikibase_ontology(); },
            Keyed::SchemaOrg => { lemma_kind_schema_org(); },
            Keyed::W3Owl => { lemma_kind_w3_owl(); },
        },
        ElementModel::Fixed(f) => match f {
            Fixed::RdfSchemaLabel => { lemma_kind_rdf_schema_label(); },
            Fixed::WasDerivedFrom => { lemma_kind_was_derived_from(); },
            Fixed::PurlLanguage => { lemma_kind_purl_language(); },
            Fixed::W3RdfSyntaxNsType => { lemma_kind_w3_rdf_syntax_ns_type(); },
            Fixed::W3SkosCoreAltLabel => { lemma_kind_w3_skos_core_alt_label(); },
            Fixed::W3SkosCorePrefLabel => { lemma_kind_w3_skos_core_pref_label(); },
            Fixed::W3OntolexLexicalForm => { lemma_kind_w3_ontolex_lexical_form(); },
            Fixed::W3OntolexRepresentation => { lemma_kind_w3_ontolex_representation(); },
            Fixed::CreativeCommonsLicense => { lemma_kind_creative_commons_license(); },
        },
    }
}

/// A name cut at its last `_`: what stands before the `__` ending there, and what follows.
pub open spec fn split_last(n: Seq<char>) -> (Seq<char>, Seq<char>) {
    let i = crate::text::last_index(n, '_');
    (n.subrange(0, i - 1), n.subrange(i + 1, n.len() as int))
}

proof fn lemma_split_last(a: Seq<char>, b: Seq<char>)
    requires
        !b.contains('_'),
    ensures
        split_last(a + "__"@ + b) == (a, b),
{
    reveal_strlit("__");
    let n = a + "__"@ + b;
    let k: int = a.len() as int + 1;
    assert(n[k] == '_');
    assert forall|j: int| k < j < n.len() implies n[j] != '_' by {
        assert(n[j] == b[j - k - 1]);
    }
    assert(last_at(n, '_', k));
    lemma_last_index(n, '_', k);
    assert(n.subrange(0, k - 1) =~= a);
    assert(n.subrange(k + 1, n.len() as int) =~= b);
}

/// The kind name at the start of a predicate fragment: all of it up to the first `_`.
pub open spec fn fragment_kind(f: Seq<char>) -> Seq<char> {
    let i = first_index(f, '_');
    if i < 0 { f } else { f.subrange(0, i) }
}

proof fn lemma_fragment_kind(e: ElementModel)
    ensures
        fragment_kind(table_fragment(e)) == kind_name(e),
{
    reveal_strlit("_");
    lemma_kind_name_plain(e);
    let k = kind_name(e);
    let f = table_fragment(e);
    if key_suffix(e).len() == 0 {
        assert(f =~= k);
        crate::text::lemma_no_first_index(f, '_');
    } else {
        assert(key_suffix(e)[0] == '_');
        assert(f[k.len() as int] == '_');
        assert forall|j: int| 0 <= j < k.len() implies f[j] != '_' by {
            assert(f[j] == k[j]);
        }
        assert(first_at(f, '_', 0, k.len() as int));
        lemma_first_index(f, '_', k.len() as int);
        assert(f.subrange(0, k.len() as int) =~= k);
    }
}

/// Two shapes with the same table name have the same kind names, the same subject
/// and object layouts, and the same predicate fragment: distinct shapes never share
/// a table.
pub proof fn lemma_table_name_determines_shape(
    s1: ElementModel,
    p1: ElementModel,
    o1: ElementModel,
    s2: ElementModel,
    p2: ElementModel,
    o2: ElementModel,
)
    requires
        table_name_of(s1, p1, o1) == table_name_of(s2, p2, o2),
    ensures
        table_of(s1, p1, o1).names == table_of(s2, p2, o2).names,
        table_of(s1, p1, o1).key_layout == table_of(s2, p2, o2).key_layout,
        table_of(s1, p1, o1).value_layout == table_of(s2, p2, o2).value_layout,
        table_of(s1, p1, o1).property == table_of(s2, p2, o2).property,
{
    lemma_kind_name_plain(s1);
    lemma_kind_name_plain(o1);
    lemma_kind_name_plain(s2);
    lemma_kind_name_plain(o2);
    let b1 = "data__"@ + table_fragment(p1);
    let b2 = "data__"@ + table_fragment(p2);
    let a1 = b1 + "__"@ + kind_name(s1);
    let a2 = b2 + "__"@ + kind_name(s2);
    lemma_split_last(a1, kind_name(o1));
    lemma_split_last(a2, kind_name(o2));
    lemma_split_last(b1, kind_name(s1));
    lemma_split_last(b2, kind_name(s2));
    assert(a1 == a2);
    assert(b1 == b2);
    reveal_strlit("data__");
    assert(b1.subrange(6, b1.len() as int) =~= table_fragment(p1));
    assert(b2.subrange(6, b2.len() as int) =~= table_fragment(p2));
    lemma_fragment_kind(p1);
    lemma_fragment_kind(p2);
    lemma_layout_of_kind(s1);
    lemma_layout_of_kind(s2);
    lemma_layout_of_kind(o1);
    lemma_layout_of_kind(o2);
}

/// Every `i64` written in decimal reads back as itself in an integer literal.
pub proof fn lemma_integer_literal_round_trip(i: int)
    requires
        i64::MIN <= i <= i64::MAX,
    ensures
        crate::parser::int_of(crate::text::signed_decimal(i)) == Some(i),
        crate::parser::typed_element(crate::text::signed_decimal(i), "http://www.w3.org/2001/XMLSchema#integer"@)
            == Some(ElementModel::Int(i)),
{
    let t = crate::text::signed_decimal(i);
    if i < 0 {
        lemma_decimal((-i) as nat);
        assert(t.subrange(1, t.len() as int) =~= decimal((-i) as nat));
    } else {
        lemma_decimal(i as nat);
        assert(crate::text::is_digit(t[0]));
        assert(t.subrange(0, t.len() as int) =~= t);
    }
    reveal_strlit("http://www.w3.org/2001/XMLSchema#dateTime");
    reveal_strlit("http://www.opengis.net/ont/geosparql#wktLiteral");
    reveal_strlit("http://www.w3.org/2001/XMLSchema#decimal");
    reveal_strlit("http://www.w3.org/2001/XMLSchema#double");
    reveal_strlit("http://www.w3.org/2001/XMLSchema#integer");
    assert("http://www.w3.org/2001/XMLSchema#integer"@.len() != "http://www.w3.org/2001/XMLSchema#dateTime"@.len());
    assert("http://www.w3.org/2001/XMLSchema#integer"@.len() != "http://www.opengis.net/ont/geosparql#wktLiteral"@.len());
    assert("http://www.w3.org/2001/XMLSchema#integer"@[33] != "http://www.w3.org/2001/XMLSchema#decimal"@[33]);
    assert("http://www.w3.org/2001/XMLSchema#integer"@.len() != "http://www.w3.org/2001/XMLSchema#double"@.len());
}

proof fn lemma_pad2(v: int)
    requires
        0 <= v <= 99,
    ensures
        crate::date_time::pad2(v).len() == 2,
        is_digit(crate::date_time::pad2(v)[0]),
        is_digit(crate::date_time::pad2(v)[1]),
        digit_value(crate::date_time::pad2(v)[0]) * 10 + digit_value(crate::date_time::pad2(v)[1]) == v,
{
    reveal_strlit("0");
    let p = crate::date_time::pad2(v);
    if v < 10 {
        lemma_digit(v as nat);
        assert(p[1] == digit_char(v));
    } else {
        let n = v as nat;
        lemma_digit(n / 10);
        lemma_digit(n % 10);
        assert(decimal(n / 10) == seq![digit_char((n / 10) as int)]);
        assert(p[0] == digit_char((n / 10) as int));
        assert(p[1] == digit_char((n % 10) as int));
        assert(n == (n / 10) * 10 + n % 10) by (nonlinear_arith);
    }
}

/// A point in time written as text reads back as itself.
pub proof fn lemma_date_time_round_trip(d: crate::date_time::DateTimeModel)
    requires
        i32::MIN <= d.year <= i32::MAX,
        0 <= d.month <= 99,
        0 <= d.day <= 99,
        0 <= d.hour <= 99,
        0 <= d.minute <= 99,
        0 <= d.second <= 99,
    ensures
        crate::date_time::date_time_of(crate::date_time::date_time_text(d)) == Some(d),
{
    reveal_strlit("-");
    reveal_strlit("T");
    reveal_strlit(":");
    reveal_strlit("Z");
    lemma_pad2(d.month);
    lemma_pad2(d.day);
    lemma_pad2(d.hour);
    lemma_pad2(d.minute);
    lemma_pad2(d.second);
    let y = crate::text::signed_decimal(d.year);
    let sfx = "-"@ + pad2(d.month) + "-"@ + pad2(d.day) + "T"@ + pad2(d.hour) + ":"@ + pad2(d.minute) + ":"@
        + pad2(d.second) + "Z"@;
    let t = crate::date_time::date_time_text(d);
    assert(t =~= y + sfx);
    let n = t.len() as int;
    let b = y.len() as int;
    assert(sfx.len() == 16);
    assert(n == b + 16);
    assert(t.subrange(0, n - 16) =~= y);
    assert forall|k: int| 0 <= k < 16 implies t[b + k] == sfx[k] by {}
    assert(sfx[0] == '-' && sfx[3] == '-' && sfx[6] == 'T' && sfx[9] == ':' && sfx[12] == ':' && sfx[15] == 'Z');
    assert(sfx[1] == pad2(d.month)[0] && sfx[2] == pad2(d.month)[1]);
    assert(sfx[4] == pad2(d.day)[0] && sfx[5] == pad2(d.day)[1]);
    assert(sfx[7] == pad2(d.hour)[0] && sfx[8] == pad2(d.hour)[1]);
    assert(sfx[10] == pad2(d.minute)[0] && sfx[11] == pad2(d.minute)[1]);
    assert(sfx[13] == pad2(d.second)[0] && sfx[14] == pad2(d.second)[1]);
    assert(t[n - 16] == sfx[0]);
    assert(t[n - 15] == sfx[1] && t[n - 14] == sfx[2]);
    assert(t[n - 13] == sfx[3]);
    assert(t[n - 12] == sfx[4] && t[n - 11] == sfx[5]);
    assert(t[n - 10] == sfx[6]);
    assert(t[n - 9] == sfx[7] && t[n - 8] == sfx[8]);
    assert(t[n - 7] == sfx[9]);
    assert(t[n - 6] == sfx[10] && t[n - 5] == sfx[11]);
    assert(t[n - 4] == sfx[12]);
    assert(t[n - 3] == sfx[13] && t[n - 2] == sfx[14]);
    assert(t[n - 1] == sfx[15]);
    if d.year < 0 {
        lemma_decimal((-d.year) as nat);
        assert(year_digits(y) =~= decimal((-d.year) as nat));
    } else {
        lemma_decimal(d.year as nat);
        assert(is_digit(y[0]));
        assert(year_digits(y) =~= y);
    }
    assert(year_value(y) == d.year);
}

} // verus!
