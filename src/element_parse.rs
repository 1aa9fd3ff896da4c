//! Reading a term from the lexical form of an IRI.

use vstd::prelude::*;
use crate::element::{Element, ElementModel, Fixed, Keyed};
use crate::entity::{Entity, entity_of};
use crate::entity_statement::{EntityStatement, statement_of};
use crate::text::{first_index, index_of, last_index, last_index_of, range_is, str_eq, substring};
use crate::text_id::{TextId, text_of};
use crate::uuid::{UUID32, UUID40, uuid_of};

verus! {

/// The part of `s` before its last `/`, and the part after it (all of `s` if there is none).
pub open spec fn split_root(s: Seq<char>) -> (Seq<char>, Seq<char>) {
    let k = last_index(s, '/');
    if k < 0 {
        (Seq::empty(), s)
    } else {
        (s.subrange(0, k), s.subrange(k + 1, s.len() as int))
    }
}

/// The kind of keyed term whose IRIs have the root `root`.
pub open spec fn keyed_root(root: Seq<char>) -> Option<Keyed> {
    if root == "http://www.wikidata.org/prop/direct"@ {
        Some(Keyed::PropertyDirect)
    } else if root == "http://www.wikidata.org/prop/direct-normalized"@ {
        Some(Keyed::PropertyDirectNormalized)
    } else if root == "http://www.wikidata.org/prop/statement"@ {
        Some(Keyed::PropertyStatement)
    } else if root == "http://www.wikidata.org/prop/statement/value"@ {
        Some(Keyed::PropertyStatementValue)
    } else if root == "http://www.wikidata.org/prop/statement/value-normalized"@ {
        Some(Keyed::PropertyStatementValueNormalized)
    } else if root == "http://www.wikidata.org/prop/reference"@ {
        Some(Keyed::PropertyReference)
    } else if root == "http://www.wikidata.org/prop/reference/value"@ {
        Some(Keyed::PropertyReferenceValue)
    } else if root == "http://www.wikidata.org/prop/reference/value-normalized"@ {
        Some(Keyed::PropertyReferenceValueNormalized)
    } else if root == "http://www.wikidata.org/prop/qualifier"@ {
        Some(Keyed::PropertyQualifier)
    } else if root == "http://www.wikidata.org/prop/qualifier/value"@ {
        Some(Keyed::PropertyQualifierValue)
    } else if root == "http://www.wikidata.org/prop/qualifier/value-normalized"@ {
        Some(Keyed::PropertyQualifierValueNormalized)
    } else if root == "http://schema.org"@ {
        Some(Keyed::SchemaOrg)
    } else {
        None
    }
}

/// The roots under which a closed list of keys is recognised.
pub open spec fn fixed_root(root: Seq<char>) -> bool {
    root == "http://purl.org/dc/terms"@ || root == "http://www.w3.org/2000/01"@
        || root == "http://creativecommons.org"@ || root == "http://www.w3.org/ns"@
        || root == "http://www.w3.org/1999/02"@ || root == "http://www.w3.org/ns/lemon"@
        || root == "http://www.w3.org/2004/02/skos"@
}

/// The well-known IRI with this root and key.
pub open spec fn fixed_of(root: Seq<char>, key: Seq<char>) -> Option<Fixed> {
    if root == "http://purl.org/dc/terms"@ && key == "language"@ {
        Some(Fixed::PurlLanguage)
    } else if root == "http://www.w3.org/2000/01"@ && key == "rdf-schema#label"@ {
        Some(Fixed::RdfSchemaLabel)
    } else if root == "http://creativecommons.org"@ && key == "ns#license"@ {
        Some(Fixed::CreativeCommonsLicense)
    } else if root == "http://www.w3.org/ns"@ && key == "prov#wasDerivedFrom"@ {
        Some(Fixed::WasDerivedFrom)
    } else if root == "http://www.w3.org/1999/02"@ && key == "22-rdf-syntax-ns#type"@ {
        Some(Fixed::W3RdfSyntaxNsType)
    } else if root == "http://www.w3.org/ns/lemon"@ && key == "ontolex#lexicalForm"@ {
        Some(Fixed::W3OntolexLexicalForm)
    } else if root == "http://www.w3.org/ns/lemon"@ && key == "ontolex#representation"@ {
        Some(Fixed::W3OntolexRepresentation)
    } else if root == "http://www.w3.org/2004/02/skos"@ && key == "core#altLabel"@ {
        Some(Fixed::W3SkosCoreAltLabel)
    } else if root == "http://www.w3.org/2004/02/skos"@ && key == "core#prefLabel"@ {
        Some(Fixed::W3SkosCorePrefLabel)
    } else {
        None
    }
}

/// What follows `<head>#` in `key`, if `key` has that form.
pub open spec fn hash_rest(key: Seq<char>, head: Seq<char>) -> Option<Seq<char>> {
    let h = first_index(key, '#');
    if h >= 0 && key.subrange(0, h) == head {
        Some(key.subrange(h + 1, key.len() as int))
    } else {
        None
    }
}

/// `/wiki/` stands at `i` of `r`, with at least one character before and after it.
pub open spec fn wiki_at(r: Seq<char>, i: int) -> bool {
    1 <= i && i + 6 < r.len() && r.subrange(i, i + 6) == "/wiki/"@
}

/// `i` is the first such position.
pub open spec fn first_wiki(r: Seq<char>, i: int) -> bool {
    wiki_at(r, i) && forall|j: int| 1 <= j < i ==> !wiki_at(r, j)
}

/// The length of a leading `http://` or `https://`, or `-1`.
pub open spec fn scheme_len(s: Seq<char>) -> int {
    if s.len() >= 7 && s.subrange(0, 7) == "http://"@ {
        7
    } else if s.len() >= 8 && s.subrange(0, 8) == "https://"@ {
        8
    } else {
        -1
    }
}

/// The server and page of `http[s]://<server>/wiki/<page>`, the server as short as it can be.
pub open spec fn wiki_page(s: Seq<char>) -> Option<(Seq<char>, Seq<char>)> {
    let n = scheme_len(s);
    let r = s.subrange(n, s.len() as int);
    if n >= 0 && !s.contains('\n') && exists|i: int| first_wiki(r, i) {
        let i = choose|i: int| first_wiki(r, i);
        Some((r.subrange(0, i), r.subrange(i + 6, r.len() as int)))
    } else {
        None
    }
}

/// The term that the IRI `s` stands for; shapes that match no known form,
/// including malformed statement, reference and value keys, give a URL term.
pub open spec fn parse_model(s: Seq<char>) -> ElementModel {
    let (root, key) = split_root(s);
    if root == "http://www.wikidata.org/entity"@ {
        ElementModel::Entity(entity_of(key))
    } else if root == "http://www.wikidata.org/entity/statement"@ {
        match statement_of(key) {
            Some(st) => ElementModel::EntityStatement(st),
            None => ElementModel::Url(text_of(s)),
        }
    } else if root == "http://www.wikidata.org/prop"@ {
        ElementModel::Property(entity_of(key))
    } else if keyed_root(root) is Some {
        ElementModel::Keyed(keyed_root(root)->Some_0, key)
    } else if root == "http://www.wikidata.org/reference"@ {
        match uuid_of(key, 40) {
            Some(u) => ElementModel::Reference(u),
            None => ElementModel::Url(text_of(s)),
        }
    } else if root == "http://www.wikidata.org/value"@ {
        match uuid_of(key, 32) {
            Some(u) => ElementModel::Value(u),
            None => ElementModel::Url(text_of(s)),
        }
    } else if root == "http://wikiba.se"@ {
        match hash_rest(key, "ontology"@) {
            Some(k) => ElementModel::Keyed(Keyed::WikibaseOntology, k),
            None => ElementModel::Url(text_of(s)),
        }
    } else if root == "http://www.w3.org/2002/07"@ {
        match hash_rest(key, "owl"@) {
            Some(k) => ElementModel::Keyed(Keyed::W3Owl, k),
            None => ElementModel::Url(text_of(s)),
        }
    } else if fixed_root(root) {
        match fixed_of(root, key) {
            Some(f) => ElementModel::Fixed(f),
            None => ElementModel::Url(text_of(s)),
        }
    } else {
        match wiki_page(s) {
            Some((h, p)) => ElementModel::WikiPage(text_of(h), text_of(p)),
            None => ElementModel::Url(text_of(s)),
        }
    }
}

fn keyed_root_of(root: &str) -> (r: Option<Keyed>)
    ensures
        r == keyed_root(root@),
{
    if str_eq(root, "http://www.wikidata.org/prop/direct") {
        Some(Keyed::PropertyDirect)
    } else if str_eq(root, "http://www.wikidata.org/prop/direct-normalized") {
        Some(Keyed::PropertyDirectNormalized)
    } else if str_eq(root, "http://www.wikidata.org/prop/statement") {
        Some(Keyed::PropertyStatement)
    } else if str_eq(root, "http://www.wikidata.org/prop/statement/value") {
        Some(Keyed::PropertyStatementValue)
    } else if str_eq(root, "http://www.wikidata.org/prop/statement/value-normalized") {
        Some(Keyed::PropertyStatementValueNormalized)
    } else if str_eq(root, "http://www.wikidata.org/prop/reference") {
        Some(Keyed::PropertyReference)
    } else if str_eq(root, "http://www.wikidata.org/prop/reference/value") {
        Some(Keyed::PropertyReferenceValue)
    } else if str_eq(root, "http://www.wikidata.org/prop/reference/value-normalized") {
        Some(Keyed::PropertyReferenceValueNormalized)
    } else if str_eq(root, "http://www.wikidata.org/prop/qualifier") {
        Some(Keyed::PropertyQualifier)
    } else if str_eq(root, "http://www.wikidata.org/prop/qualifier/value") {
        Some(Keyed::PropertyQualifierValue)
    } else if str_eq(root, "http://www.wikidata.org/prop/qualifier/value-normalized") {
        Some(Keyed::PropertyQualifierValueNormalized)
    } else if str_eq(root, "http://schema.org") {
        Some(Keyed::SchemaOrg)
    } else {
        None
    }
}

fn is_fixed_root(root: &str) -> (r: bool)
    ensures
        r == fixed_root(root@),
{
    str_eq(root, "http://purl.org/dc/terms") || str_eq(root, "http://www.w3.org/2000/01")
        || str_eq(root, "http://creativecommons.org") || str_eq(root, "http://www.w3.org/ns")
        || str_eq(root, "http://www.w3.org/1999/02") || str_eq(root, "http://www.w3.org/ns/lemon")
        || str_eq(root, "http://www.w3.org/2004/02/skos")
}

fn fixed_of_exec(root: &str, key: &str) -> (r: Option<Fixed>)
    ensures
        r == fixed_of(root@, key@),
{
    if str_eq(root, "http://purl.org/dc/terms") && str_eq(key, "language") {
        Some(Fixed::PurlLanguage)
    } else if str_eq(root, "http://www.w3.org/2000/01") && str_eq(key, "rdf-schema#label") {
        Some(Fixed::RdfSchemaLabel)
    } else if str_eq(root, "http://creativecommons.org") && str_eq(key, "ns#license") {
        Some(Fixed::CreativeCommonsLicense)
    } else if str_eq(root, "http://www.w3.org/ns") && str_eq(key, "prov#wasDerivedFrom") {
        Some(Fixed::WasDerivedFrom)
    } else if str_eq(root, "http://www.w3.org/1999/02") && str_eq(key, "22-rdf-syntax-ns#type") {
        Some(Fixed::W3RdfSyntaxNsType)
    } else if str_eq(root, "http://www.w3.org/ns/lemon") && str_eq(key, "ontolex#lexicalForm") {
        Some(Fixed::W3OntolexLexicalForm)
    } else if str_eq(root, "http://www.w3.org/ns/lemon") && str_eq(key, "ontolex#representation") {
        Some(Fixed::W3OntolexRepresentation)
    } else if str_eq(root, "http://www.w3.org/2004/02/skos") && str_eq(key, "core#altLabel") {
        Some(Fixed::W3SkosCoreAltLabel)
    } else if str_eq(root, "http://www.w3.org/2004/02/skos") && str_eq(key, "core#prefLabel") {
        Some(Fixed::W3SkosCorePrefLabel)
    } else {
        None
    }
}

fn hash_rest_of(key: &str, head: &str) -> (r: Option<String>)
    ensures
        match r {
            Some(k) => hash_rest(key@, head@) == Some(k@),
            None => hash_rest(key@, head@) is None,
        },
{
    let v = crate::text::chars_of(key);
    let n = v.len();
    match index_of(&v, '#') {
        Some(h) => {
            if range_is(&v, 0, h, head) {
                Some(substring(&v, h + 1, n))
            } else {
                None
            }
        },
        None => None,
    }
}

fn make_keyed(k: Keyed, key: String) -> (r: Element)
    ensures
        r@ == ElementModel::Keyed(k, key@),
{
    match k {
        Keyed::PropertyDirect => Element::PropertyDirect(key),
        Keyed::PropertyDirectNormalized => Element::PropertyDirectNormalized(key),
        Keyed::PropertyStatement => Element::PropertyStatement(key),
        Keyed::PropertyStatementValue => Element::PropertyStatementValue(key),
        Keyed::PropertyStatementValueNormalized => Element::PropertyStatementValueNormalized(key),
        Keyed::PropertyReference => Element::PropertyReference(key),
        Keyed::PropertyReferenceValue => Element::PropertyReferenceValue(key),
        Keyed::PropertyReferenceValueNormalized => Element::PropertyReferenceValueNormalized(key),
        Keyed::PropertyQualifier => Element::PropertyQualifier(key),
        Keyed::PropertyQualifierValue => Element::PropertyQualifierValue(key),
        Keyed::PropertyQualifierValueNormalized => Element::PropertyQualifierValueNormalized(key),
        Keyed::WikibaseOntology => Element::WikibaseOntology(key),
        Keyed::SchemaOrg => Element::SchemaOrg(key),
        Keyed::W3Owl => Element::W3Owl(key),
    }
}

fn make_fixed(f: Fixed) -> (r: Element)
    ensures
        r@ == ElementModel::Fixed(f),
{
    match f {
        Fixed::RdfSchemaLabel => Element::RdfSchemaLabel,
        Fixed::WasDerivedFrom => Element::WasDerivedFrom,
        Fixed::PurlLanguage => Element::PurlLanguage,
        Fixed::W3RdfSyntaxNsType => Element::W3RdfSyntaxNsType,
        Fixed::W3SkosCoreAltLabel => Element::W3SkosCoreAltLabel,
        Fixed::W3SkosCorePrefLabel => Element::W3SkosCorePrefLabel,
        Fixed::W3OntolexLexicalForm => Element::W3OntolexLexicalForm,
        Fixed::W3OntolexRepresentation => Element::W3OntolexRepresentation,
        Fixed::CreativeCommonsLicense => Element::CreativeCommonsLicense,
    }
}

proof fn lemma_first_wiki_unique(r: Seq<char>, i: int, j: int)
    requires
        first_wiki(r, i),
        first_wiki(r, j),
    ensures
        i == j,
{
}

/// The server and page of a wiki page IRI.
fn wiki_page_of(s: &str) -> (r: Option<(String, String)>)
    ensures
        match r {
            Some((h, p)) => wiki_page(s@) == Some((h@, p@)),
            None => wiki_page(s@) is None,
        },
{
    let v = crate::text::chars_of(s);
    let n = v.len();
    proof {
        reveal_strlit("http://");
        reveal_strlit("https://");
    }
    let start: usize = if n >= 7 && range_is(&v, 0, 7, "http://") {
        7
    } else if n >= 8 && range_is(&v, 0, 8, "https://") {
        8
    } else {
        return None;
    };
    if crate::text::find_char(&v, '\n', 0).is_some() {
        return None;
    }
    assert(!s@.contains('\n'));
    assert(scheme_len(s@) == start as int);
    let ghost r = v@.subrange(start as int, n as int);
    if n <= start + 7 {
        assert forall|c: int| !first_wiki(r, c) by {}
        return None;
    }
    let mut i: usize = start + 1;
    while n - i > 6
        invariant
            start + 1 <= i <= n,
            n == v@.len(),
            v@ == s@,
            scheme_len(s@) == start as int,
            !s@.contains('\n'),
            r == v@.subrange(start as int, n as int),
            forall|j: int| 1 <= j < i - start ==> !wiki_at(r, j),
        decreases n - i,
    {
        if range_is(&v, i, i + 6, "/wiki/") {
            assert(r.subrange(i - start, i - start + 6) =~= v@.subrange(i as int, i + 6));
            assert(first_wiki(r, i - start));
            proof {
                let c = choose|c: int| first_wiki(r, c);
                lemma_first_wiki_unique(r, c, i - start);
                assert(s@.subrange(scheme_len(s@), s@.len() as int) == r);
                assert(wiki_page(s@) == Some((r.subrange(0, i - start), r.subrange(i - start + 6, r.len() as int))));
            }
            assert(r.subrange(0, i - start) =~= v@.subrange(start as int, i as int));
            assert(r.subrange(i - start + 6, r.len() as int) =~= v@.subrange(i + 6, n as int));
            return Some((substring(&v, start, i), substring(&v, i + 6, n)));
        }
        assert(r.subrange(i - start, i - start + 6) =~= v@.subrange(i as int, i + 6));
        i = i + 1;
    }
    assert forall|c: int| !first_wiki(r, c) by {
        if first_wiki(r, c) {
            assert(wiki_at(r, c));
        }
    }
    None
}

impl Element {
    /// The term that the IRI `element` stands for; always `Some`: what matches no
    /// known form becomes a URL term.
    pub fn from_str(element: &str) -> (r: Option<Element>)
        ensures
            r matches Some(e) && parse_model(element@) == e@,
    {
        let v = crate::text::chars_of(element);
        let (root, key) = match last_index_of(&v, '/') {
            Some(k) => (substring(&v, 0, k), substring(&v, k + 1, v.len())),
            None => (String::new(), element.to_string()),
        };
        assert(split_root(element@) == (root@, key@));
        if str_eq(root.as_str(), "http://www.wikidata.org/entity") {
            return Some(Element::Entity(Entity::from_str(key.as_str())));
        }
        if str_eq(root.as_str(), "http://www.wikidata.org/entity/statement") {
            return match EntityStatement::from_str(key.as_str()) {
                Some(st) => Some(Element::EntityStatement(st)),
                None => Some(Element::Url(TextId::from_str_lossy(element))),
            };
        }
        if str_eq(root.as_str(), "http://www.wikidata.org/prop") {
            return Some(Element::Property(Entity::from_str(key.as_str())));
        }
        if let Some(k) = keyed_root_of(root.as_str()) {
            return Some(make_keyed(k, key));
        }
        if str_eq(root.as_str(), "http://www.wikidata.org/reference") {
            return match UUID40::from_str(key.as_str()) {
                Some(u) => Some(Element::Reference(u)),
                None => Some(Element::Url(TextId::from_str_lossy(element))),
            };
        }
        if str_eq(root.as_str(), "http://www.wikidata.org/value") {
            return match UUID32::from_str(key.as_str()) {
                Some(u) => Some(Element::Value(u)),
                None => Some(Element::Url(TextId::from_str_lossy(element))),
            };
        }
        if str_eq(root.as_str(), "http://wikiba.se") {
            return match hash_rest_of(key.as_str(), "ontology") {
                Some(k) => Some(Element::WikibaseOntology(k)),
                None => Some(Element::Url(TextId::from_str_lossy(element))),
            };
        }
        if str_eq(root.as_str(), "http://www.w3.org/2002/07") {
            return match hash_rest_of(key.as_str(), "owl") {
                Some(k) => Some(Element::W3Owl(k)),
                None => Some(Element::Url(TextId::from_str_lossy(element))),
            };
        }
        if is_fixed_root(root.as_str()) {
            return match fixed_of_exec(root.as_str(), key.as_str()) {
                Some(f) => Some(make_fixed(f)),
                None => Some(Element::Url(TextId::from_str_lossy(element))),
            };
        }
        match wiki_page_of(element) {
            Some((h, p)) => Some(
                Element::WikiPage(TextId::from_str_lossy(h.as_str()), TextId::from_str_lossy(p.as_str())),
            ),
            None => Some(Element::Url(TextId::from_str_lossy(element))),
        }
    }
}

} // verus!
