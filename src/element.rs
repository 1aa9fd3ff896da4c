//! The kind-tagged RDF term, its model, and the functions derived from its kind.

use vstd::prelude::*;
use crate::date_time::{DateTime, DateTimeModel};
use crate::db_operation_cache::{DbOperationCacheValue, ValueModel, models};
use crate::decimal::Decimal;
use crate::element_type::ElementType;
use crate::entity::{Entity, EntityModel, entity_key, entity_name, entity_parts, entity_table_name,
    entity_url, entity_values};
use crate::entity_statement::{EntityStatement, EntityStatementModel};
use crate::lat_lon::{LatLon, LatLonModel};
use crate::text::{cat, i64_decimal, lit, signed_decimal, str_eq};
use crate::text_id::TextId;
use crate::type_part::{TypePart, non_blank_count};
use crate::uuid::{UUID32, UUID40, unhex_sql};

verus! {

/// An RDF term, tagged with its kind.
#[derive(Debug)]
pub enum Element {
    Text(TextId),
    /// A text and its language tag.
    TextInLanguage(TextId, TextId),
    /// A wiki server and a page on it.
    WikiPage(TextId, TextId),
    Entity(Entity),
    EntityStatement(EntityStatement),
    Property(Entity),
    PropertyDirect(String),
    PropertyDirectNormalized(String),
    PropertyStatement(String),
    PropertyStatementValue(String),
    PropertyStatementValueNormalized(String),
    PropertyReference(String),
    PropertyReferenceValue(String),
    PropertyReferenceValueNormalized(String),
    PropertyQualifier(String),
    PropertyQualifierValue(String),
    PropertyQualifierValueNormalized(String),
    Reference(UUID40),
    Value(UUID32),
    DateTime(DateTime),
    LatLon(LatLon),
    Int(i64),
    Float(Decimal),
    Url(TextId),
    WikibaseOntology(String),
    SchemaOrg(String),
    W3Owl(String),
    RdfSchemaLabel,
    WasDerivedFrom,
    PurlLanguage,
    W3RdfSyntaxNsType,
    W3SkosCoreAltLabel,
    W3SkosCorePrefLabel,
    W3OntolexLexicalForm,
    W3OntolexRepresentation,
    CreativeCommonsLicense,
}

/// The kinds of term that carry one short key.
pub enum Keyed {
    PropertyDirect,
    PropertyDirectNormalized,
    PropertyStatement,
    PropertyStatementValue,
    PropertyStatementValueNormalized,
    PropertyReference,
    PropertyReferenceValue,
    PropertyReferenceValueNormalized,
    PropertyQualifier,
    PropertyQualifierValue,
    PropertyQualifierValueNormalized,
    WikibaseOntology,
    SchemaOrg,
    W3Owl,
}

/// The well-known IRIs that carry no data.
pub enum Fixed {
    RdfSchemaLabel,
    WasDerivedFrom,
    PurlLanguage,
    W3RdfSyntaxNsType,
    W3SkosCoreAltLabel,
    W3SkosCorePrefLabel,
    W3OntolexLexicalForm,
    W3OntolexRepresentation,
    CreativeCommonsLicense,
}

/// What a term stands for.
pub enum ElementModel {
    Text(Seq<char>),
    TextInLanguage(Seq<char>, Seq<char>),
    WikiPage(Seq<char>, Seq<char>),
    Entity(EntityModel),
    EntityStatement(EntityStatementModel),
    Property(EntityModel),
    Keyed(Keyed, Seq<char>),
    Reference(Seq<char>),
    Value(Seq<char>),
    DateTime(DateTimeModel),
    LatLon(LatLonModel),
    Int(int),
    Float(Seq<char>),
    Url(Seq<char>),
    Fixed(Fixed),
}

impl View for Element {
    type V = ElementModel;

    open spec fn view(&self) -> ElementModel {
        match self {
            Element::Text(t) => ElementModel::Text(t@),
            Element::TextInLanguage(t, l) => ElementModel::TextInLanguage(t@, l@),
            Element::WikiPage(h, p) => ElementModel::WikiPage(h@, p@),
            Element::Entity(e) => ElementModel::Entity(e@),
            Element::EntityStatement(e) => ElementModel::EntityStatement(e@),
            Element::Property(e) => ElementModel::Property(e@),
            Element::PropertyDirect(s) => ElementModel::Keyed(Keyed::PropertyDirect, s@),
            Element::PropertyDirectNormalized(s) => ElementModel::Keyed(Keyed::PropertyDirectNormalized, s@),
            Element::PropertyStatement(s) => ElementModel::Keyed(Keyed::PropertyStatement, s@),
            Element::PropertyStatementValue(s) => ElementModel::Keyed(Keyed::PropertyStatementValue, s@),
            Element::PropertyStatementValueNormalized(s) => ElementModel::Keyed(Keyed::PropertyStatementValueNormalized, s@),
            Element::PropertyReference(s) => ElementModel::Keyed(Keyed::PropertyReference, s@),
            Element::PropertyReferenceValue(s) => ElementModel::Keyed(Keyed::PropertyReferenceValue, s@),
            Element::PropertyReferenceValueNormalized(s) => ElementModel::Keyed(Keyed::PropertyReferenceValueNormalized, s@),
            Element::PropertyQualifier(s) => ElementModel::Keyed(Keyed::PropertyQualifier, s@),
            Element::PropertyQualifierValue(s) => ElementModel::Keyed(Keyed::PropertyQualifierValue, s@),
            Element::PropertyQualifierValueNormalized(s) => ElementModel::Keyed(Keyed::PropertyQualifierValueNormalized, s@),
            Element::Reference(u) => ElementModel::Reference(u@),
            Element::Value(u) => ElementModel::Value(u@),
            Element::DateTime(d) => ElementModel::DateTime(d@),
            Element::LatLon(l) => ElementModel::LatLon(l@),
            Element::Int(i) => ElementModel::Int(*i as int),
            Element::Float(d) => ElementModel::Float(d@),
            Element::Url(t) => ElementModel::Url(t@),
            Element::WikibaseOntology(s) => ElementModel::Keyed(Keyed::WikibaseOntology, s@),
            Element::SchemaOrg(s) => ElementModel::Keyed(Keyed::SchemaOrg, s@),
            Element::W3Owl(s) => ElementModel::Keyed(Keyed::W3Owl, s@),
            Element::RdfSchemaLabel => ElementModel::Fixed(Fixed::RdfSchemaLabel),
            Element::WasDerivedFrom => ElementModel::Fixed(Fixed::WasDerivedFrom),
            Element::PurlLanguage => ElementModel::Fixed(Fixed::PurlLanguage),
            Element::W3RdfSyntaxNsType => ElementModel::Fixed(Fixed::W3RdfSyntaxNsType),
            Element::W3SkosCoreAltLabel => ElementModel::Fixed(Fixed::W3SkosCoreAltLabel),
            Element::W3SkosCorePrefLabel => ElementModel::Fixed(Fixed::W3SkosCorePrefLabel),
            Element::W3OntolexLexicalForm => ElementModel::Fixed(Fixed::W3OntolexLexicalForm),
            Element::W3OntolexRepresentation => ElementModel::Fixed(Fixed::W3OntolexRepresentation),
            Element::CreativeCommonsLicense => ElementModel::Fixed(Fixed::CreativeCommonsLicense),
        }
    }
}

pub open spec fn keyed_name(k: Keyed) -> Seq<char> {
    match k {
        Keyed::PropertyDirect => "PropertyDirect"@,
        Keyed::PropertyDirectNormalized => "PropDirectNorm"@,
        Keyed::PropertyStatement => "PropStatement"@,
        Keyed::PropertyStatementValue => "PropStatementValue"@,
        Keyed::PropertyStatementValueNormalized => "PropStatementValueNorm"@,
        Keyed::PropertyReference => "PropRef"@,
        Keyed::PropertyReferenceValue => "PropReferenceValue"@,
        Keyed::PropertyReferenceValueNormalized => "PropReferenceValueNorm"@,
        Keyed::PropertyQualifier => "PropQual"@,
        Keyed::PropertyQualifierValue => "PropQualValue"@,
        Keyed::PropertyQualifierValueNormalized => "PropQualValueNorm"@,
        Keyed::WikibaseOntology => "WikibaseOntology"@,
        Keyed::SchemaOrg => "SchemaOrg"@,
        Keyed::W3Owl => "W3Owl"@,
    }
}

pub open spec fn fixed_name(f: Fixed) -> Seq<char> {
    match f {
        Fixed::RdfSchemaLabel => "RdfSchemaLabel"@,
        Fixed::WasDerivedFrom => "WasDerivedFrom"@,
        Fixed::PurlLanguage => "PurlLanguage"@,
        Fixed::W3RdfSyntaxNsType => "W3RdfSyntaxNsType"@,
        Fixed::W3SkosCoreAltLabel => "W3SkosCoreAltLabel"@,
        Fixed::W3SkosCorePrefLabel => "W3SkosCorePrefLabel"@,
        Fixed::W3OntolexLexicalForm => "W3OntolexLexicalForm"@,
        Fixed::W3OntolexRepresentation => "W3OntolexRepresentation"@,
        Fixed::CreativeCommonsLicense => "CreativeCommonsLicense"@,
    }
}

/// The kind name of a term.
pub open spec fn kind_name(e: ElementModel) -> Seq<char> {
    match e {
        ElementModel::Text(_) => "Text"@,
        ElementModel::TextInLanguage(_, _) => "TextInLanguage"@,
        ElementModel::WikiPage(_, _) => "WikiPage"@,
        ElementModel::Entity(x) => entity_name(x),
        ElementModel::EntityStatement(x) => crate::entity_statement::statement_name(x.entity),
        ElementModel::Property(_) => "Property"@,
        ElementModel::Keyed(k, _) => keyed_name(k),
        ElementModel::Reference(_) => "Reference"@,
        ElementModel::Value(_) => "Value"@,
        ElementModel::DateTime(_) => "DateTime"@,
        ElementModel::LatLon(_) => "LatLon"@,
        ElementModel::Int(_) => "Integer"@,
        ElementModel::Float(_) => "Decimal"@,
        ElementModel::Url(_) => "Url"@,
        ElementModel::Fixed(f) => fixed_name(f),
    }
}

/// The part of a table name that a term contributes.
pub open spec fn table_fragment(e: ElementModel) -> Seq<char> {
    kind_name(e) + key_suffix(e)
}

/// `_` and the key of a term that has one: an entity, a property, a keyed term.
pub open spec fn key_suffix(e: ElementModel) -> Seq<char> {
    match e {
        ElementModel::Entity(x) => "_"@ + entity_key(x),
        ElementModel::Property(x) => "_"@ + entity_key(x),
        ElementModel::Keyed(_, s) => "_"@ + s,
        _ => Seq::empty(),
    }
}

/// The column layout of a term.
pub open spec fn layout(e: ElementModel) -> Seq<TypePart> {
    match e {
        ElementModel::Text(_) => seq![TypePart::Int],
        ElementModel::TextInLanguage(_, _) => seq![TypePart::Int, TypePart::Int],
        ElementModel::WikiPage(_, _) => seq![TypePart::Int, TypePart::Int],
        ElementModel::Entity(x) => entity_parts(x),
        ElementModel::EntityStatement(x) => entity_parts(x.entity).push(TypePart::UUID32),
        ElementModel::Property(_) => seq![TypePart::ShortText],
        ElementModel::Keyed(_, _) => seq![TypePart::ShortText],
        ElementModel::Reference(_) => seq![TypePart::UUID40],
        ElementModel::Value(_) => seq![TypePart::UUID32],
        ElementModel::DateTime(_) => seq![TypePart::I16, TypePart::U8, TypePart::U8, TypePart::U8, TypePart::U8, TypePart::U8],
        ElementModel::LatLon(_) => seq![TypePart::Point, TypePart::U32],
        ElementModel::Int(_) => seq![TypePart::Int],
        ElementModel::Float(_) => seq![TypePart::Float],
        ElementModel::Url(_) => seq![TypePart::Int],
        ElementModel::Fixed(_) => seq![TypePart::Blank],
    }
}

/// The values a term stores.
pub open spec fn stored_values(e: ElementModel) -> Seq<ValueModel> {
    match e {
        ElementModel::Text(t) => seq![ValueModel::Text(t)],
        ElementModel::TextInLanguage(t, l) => seq![ValueModel::Text(t), ValueModel::Text(l)],
        ElementModel::WikiPage(h, p) => seq![ValueModel::Text(h), ValueModel::Text(p)],
        ElementModel::Entity(x) => entity_values(x),
        ElementModel::EntityStatement(x) => entity_values(x.entity).push(ValueModel::Expression(unhex_sql(x.uuid))),
        ElementModel::Property(x) => seq![ValueModel::Quoted(entity_key(x))],
        ElementModel::Keyed(_, s) => seq![ValueModel::Quoted(s)],
        ElementModel::Reference(u) => seq![ValueModel::Expression(unhex_sql(u))],
        ElementModel::Value(u) => seq![ValueModel::Expression(unhex_sql(u))],
        ElementModel::DateTime(d) => seq![
            ValueModel::Number(d.year),
            ValueModel::Number(d.month),
            ValueModel::Number(d.day),
            ValueModel::Number(d.hour),
            ValueModel::Number(d.minute),
            ValueModel::Number(d.second),
        ],
        ElementModel::LatLon(l) => seq![
            ValueModel::Expression("PointFromText(\""@ + crate::lat_lon::wkt(l) + "\")"@),
            ValueModel::Number(l.globe_q),
        ],
        ElementModel::Int(i) => seq![ValueModel::Expression(signed_decimal(i))],
        ElementModel::Float(d) => seq![ValueModel::Expression(d)],
        ElementModel::Url(t) => seq![ValueModel::Text(t)],
        ElementModel::Fixed(_) => Seq::empty(),
    }
}

impl Element {
    /// The part of a table name that this term contributes as a predicate: its kind
    /// name, and `_` with its key where it has one.
    pub fn get_table_name(&self) -> (r: String)
        ensures
            r@ == table_fragment(self@),
    {
        let mut r = lit(self.name());
        match self {
            Element::Entity(e) | Element::Property(e) => {
                r.append("_");
                r.append(e.to_string().as_str());
            },
            Element::PropertyDirect(s)
            | Element::PropertyDirectNormalized(s)
            | Element::PropertyStatement(s)
            | Element::PropertyStatementValue(s)
            | Element::PropertyStatementValueNormalized(s)
            | Element::PropertyReference(s)
            | Element::PropertyReferenceValue(s)
            | Element::PropertyReferenceValueNormalized(s)
            | Element::PropertyQualifier(s)
            | Element::PropertyQualifierValue(s)
            | Element::PropertyQualifierValueNormalized(s)
            | Element::WikibaseOntology(s)
            | Element::SchemaOrg(s)
            | Element::W3Owl(s) => {
                r.append("_");
                r.append(s.as_str());
            },
            _ => {},
        }
        assert(r@ =~= table_fragment(self@));
        r
    }

    /// The names of the stored columns: `prefix` followed by the slot index, for each non-blank slot.
    pub fn fields(&self, prefix: &str) -> (r: Vec<String>)
        ensures
            crate::database_table::views(r@) == crate::database_table::slot_name_list(prefix@, layout(self@)),
    {
        let parts = self.get_type_parts();
        crate::database_table::slot_names(&parts, prefix)
    }

    /// The IRI of an entity, or the text of a plain text term.
    pub fn to_string(&self) -> (r: Option<String>)
        ensures
            match self@ {
                ElementModel::Entity(x) => r matches Some(s) && s@ == entity_url(x),
                ElementModel::Text(t) => r matches Some(s) && s@ == t,
                _ => r is None,
            },
    {
        match self {
            Element::Entity(e) => Some(e.to_url()),
            Element::Text(t) => Some(t.to_string()),
            _ => None,
        }
    }
}

impl ElementType for Element {
    open spec fn type_parts_spec(&self) -> Seq<TypePart> {
        layout(self@)
    }

    open spec fn values_spec(&self) -> Seq<ValueModel> {
        stored_values(self@)
    }

    open spec fn name_spec(&self) -> Seq<char> {
        kind_name(self@)
    }

    fn get_type_parts(&self) -> (r: Vec<TypePart>) {
        match self {
            Element::Text(_) | Element::Url(_) | Element::Int(_) => vec![TypePart::Int],
            Element::TextInLanguage(..) | Element::WikiPage(..) => vec![TypePart::Int, TypePart::Int],
            Element::Entity(e) => e.get_type_parts(),
            Element::EntityStatement(es) => es.get_type_parts(),
            Element::LatLon(l) => l.get_type_parts(),
            Element::DateTime(d) => d.get_type_parts(),
            Element::Reference(u) => u.get_type_parts(),
            Element::Value(u) => u.get_type_parts(),
            Element::Float(_) => vec![TypePart::Float],
            Element::Property(_)
            | Element::PropertyDirect(_)
            | Element::PropertyDirectNormalized(_)
            | Element::PropertyStatement(_)
            | Element::PropertyStatementValue(_)
            | Element::PropertyStatementValueNormalized(_)
            | Element::PropertyReference(_)
            | Element::PropertyReferenceValue(_)
            | Element::PropertyReferenceValueNormalized(_)
            | Element::PropertyQualifier(_)
            | Element::PropertyQualifierValue(_)
            | Element::PropertyQualifierValueNormalized(_)
            | Element::WikibaseOntology(_)
            | Element::SchemaOrg(_)
            | Element::W3Owl(_) => vec![TypePart::ShortText],
            _ => vec![TypePart::Blank],
        }
    }

    fn values(&self) -> (r: Vec<DbOperationCacheValue>) {
        let r = match self {
            Element::Text(t) | Element::Url(t) => t.values(),
            Element::TextInLanguage(a, b) | Element::WikiPage(a, b) => {
                vec![DbOperationCacheValue::Text(a.to_string()), DbOperationCacheValue::Text(b.to_string())]
            },
            Element::Entity(e) => e.values(),
            Element::EntityStatement(es) => es.values(),
            Element::LatLon(l) => l.values(),
            Element::DateTime(d) => d.values(),
            Element::Reference(u) => u.values(),
            Element::Value(u) => u.values(),
            Element::Property(p) => vec![DbOperationCacheValue::Quoted(p.to_string())],
            Element::PropertyDirect(s)
            | Element::PropertyDirectNormalized(s)
            | Element::PropertyStatement(s)
            | Element::PropertyStatementValue(s)
            | Element::PropertyStatementValueNormalized(s)
            | Element::PropertyReference(s)
            | Element::PropertyReferenceValue(s)
            | Element::PropertyReferenceValueNormalized(s)
            | Element::PropertyQualifier(s)
            | Element::PropertyQualifierValue(s)
            | Element::PropertyQualifierValueNormalized(s)
            | Element::WikibaseOntology(s)
            | Element::SchemaOrg(s)
            | Element::W3Owl(s) => vec![DbOperationCacheValue::Quoted(s.clone())],
            Element::Int(i) => vec![DbOperationCacheValue::Expression(i64_decimal(*i))],
            Element::Float(d) => vec![DbOperationCacheValue::Expression(d.to_string())],
            _ => Vec::new(),
        };
        assert(models(r@) =~= self.values_spec());
        r
    }

    fn name(&self) -> (r: &'static str) {
        match self {
            Element::Text(_) => "Text",
            Element::TextInLanguage(..) => "TextInLanguage",
            Element::WikiPage(..) => "WikiPage",
            Element::Entity(e) => e.name(),
            Element::EntityStatement(es) => es.name(),
            Element::Property(_) => "Property",
            Element::PropertyDirect(_) => "PropertyDirect",
            Element::PropertyDirectNormalized(_) => "PropDirectNorm",
            Element::PropertyStatement(_) => "PropStatement",
            Element::PropertyStatementValue(_) => "PropStatementValue",
            Element::PropertyStatementValueNormalized(_) => "PropStatementValueNorm",
            Element::PropertyReference(_) => "PropRef",
            Element::PropertyReferenceValue(_) => "PropReferenceValue",
            Element::PropertyReferenceValueNormalized(_) => "PropReferenceValueNorm",
            Element::PropertyQualifier(_) => "PropQual",
            Element::PropertyQualifierValue(_) => "PropQualValue",
            Element::PropertyQualifierValueNormalized(_) => "PropQualValueNorm",
            Element::Reference(_) => "Reference",
            Element::Value(_) => "Value",
            Element::DateTime(_) => "DateTime",
            Element::LatLon(_) => "LatLon",
            Element::Int(_) => "Integer",
            Element::Float(_) => "Decimal",
            Element::Url(_) => "Url",
            Element::W3Owl(_) => "W3Owl",
            Element::WikibaseOntology(_) => "WikibaseOntology",
            Element::SchemaOrg(_) => "SchemaOrg",
            Element::RdfSchemaLabel => "RdfSchemaLabel",
            Element::WasDerivedFrom => "WasDerivedFrom",
            Element::PurlLanguage => "PurlLanguage",
            Element::W3RdfSyntaxNsType => "W3RdfSyntaxNsType",
            Element::W3SkosCoreAltLabel => "W3SkosCoreAltLabel",
            Element::W3SkosCorePrefLabel => "W3SkosCorePrefLabel",
            Element::W3OntolexLexicalForm => "W3OntolexLexicalForm",
            Element::W3OntolexRepresentation => "W3OntolexRepresentation",
            Element::CreativeCommonsLicense => "CreativeCommonsLicense",
        }
    }

    proof fn lemma_values_fill_layout(&self) {
        match self {
            Element::Entity(e) => e.lemma_values_fill_layout(),
            Element::EntityStatement(es) => es.lemma_values_fill_layout(),
            Element::DateTime(d) => d.lemma_values_fill_layout(),
            Element::LatLon(l) => l.lemma_values_fill_layout(),
            Element::TextInLanguage(..) | Element::WikiPage(..) => {
                reveal_with_fuel(non_blank_count, 3);
            },
            _ => {
                reveal_with_fuel(non_blank_count, 2);
            },
        }
    }
}

/// The term of kind `name` that stored column texts hold: an entity or a point where
/// the kind and texts give one, else a URL term of the first text.
pub open spec fn element_from_columns(name: Seq<char>, v: Seq<Seq<char>>) -> ElementModel {
    match crate::entity::entity_from_columns(name, v) {
        Some(e) => ElementModel::Entity(e),
        None => if name == "LatLon"@ && crate::lat_lon::lat_lon_of(v[0]) is Some {
            ElementModel::LatLon(crate::lat_lon::lat_lon_of(v[0])->Some_0)
        } else {
            ElementModel::Url(crate::text_id::text_of(v[0]))
        },
    }
}

/// The text a term reads back as: the IRI of an entity, the text of a plain text term.
pub open spec fn element_text(e: ElementModel) -> Option<Seq<char>> {
    match e {
        ElementModel::Entity(x) => Some(entity_url(x)),
        ElementModel::Text(t) => Some(t),
        _ => None,
    }
}

impl Element {
    /// The term of kind `name` that the stored column texts `value` hold.
    pub fn from_sql_values(name: &str, value: &Vec<String>) -> (r: Element)
        requires
            value@.len() >= 1,
        ensures
            r@ == element_from_columns(name@, crate::database_table::views(value@)),
    {
        assert(crate::database_table::views(value@)[0] == value@[0]@);
        if let Some(entity) = Entity::from_sql_values(name, value) {
            return Element::Entity(entity);
        }
        if crate::text::str_eq(name, "LatLon") {
            if let Some(l) = LatLon::from_str(value[0].as_str()) {
                return Element::LatLon(l);
            }
        }
        Element::Url(TextId::from_str_lossy(value[0].as_str()))
    }
}

/// The column layout of the terms of a kind, by kind name.
pub open spec fn layout_of_kind(k: Seq<char>) -> Seq<TypePart> {
    if k == "Text"@ || k == "Url"@ || k == "Integer"@ {
        seq![TypePart::Int]
    } else if k == "TextInLanguage"@ || k == "WikiPage"@ {
        seq![TypePart::Int, TypePart::Int]
    } else if k == "EntityItem"@ || k == "EntityMedia"@ || k == "EntityLexeme"@ {
        seq![TypePart::U32]
    } else if k == "EntityProp"@ {
        seq![TypePart::U16]
    } else if k == "EntityLexemeF"@ || k == "EntityLexemeS"@ {
        seq![TypePart::U32, TypePart::U8]
    } else if k == "EntityUnknown"@ || k == "Property"@ || k == "PropertyDirect"@ || k == "PropDirectNorm"@ || k == "PropStatement"@ || k == "PropStatementValue"@ || k == "PropStatementValueNorm"@ || k == "PropRef"@ || k == "PropReferenceValue"@ || k == "PropReferenceValueNorm"@ || k == "PropQual"@ || k == "PropQualValue"@ || k == "PropQualValueNorm"@ || k == "WikibaseOntology"@ || k == "SchemaOrg"@ || k == "W3Owl"@ {
        seq![TypePart::ShortText]
    } else if k == "StatementEntityItem"@ || k == "StatementEntityMedia"@ || k == "StatementEntityLexeme"@ {
        seq![TypePart::U32, TypePart::UUID32]
    } else if k == "StatementEntityProp"@ {
        seq![TypePart::U16, TypePart::UUID32]
    } else if k == "StatementEntityLexemeF"@ || k == "StatementEntityLexemeS"@ {
        seq![TypePart::U32, TypePart::U8, TypePart::UUID32]
    } else if k == "StatementEntityUnknown"@ {
        seq![TypePart::ShortText, TypePart::UUID32]
    } else if k == "Reference"@ {
        seq![TypePart::UUID40]
    } else if k == "Value"@ {
        seq![TypePart::UUID32]
    } else if k == "DateTime"@ {
        seq![TypePart::I16, TypePart::U8, TypePart::U8, TypePart::U8, TypePart::U8, TypePart::U8]
    } else if k == "LatLon"@ {
        seq![TypePart::Point, TypePart::U32]
    } else if k == "Decimal"@ {
        seq![TypePart::Float]
    } else if k == "RdfSchemaLabel"@ || k == "WasDerivedFrom"@ || k == "PurlLanguage"@ || k == "W3RdfSyntaxNsType"@ || k == "W3SkosCoreAltLabel"@ || k == "W3SkosCorePrefLabel"@ || k == "W3OntolexLexicalForm"@ || k == "W3OntolexRepresentation"@ || k == "CreativeCommonsLicense"@ {
        seq![TypePart::Blank]
    } else {
        Seq::empty()
    }
}

impl Element {
    /// The column layout of the terms of the kind `name`.
    pub fn layout_of_kind_name(name: &str) -> (r: Vec<TypePart>)
        ensures
            r@ == layout_of_kind(name@),
    {
        if str_eq(name, "Text") || str_eq(name, "Url") || str_eq(name, "Integer") {
            vec![TypePart::Int]
        } else if str_eq(name, "TextInLanguage") || str_eq(name, "WikiPage") {
            vec![TypePart::Int, TypePart::Int]
        } else if str_eq(name, "EntityItem") || str_eq(name, "EntityMedia") || str_eq(name, "EntityLexeme") {
            vec![TypePart::U32]
        } else if str_eq(name, "EntityProp") {
            vec![TypePart::U16]
        } else if str_eq(name, "EntityLexemeF") || str_eq(name, "EntityLexemeS") {
            vec![TypePart::U32, TypePart::U8]
        } else if str_eq(name, "EntityUnknown") || str_eq(name, "Property") || str_eq(name, "PropertyDirect") || str_eq(name, "PropDirectNorm") || str_eq(name, "PropStatement") || str_eq(name, "PropStatementValue") || str_eq(name, "PropStatementValueNorm") || str_eq(name, "PropRef") || str_eq(name, "PropReferenceValue") || str_eq(name, "PropReferenceValueNorm") || str_eq(name, "PropQual") || str_eq(name, "PropQualValue") || str_eq(name, "PropQualValueNorm") || str_eq(name, "WikibaseOntology") || str_eq(name, "SchemaOrg") || str_eq(name, "W3Owl") {
            vec![TypePart::ShortText]
        } else if str_eq(name, "StatementEntityItem") || str_eq(name, "StatementEntityMedia") || str_eq(name, "StatementEntityLexeme") {
            vec![TypePart::U32, TypePart::UUID32]
        } else if str_eq(name, "StatementEntityProp") {
            vec![TypePart::U16, TypePart::UUID32]
        } else if str_eq(name, "StatementEntityLexemeF") || str_eq(name, "StatementEntityLexemeS") {
            vec![TypePart::U32, TypePart::U8, TypePart::UUID32]
        } else if str_eq(name, "StatementEntityUnknown") {
            vec![TypePart::ShortText, TypePart::UUID32]
        } else if str_eq(name, "Reference") {
            vec![TypePart::UUID40]
        } else if str_eq(name, "Value") {
            vec![TypePart::UUID32]
        } else if str_eq(name, "DateTime") {
            vec![TypePart::I16, TypePart::U8, TypePart::U8, TypePart::U8, TypePart::U8, TypePart::U8]
        } else if str_eq(name, "LatLon") {
            vec![TypePart::Point, TypePart::U32]
        } else if str_eq(name, "Decimal") {
            vec![TypePart::Float]
        } else if str_eq(name, "RdfSchemaLabel") || str_eq(name, "WasDerivedFrom") || str_eq(name, "PurlLanguage") || str_eq(name, "W3RdfSyntaxNsType") || str_eq(name, "W3SkosCoreAltLabel") || str_eq(name, "W3SkosCorePrefLabel") || str_eq(name, "W3OntolexLexicalForm") || str_eq(name, "W3OntolexRepresentation") || str_eq(name, "CreativeCommonsLicense") {
            vec![TypePart::Blank]
        } else {
            Vec::new()
        }
    }
}

} // verus!
