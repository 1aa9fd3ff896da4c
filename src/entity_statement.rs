//! Statement identifiers: an entity key and a statement identifier, joined by `-`.

use vstd::prelude::*;
use crate::db_operation_cache::{DbOperationCacheValue, ValueModel, models};
use crate::element_type::ElementType;
use crate::entity::{Entity, EntityModel, entity_of, entity_parts, entity_values, entity_key};
use crate::text::{cat, first_index, index_of, substring};
use crate::type_part::TypePart;
use crate::uuid::{UUID32, uuid_of, unhex_sql};

verus! {

#[derive(Clone, Debug)]
pub struct EntityStatement {
    entity: Entity,
    uuid: UUID32,
}

pub struct EntityStatementModel {
    pub entity: EntityModel,
    pub uuid: Seq<char>,
}

impl View for EntityStatement {
    type V = EntityStatementModel;

    closed spec fn view(&self) -> EntityStatementModel {
        EntityStatementModel { entity: self.entity@, uuid: self.uuid@ }
    }
}

/// The kind name of a statement: it names the kind of its entity, which decides
/// its layout.
pub open spec fn statement_name(e: EntityModel) -> Seq<char> {
    match e {
        EntityModel::Item(_) => "StatementEntityItem"@,
        EntityModel::Property(_) => "StatementEntityProp"@,
        EntityModel::Media(_) => "StatementEntityMedia"@,
        EntityModel::Lexeme(_) => "StatementEntityLexeme"@,
        EntityModel::LexemeForm(_, _) => "StatementEntityLexemeF"@,
        EntityModel::LexemeSense(_, _) => "StatementEntityLexemeS"@,
        EntityModel::Unknown(_) => "StatementEntityUnknown"@,
    }
}

/// The statement that `s` writes: the entity key before the first `-`, the identifier after it.
pub open spec fn statement_of(s: Seq<char>) -> Option<EntityStatementModel> {
    let k = first_index(s, '-');
    if k >= 0 {
        match uuid_of(s.subrange(k + 1, s.len() as int), 32) {
            Some(u) => Some(EntityStatementModel { entity: entity_of(s.subrange(0, k)), uuid: u }),
            None => None,
        }
    } else {
        None
    }
}

impl EntityStatement {
    /// The kind name of a statement: it names the kind of its entity, which decides
/// its layout.
pub open spec fn statement_name(e: EntityModel) -> Seq<char> {
    match e {
        EntityModel::Item(_) => "StatementEntityItem"@,
        EntityModel::Property(_) => "StatementEntityProp"@,
        EntityModel::Media(_) => "StatementEntityMedia"@,
        EntityModel::Lexeme(_) => "StatementEntityLexeme"@,
        EntityModel::LexemeForm(_, _) => "StatementEntityLexemeF"@,
        EntityModel::LexemeSense(_, _) => "StatementEntityLexemeS"@,
        EntityModel::Unknown(_) => "StatementEntityUnknown"@,
    }
}

/// The statement that `s` writes, if it is one.
    pub fn from_str(s: &str) -> (r: Option<EntityStatement>)
        ensures
            match r {
                Some(e) => statement_of(s@) == Some(e@),
                None => statement_of(s@) is None,
            },
    {
        let v = crate::text::chars_of(s);
        match index_of(&v, '-') {
            Some(k) => {
                let first = substring(&v, 0, k);
                let second = substring(&v, k + 1, v.len());
                match UUID32::from_str(second.as_str()) {
                    Some(uuid) => Some(EntityStatement { entity: Entity::from_str(first.as_str()), uuid }),
                    None => None,
                }
            },
            None => None,
        }
    }

    pub fn copy(&self) -> (r: Self)
        ensures
            r@ == self@,
    {
        EntityStatement { entity: self.entity.copy(), uuid: self.uuid.copy() }
    }

    /// The entity key and the identifier, joined by `-`.
    pub fn to_string(&self) -> (r: String)
        ensures
            r@ == entity_key(self@.entity) + "-"@ + self@.uuid,
    {
        let a = cat(self.entity.to_string().as_str(), "-");
        cat(a.as_str(), self.uuid.to_string().as_str())
    }
}

impl ElementType for EntityStatement {
    open spec fn type_parts_spec(&self) -> Seq<TypePart> {
        entity_parts(self@.entity).push(TypePart::UUID32)
    }

    open spec fn values_spec(&self) -> Seq<ValueModel> {
        entity_values(self@.entity).push(ValueModel::Expression(unhex_sql(self@.uuid)))
    }

    open spec fn name_spec(&self) -> Seq<char> {
        statement_name(self@.entity)
    }

    fn get_type_parts(&self) -> (r: Vec<TypePart>) {
        let mut r = self.entity.get_type_parts();
        r.push(TypePart::UUID32);
        r
    }

    fn values(&self) -> (r: Vec<DbOperationCacheValue>) {
        let mut r = self.entity.values();
        let mut u = self.uuid.values();
        let ghost before = r@;
        let ghost added = u@;
        r.append(&mut u);
        assert(models(r@) =~= models(before) + models(added));
        assert(models(r@) =~= self.values_spec());
        r
    }

    fn name(&self) -> (r: &'static str) {
        match self.entity {
            Entity::Item(_) => "StatementEntityItem",
            Entity::Property(_) => "StatementEntityProp",
            Entity::Media(_) => "StatementEntityMedia",
            Entity::Lexeme(_) => "StatementEntityLexeme",
            Entity::LexemeForm(..) => "StatementEntityLexemeF",
            Entity::LexemeSense(..) => "StatementEntityLexemeS",
            Entity::Unknown(_) => "StatementEntityUnknown",
        }
    }

    proof fn lemma_values_fill_layout(&self) {
        self.entity.lemma_values_fill_layout();
        let p = entity_parts(self@.entity).push(TypePart::UUID32);
        assert(p.drop_last() =~= entity_parts(self@.entity));
    }
}

} // verus!
