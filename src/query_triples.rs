//! Planning triple-pattern queries as SQL over the registered tables.
//!
//! A pattern position is either a concrete term or a variable `?name`. A pattern
//! selects the registered tables that fit it, groups them by the kind names of
//! their shape, and gives one SQL statement per group: the union of one `SELECT`
//! per table. Variables in the predicate position are not supported.

use vstd::prelude::*;
use crate::app_state::AppState;
use crate::database_table::{DatabaseTable, TableModel, join, slot_name_list, views};
use crate::db_operation_cache::ValueModel;
use crate::element::{Element, ElementModel, kind_name, layout, stored_values, table_fragment};
use crate::element_type::ElementType;
use crate::error::WDQSErr;
use crate::text::{cat, decimal, lit, signed_decimal, str_eq, substring, u64_decimal, i64_decimal};

verus! {

/// A named result column, with the kind name of the terms it holds.
#[derive(Debug)]
pub struct SqlVariable {
    name: String,
    kind: Option<String>,
}

pub struct VarModel {
    pub name: Seq<char>,
    pub kind: Option<Seq<char>>,
}

impl View for SqlVariable {
    type V = VarModel;

    closed spec fn view(&self) -> VarModel {
        VarModel {
            name: self.name@,
            kind: match self.kind {
                Some(k) => Some(k@),
                None => None,
            },
        }
    }
}

pub open spec fn var_models(s: Seq<SqlVariable>) -> Seq<VarModel> {
    s.map_values(|v: SqlVariable| v@)
}

impl SqlVariable {
    pub fn new(name: String, kind: Option<String>) -> (r: Self)
        ensures
            r@ == (VarModel { name: name@, kind: match kind { Some(k) => Some(k@), None => None } }),
    {
        SqlVariable { name, kind }
    }

    pub fn name(&self) -> (r: &str)
        ensures
            r@ == self@.name,
    {
        self.name.as_str()
    }

    pub fn copy(&self) -> (r: Self)
        ensures
            r@ == self@,
    {
        SqlVariable {
            name: self.name.clone(),
            kind: match &self.kind {
                Some(k) => Some(k.clone()),
                None => None,
            },
        }
    }

    /// Whether both have the same name and kind.
    pub fn same(&self, other: &SqlVariable) -> (r: bool)
        ensures
            r == (self@ == other@),
    {
        if !str_eq(self.name.as_str(), other.name.as_str()) {
            return false;
        }
        match (&self.kind, &other.kind) {
            (Some(a), Some(b)) => str_eq(a.as_str(), b.as_str()),
            (None, None) => true,
            _ => false,
        }
    }
}

/// A piece of SQL with its bound parameters.
#[derive(Debug)]
pub struct SqlPart {
    pub sql: String,
    pub values: Vec<String>,
    pub table: Option<String>,
    pub variables: Vec<SqlVariable>,
}

impl SqlPart {
    /// A condition with one bound parameter.
    pub fn new(sql: String, value: String) -> (r: Self)
        ensures
            r.sql@ == sql@,
            views(r.values@) == seq![value@],
            r.table is None,
            r.variables@.len() == 0,
    {
        let r = SqlPart { sql, values: vec![value], table: None, variables: Vec::new() };
        assert(views(r.values@) =~= seq![value@]);
        r
    }

    /// Both conditions must hold: `(a) AND (b)`, the parameters of `a` first.
    pub fn and(&mut self, other: &mut SqlPart)
        ensures
            final(self).sql@ == "("@ + old(self).sql@ + ") AND ("@ + old(other).sql@ + ")"@,
            views(final(self).values@) == views(old(self).values@) + views(old(other).values@),
            views(final(other).values@) == Seq::<Seq<char>>::empty(),
            final(other).sql == old(other).sql,
            final(other).table == old(other).table,
            final(other).variables == old(other).variables,
            final(self).table == old(self).table,
            final(self).variables == old(self).variables,
    {
        let mut sql = cat("(", self.sql.as_str());
        sql.append(") AND (");
        sql.append(other.sql.as_str());
        sql.append(")");
        self.sql = sql;
        let ghost a = self.values@;
        let ghost b = other.values@;
        self.values.append(&mut other.values);
        assert(views(self.values@) =~= views(a) + views(b));
        assert(views(other.values@) =~= Seq::<Seq<char>>::empty());
    }

    /// Rows of both: `a UNION ALL b`, the parameters of `a` first.
    pub fn union_all(&mut self, other: &mut SqlPart)
        ensures
            final(self).sql@ == old(self).sql@ + " UNION ALL "@ + old(other).sql@,
            views(final(self).values@) == views(old(self).values@) + views(old(other).values@),
            views(final(other).values@) == Seq::<Seq<char>>::empty(),
            final(other).sql == old(other).sql,
            final(other).table == old(other).table,
            final(other).variables == old(other).variables,
            final(self).table == old(self).table,
            final(self).variables == old(self).variables,
    {
        let mut sql = self.sql.clone();
        sql.append(" UNION ALL ");
        sql.append(other.sql.as_str());
        self.sql = sql;
        let ghost a = self.values@;
        let ghost b = other.values@;
        self.values.append(&mut other.values);
        assert(views(self.values@) =~= views(a) + views(b));
        assert(views(other.values@) =~= Seq::<Seq<char>>::empty());
    }
}

/// The rows that one group of a query returned.
#[derive(Debug)]
pub struct DatabaseQueryResult {
    pub variables: Vec<SqlVariable>,
    pub rows: Vec<Vec<Option<String>>>,
}

/// One position of a pattern: a concrete term, or a variable.
#[derive(Debug)]
pub enum QueryPart {
    Element(Element),
    Unknown,
}

pub open spec fn part_model(q: QueryPart) -> Option<ElementModel> {
    match q {
        QueryPart::Element(e) => Some(e@),
        QueryPart::Unknown => None,
    }
}

impl QueryPart {
    /// The term that `s` writes, with a known prefix expanded; always `Ok`.
    pub fn from_str(s: &str, app: &AppState) -> (r: Result<QueryPart, WDQSErr>)
        ensures
            r matches Ok(QueryPart::Element(e)) && crate::element_parse::parse_model(
                crate::app_state::prefixed(app.prefix_pairs(), s@)) == e@,
    {
        let expanded = app.replace_prefix(s);
        match Element::from_str(expanded.as_str()) {
            Some(e) => Ok(QueryPart::Element(e)),
            None => {
                let mut m = cat("QueryPart::from_str: Can not parse '", s);
                m.append("'");
                Err(WDQSErr::String(m))
            },
        }
    }
}

/// The column names, with `prefix`, of the non-blank slots of the layout of a kind.
pub open spec fn var_names(kind: Seq<char>, prefix: Seq<char>) -> Seq<Seq<char>> {
    slot_name_list(prefix, crate::element::layout_of_kind(kind))
}

impl Element {
    /// The column names, with `prefix`, that hold a term of kind `name`.
    pub fn sql_var_from_name(name: &str, prefix: &str) -> (r: Vec<String>)
        ensures
            views(r@) == var_names(name@, prefix@),
    {
        let parts = Element::layout_of_kind_name(name);
        crate::database_table::slot_names(&parts, prefix)
    }
}

/// A pattern: the three positions, and the variable names of the subject and object.
pub struct PatternModel {
    pub s: Option<ElementModel>,
    pub p: Option<ElementModel>,
    pub o: Option<ElementModel>,
    pub s_var: Option<Seq<char>>,
    pub o_var: Option<Seq<char>>,
}

pub open spec fn part_matches_name(q: Option<ElementModel>, name: Seq<char>) -> bool {
    match q {
        Some(e) => kind_name(e) == name,
        None => true,
    }
}

/// Whether a table can hold triples that fit the pattern.
pub open spec fn table_fits(q: PatternModel, t: TableModel) -> bool {
    &&& match q.p {
        Some(e) => t.property == table_fragment(e),
        None => true,
    }
    &&& part_matches_name(q.s, t.names.0)
    &&& part_matches_name(q.o, t.names.2)
}

/// The text of a value as it is bound in a condition.
pub open spec fn value_text(v: ValueModel) -> Seq<char> {
    match v {
        ValueModel::Quoted(s) => s,
        ValueModel::Text(s) => s,
        ValueModel::Expression(s) => s,
        ValueModel::Number(n) => signed_decimal(n),
    }
}

/// The equality conditions `` `<key><i>`=? `` of a concrete position, with their bound values.
pub open spec fn conditions(q: Option<ElementModel>, key: Seq<char>) -> Seq<(Seq<char>, Seq<char>)> {
    match q {
        Some(e) => {
            let names = slot_name_list(key, layout(e));
            let vals = stored_values(e);
            Seq::new(
                if names.len() < vals.len() { names.len() } else { vals.len() },
                |i: int| ("`"@ + names[i] + "`=?"@, value_text(vals[i])),
            )
        },
        None => Seq::empty(),
    }
}

/// The conditions joined by `AND`, from the first on.
pub open spec fn and_fold(c: Seq<Seq<char>>) -> Seq<char>
    decreases c.len(),
{
    if c.len() == 0 {
        "1"@
    } else if c.len() == 1 {
        c[0]
    } else {
        "("@ + and_fold(c.drop_last()) + ") AND ("@ + c.last() + ")"@
    }
}

/// The selected columns and their variables for one position.
pub open spec fn position_params(var: Option<Seq<char>>, kind: Seq<char>, prefix: Seq<char>)
    -> Option<(Seq<Seq<char>>, Seq<VarModel>)>
{
    match var {
        Some(v) => {
            let cols = var_names(kind, prefix);
            if cols.len() == 0 {
                Some((Seq::empty(), Seq::empty()))
            } else if cols.len() == 1 {
                Some((seq![cols[0] + " AS `"@ + v + "`"@], seq![VarModel { name: v, kind: Some(kind) }]))
            } else {
                None
            }
        },
        None => Some((Seq::empty(), Seq::empty())),
    }
}

/// The `SELECT` of one table: its SQL, bound values and result variables. A pattern
/// without variables selects the constant `1` for each matching row.
pub open spec fn table_select(q: PatternModel, t: TableModel)
    -> Option<(Seq<char>, Seq<Seq<char>>, Seq<VarModel>)>
{
    let conds = conditions(q.s, "k"@) + conditions(q.o, "v"@);
    let cond_sql = and_fold(conds.map_values(|c: (Seq<char>, Seq<char>)| c.0));
    let vals = conds.map_values(|c: (Seq<char>, Seq<char>)| c.1);
    match (position_params(q.s_var, t.names.0, "k"@), position_params(q.o_var, t.names.2, "v"@)) {
        (Some((ps, vs)), Some((po, vo))) => {
            let cols = if ps.len() + po.len() == 0 { seq!["1"@] } else { ps + po };
            Some((
                "SELECT "@ + join(cols, ","@) + " FROM `"@ + t.name + "` WHERE "@ + cond_sql,
                vals,
                vs + vo,
            ))
        },
        _ => None,
    }
}

/// What a planned piece of SQL holds: its text, bound values and result variables.
pub struct PartModel {
    pub sql: Seq<char>,
    pub values: Seq<Seq<char>>,
    pub variables: Seq<VarModel>,
}

pub open spec fn sql_part_model(p: SqlPart) -> PartModel {
    PartModel { sql: p.sql@, values: views(p.values@), variables: var_models(p.variables@) }
}

pub open spec fn group_models(g: Seq<(String, SqlPart)>) -> Seq<(Seq<char>, PartModel)> {
    g.map_values(|x: (String, SqlPart)| (x.0@, sql_part_model(x.1)))
}

/// The key of the group of a table: the kind names of its shape.
pub open spec fn group_key(t: TableModel) -> Seq<char> {
    t.names.0 + "__"@ + t.names.1 + "__"@ + t.names.2
}

pub open spec fn keys_unique(g: Seq<(Seq<char>, PartModel)>) -> bool {
    forall|i: int, j: int| 0 <= i < j < g.len() ==> g[i].0 != g[j].0
}

/// The index of the group with key `k`, or `-1`.
pub open spec fn key_index(g: Seq<(Seq<char>, PartModel)>, k: Seq<char>) -> int {
    if exists|i: int| 0 <= i < g.len() && g[i].0 == k {
        choose|i: int| 0 <= i < g.len() && g[i].0 == k
    } else {
        -1
    }
}

/// `b` added to `a` with `UNION ALL`; the variables stay those of `a`.
pub open spec fn merge(a: PartModel, b: PartModel) -> PartModel {
    PartModel { sql: a.sql + " UNION ALL "@ + b.sql, values: a.values + b.values, variables: a.variables }
}

/// The planned groups of a pattern over a registry: one per group key of the fitting
/// tables, in order of first appearance, each the union of the selects of its tables.
/// `None` where a select cannot be formed.
pub open spec fn planned(q: PatternModel, reg: Seq<TableModel>) -> Option<Seq<(Seq<char>, PartModel)>>
    decreases reg.len(),
{
    if reg.len() == 0 {
        Some(Seq::empty())
    } else {
        let t = reg.last();
        match planned(q, reg.drop_last()) {
            Some(g) => if !table_fits(q, t) {
                Some(g)
            } else {
                match table_select(q, t) {
                    Some((sql, values, variables)) => {
                        let sel = PartModel { sql, values, variables };
                        let k = group_key(t);
                        let i = key_index(g, k);
                        if i < 0 { Some(g.push((k, sel))) } else { Some(g.update(i, (k, merge(g[i].1, sel)))) }
                    },
                    None => None,
                }
            },
            None => None,
        }
    }
}

proof fn lemma_key_index(g: Seq<(Seq<char>, PartModel)>, k: Seq<char>, i: int)
    requires
        keys_unique(g),
        0 <= i < g.len(),
        g[i].0 == k,
    ensures
        key_index(g, k) == i,
{
    let j = choose|j: int| 0 <= j < g.len() && g[j].0 == k;
    if j < i {
        assert(g[j].0 != g[i].0);
    } else if i < j {
        assert(g[i].0 != g[j].0);
    }
}

proof fn lemma_planned_none(q: PatternModel, reg: Seq<TableModel>, i: int)
    requires
        0 <= i <= reg.len(),
        planned(q, reg.subrange(0, i)) is None,
    ensures
        planned(q, reg) is None,
    decreases reg.len() - i,
{
    if i < reg.len() {
        assert(reg.subrange(0, i + 1).drop_last() =~= reg.subrange(0, i));
        lemma_planned_none(q, reg, i + 1);
    } else {
        assert(reg.subrange(0, i) =~= reg);
    }
}

/// The index of the group with key `key`.
fn find_group(groups: &Vec<(String, SqlPart)>, key: &str) -> (r: Option<usize>)
    ensures
        match r {
            Some(j) => j < groups@.len() && group_models(groups@)[j as int].0 == key@,
            None => forall|m: int| 0 <= m < groups@.len() ==> group_models(groups@)[m].0 != key@,
        },
{
    let mut j: usize = 0;
    while j < groups.len()
        invariant
            j <= groups@.len(),
            forall|m: int| 0 <= m < j ==> group_models(groups@)[m].0 != key@,
        decreases groups@.len() - j,
    {
        if str_eq(groups[j].0.as_str(), key) {
            return Some(j);
        }
        j = j + 1;
    }
    None
}

/// The condition texts and bound values of a concrete position.
fn conditions_of(part: &QueryPart, key: &str) -> (r: (Vec<String>, Vec<String>))
    ensures
        views(r.0@) == conditions(part_model(*part), key@).map_values(|c: (Seq<char>, Seq<char>)| c.0),
        views(r.1@) == conditions(part_model(*part), key@).map_values(|c: (Seq<char>, Seq<char>)| c.1),
{
    match part {
        QueryPart::Element(element) => {
            let parts = element.get_type_parts();
            let names = crate::database_table::slot_names(&parts, key);
            let values = element.values();
            let ghost c = conditions(part_model(*part), key@);
            let n = if names.len() < values.len() { names.len() } else { values.len() };
            let mut sqls: Vec<String> = Vec::new();
            let mut vals: Vec<String> = Vec::new();
            let mut i: usize = 0;
            assert(part_model(*part) == Some(element@));
            while i < n
                invariant
                    i <= n,
                    part_model(*part) == Some(element@),
                    n == c.len(),
                    n <= names@.len(),
                    n <= values@.len(),
                    c == conditions(part_model(*part), key@),
                    views(names@) == slot_name_list(key@, layout(element@)),
                    crate::db_operation_cache::models(values@) == stored_values(element@),
                    views(sqls@) == c.subrange(0, i as int).map_values(|x: (Seq<char>, Seq<char>)| x.0),
                    views(vals@) == c.subrange(0, i as int).map_values(|x: (Seq<char>, Seq<char>)| x.1),
                decreases n - i,
            {
                let mut sql = cat("`", names[i].as_str());
                sql.append("`=?");
                let v = values[i].to_string();
                assert(views(names@)[i as int] == names@[i as int]@);
                assert(crate::db_operation_cache::models(values@)[i as int] == values@[i as int]@);
                assert(c[i as int] == ("`"@ + slot_name_list(key@, layout(element@))[i as int] + "`=?"@,
                    value_text(stored_values(element@)[i as int])));
                assert(sql@ == c[i as int].0);
                assert(v@ == c[i as int].1);
                let ghost s0 = views(sqls@);
                let ghost v0 = views(vals@);
                sqls.push(sql);
                vals.push(v);
                assert(views(sqls@) =~= s0.push(c[i as int].0));
                assert(views(vals@) =~= v0.push(c[i as int].1));
                i = i + 1;
                assert(views(sqls@) =~= c.subrange(0, i as int).map_values(|x: (Seq<char>, Seq<char>)| x.0));
                assert(views(vals@) =~= c.subrange(0, i as int).map_values(|x: (Seq<char>, Seq<char>)| x.1));
            }
            assert(c.subrange(0, i as int) =~= c);
            (sqls, vals)
        },
        QueryPart::Unknown => {
            let r = (Vec::new(), Vec::new());
            assert(views(r.0@) =~= conditions(part_model(*part), key@).map_values(|c: (Seq<char>, Seq<char>)| c.0));
            assert(views(r.1@) =~= conditions(part_model(*part), key@).map_values(|c: (Seq<char>, Seq<char>)| c.1));
            r
        },
    }
}

/// The conditions joined by `AND`.
fn and_all(c: &Vec<String>) -> (r: String)
    ensures
        r@ == and_fold(views(c@)),
{
    if c.len() == 0 {
        return lit("1");
    }
    let mut acc = c[0].clone();
    let mut i: usize = 1;
    assert(views(c@).subrange(0, 1) =~= seq![c@[0]@]);
    while i < c.len()
        invariant
            1 <= i <= c@.len(),
            acc@ == and_fold(views(c@).subrange(0, i as int)),
        decreases c@.len() - i,
    {
        let mut next = cat("(", acc.as_str());
        next.append(") AND (");
        next.append(c[i].as_str());
        next.append(")");
        assert(views(c@).subrange(0, i + 1).drop_last() =~= views(c@).subrange(0, i as int));
        acc = next;
        i = i + 1;
    }
    assert(views(c@).subrange(0, i as int) =~= views(c@));
    acc
}

fn position_params_of(var: &Option<String>, kind: &str, prefix: &str) -> (r: Option<(Vec<String>, Vec<SqlVariable>)>)
    ensures
        match r {
            Some((ps, vs)) => position_params(
                match var { Some(v) => Some(v@), None => None },
                kind@,
                prefix@,
            ) == Some((views(ps@), var_models(vs@))),
            None => position_params(match var { Some(v) => Some(v@), None => None }, kind@, prefix@) is None,
        },
{
    match var {
        Some(v) => {
            let cols = Element::sql_var_from_name(kind, prefix);
            if cols.len() == 0 {
                let r = (Vec::new(), Vec::new());
                assert(views(r.0@) =~= Seq::<Seq<char>>::empty());
                assert(var_models(r.1@) =~= Seq::<VarModel>::empty());
                Some(r)
            } else if cols.len() == 1 {
                let mut p = cols[0].clone();
                p.append(" AS `");
                p.append(v.as_str());
                p.append("`");
                assert(views(cols@)[0] == cols@[0]@);
                let ps = vec![p];
                let vs = vec![SqlVariable::new(v.clone(), Some(kind.to_string()))];
                assert(views(ps@) =~= seq![cols@[0]@ + " AS `"@ + v@ + "`"@]);
                assert(var_models(vs@) =~= seq![VarModel { name: v@, kind: Some(kind@) }]);
                Some((ps, vs))
            } else {
                None
            }
        },
        None => {
            let r = (Vec::new(), Vec::new());
            assert(views(r.0@) =~= Seq::<Seq<char>>::empty());
            assert(var_models(r.1@) =~= Seq::<VarModel>::empty());
            Some(r)
        },
    }
}

pub struct QueryTriples {
    s: QueryPart,
    p: QueryPart,
    o: QueryPart,
    s_var: Option<String>,
    p_var: Option<String>,
    o_var: Option<String>,
    /// The planned SQL of each group, by group key.
    pub result: Vec<(String, SqlPart)>,
}

pub open spec fn opt_view(v: Option<String>) -> Option<Seq<char>> {
    match v {
        Some(s) => Some(s@),
        None => None,
    }
}

impl QueryTriples {
    /// The pattern this query stands for.
    pub closed spec fn pattern(&self) -> PatternModel {
        PatternModel {
            s: part_model(self.s),
            p: part_model(self.p),
            o: part_model(self.o),
            s_var: opt_view(self.s_var),
            o_var: opt_view(self.o_var),
        }
    }

    /// The planned groups, by key.
    pub closed spec fn groups(&self) -> Seq<(Seq<char>, PartModel)> {
        group_models(self.result@)
    }

    /// The variable in the predicate position, if any.
    pub closed spec fn predicate_var(&self) -> Option<Seq<char>> {
        opt_view(self.p_var)
    }

    /// A query of three positions, with no variable names and nothing planned.
    pub fn new(s: QueryPart, p: QueryPart, o: QueryPart) -> (r: Self)
        ensures
            r.pattern() == (PatternModel {
                s: part_model(s),
                p: part_model(p),
                o: part_model(o),
                s_var: None,
                o_var: None,
            }),
            r.predicate_var() is None,
            r.groups().len() == 0,
    {
        QueryTriples { s, p, o, s_var: None, p_var: None, o_var: None, result: Vec::new() }
    }

    /// The select of one table.
    fn select_for_table(&self, table: &DatabaseTable) -> (r: Result<SqlPart, WDQSErr>)
        ensures
            match r {
                Ok(part) => table_select(self.pattern(), table@) == Some((
                    part.sql@,
                    views(part.values@),
                    var_models(part.variables@),
                )),
                Err(_) => table_select(self.pattern(), table@) is None,
            },
    {
        let ghost q = self.pattern();
        let (mut sqls, mut vals) = conditions_of(&self.s, "k");
        let (mut o_sqls, mut o_vals) = conditions_of(&self.o, "v");
        let ghost cs = conditions(q.s, "k"@);
        let ghost co = conditions(q.o, "v"@);
        let ghost a0 = sqls@;
        let ghost a1 = vals@;
        let ghost b0 = o_sqls@;
        let ghost b1 = o_vals@;
        sqls.append(&mut o_sqls);
        vals.append(&mut o_vals);
        assert(views(sqls@) =~= views(a0) + views(b0));
        assert(views(vals@) =~= views(a1) + views(b1));
        assert((cs + co).map_values(|c: (Seq<char>, Seq<char>)| c.0)
            =~= cs.map_values(|c: (Seq<char>, Seq<char>)| c.0) + co.map_values(|c: (Seq<char>, Seq<char>)| c.0));
        assert((cs + co).map_values(|c: (Seq<char>, Seq<char>)| c.1)
            =~= cs.map_values(|c: (Seq<char>, Seq<char>)| c.1) + co.map_values(|c: (Seq<char>, Seq<char>)| c.1));
        let cond = and_all(&sqls);
        let names = table.names();
        let sp = position_params_of(&self.s_var, names.0.as_str(), "k");
        let op = position_params_of(&self.o_var, names.2.as_str(), "v");
        match (sp, op) {
            (Some((mut ps, mut vs)), Some((mut po, mut vo))) => {
                let ghost ps0 = ps@;
                let ghost po0 = po@;
                let ghost vs0 = vs@;
                let ghost vo0 = vo@;
                ps.append(&mut po);
                vs.append(&mut vo);
                assert(views(ps@) =~= views(ps0) + views(po0));
                assert(var_models(vs@) =~= var_models(vs0) + var_models(vo0));
                if ps.len() == 0 {
                    ps.push(lit("1"));
                    assert(views(ps@) =~= seq!["1"@]);
                }
                let mut sql = cat("SELECT ", crate::database_table::join_strings(&ps, ",").as_str());
                sql.append(" FROM `");
                sql.append(table.table_name());
                sql.append("` WHERE ");
                sql.append(cond.as_str());
                Ok(SqlPart { sql, values: vals, table: None, variables: vs })
            },
            _ => Err(WDQSErr::String(lit("QueryTriples: a variable spans more than one column"))),
        }
    }

    /// Whether the table fits this query's pattern.
    fn table_fits_exec(&self, table: &DatabaseTable) -> (r: bool)
        ensures
            r == table_fits(self.pattern(), table@),
    {
        let names = table.names();
        let p_ok = match &self.p {
            QueryPart::Element(e) => str_eq(table.property(), e.get_table_name().as_str()),
            QueryPart::Unknown => true,
        };
        let s_ok = match &self.s {
            QueryPart::Element(e) => str_eq(names.0.as_str(), e.name()),
            QueryPart::Unknown => true,
        };
        let o_ok = match &self.o {
            QueryPart::Element(e) => str_eq(names.2.as_str(), e.name()),
            QueryPart::Unknown => true,
        };
        p_ok && s_ok && o_ok
    }

    /// Plans this query over the registered tables.
    pub fn process(&mut self, app: &AppState) -> (r: Result<(), WDQSErr>)
        ensures
            final(self).pattern() == old(self).pattern(),
            final(self).predicate_var() == old(self).predicate_var(),
            match r {
                Ok(()) => planned(old(self).pattern(), app.registry()) == Some(final(self).groups()),
                Err(_) => planned(old(self).pattern(), app.registry()) is None,
            },
    {
        let tables = app.tables();
        let ghost reg = app.registry();
        let mut groups: Vec<(String, SqlPart)> = Vec::new();
        let mut i: usize = 0;
        while i < tables.len()
            invariant
                i <= tables@.len(),
                self.pattern() == old(self).pattern(),
                self.predicate_var() == old(self).predicate_var(),
                reg == app.registry(),
                reg == crate::app_state::table_models(tables@),
                planned(self.pattern(), reg.subrange(0, i as int)) == Some(group_models(groups@)),
                keys_unique(group_models(groups@)),
            decreases tables@.len() - i,
        {
            let t = &tables[i];
            assert(reg.subrange(0, i + 1).drop_last() =~= reg.subrange(0, i as int));
            assert(reg.subrange(0, i + 1).last() == t@);
            if self.table_fits_exec(t) {
                let mut sel = match self.select_for_table(t) {
                    Ok(sel) => sel,
                    Err(e) => {
                        proof { lemma_planned_none(self.pattern(), reg, i + 1); }
                        return Err(e);
                    },
                };
                let names = t.names();
                let mut key = cat(names.0.as_str(), "__");
                key.append(names.1.as_str());
                key.append("__");
                key.append(names.2.as_str());
                let ghost g = group_models(groups@);
                let found = find_group(&groups, key.as_str());
                if let Some(j) = found {
                    proof { lemma_key_index(g, key@, j as int); }
                    let (k, mut part) = groups.remove(j);
                    let ghost old_part = sql_part_model(part);
                    let ghost sel_m = sql_part_model(sel);
                    part.union_all(&mut sel);
                    assert(sql_part_model(part) == merge(old_part, sel_m));
                    groups.insert(j, (k, part));
                    assert(group_models(groups@) =~= g.update(j as int, (key@, merge(g[j as int].1, sel_m))));
                } else {
                    assert(!exists|m: int| 0 <= m < g.len() && g[m].0 == key@);
                    assert(key_index(g, key@) == -1);
                    let ghost sel_m = sql_part_model(sel);
                    groups.push((key, sel));
                    assert(group_models(groups@) =~= g.push((key@, sel_m)));
                }
            }
            i = i + 1;
        }
        assert(reg.subrange(0, i as int) =~= reg);
        self.result = groups;
        Ok(())
    }
}

/// A position of a pattern as written: `?name` is a variable, anything else a term
/// (with a known prefix expanded). `None` where the term does not parse.
pub open spec fn position_of(pairs: Seq<(Seq<char>, Seq<char>)>, s: Seq<char>)
    -> Option<(Option<ElementModel>, Option<Seq<char>>)>
{
    if s.len() > 0 && s[0] == '?' {
        Some((None, Some(s.subrange(1, s.len() as int))))
    } else {
        Some((Some(crate::element_parse::parse_model(crate::app_state::prefixed(pairs, s))), None))
    }
}

/// The pattern that three positions write, if each parses and the predicate is no variable.
pub open spec fn pattern_of(pairs: Seq<(Seq<char>, Seq<char>)>, s: Seq<char>, p: Seq<char>, o: Seq<char>)
    -> Option<PatternModel>
{
    match (position_of(pairs, s), position_of(pairs, p), position_of(pairs, o)) {
        (Some((se, sv)), Some((pe, pv)), Some((oe, ov))) => if pv is None {
            Some(PatternModel { s: se, p: pe, o: oe, s_var: sv, o_var: ov })
        } else {
            None
        },
        _ => None,
    }
}

/// The variables of `a` that `b` has too, in the order of `a`.
pub open spec fn common_vars(a: Seq<VarModel>, b: Seq<VarModel>) -> Seq<VarModel>
    decreases a.len(),
{
    if a.len() == 0 {
        Seq::empty()
    } else if b.contains(a.last()) {
        common_vars(a.drop_last(), b).push(a.last())
    } else {
        common_vars(a.drop_last(), b)
    }
}

/// Two planned parts joined on their common variables.
pub open spec fn joined_part(a: PartModel, b: PartModel, kind: Seq<char>) -> Option<PartModel> {
    let c = common_vars(a.variables, b.variables);
    if c.len() == 0 {
        None
    } else {
        Some(PartModel {
            sql: "SELECT "@ + join(c.map_values(|v: VarModel| "t1."@ + v.name), ","@) + " FROM ("@ + a.sql
                + ") AS t1\n"@ + kind + " ("@ + b.sql + ") AS t2\nON "@
                + join(c.map_values(|v: VarModel| "t1."@ + v.name + "=t2."@ + v.name), " AND "@),
            values: a.values + b.values,
            variables: c,
        })
    }
}

/// The part of the first group with key `k`.
pub open spec fn group_of(g: Seq<(Seq<char>, PartModel)>, k: Seq<char>) -> Option<PartModel>
    decreases g.len(),
{
    if g.len() == 0 {
        None
    } else if g[0].0 == k {
        Some(g[0].1)
    } else {
        group_of(g.subrange(1, g.len() as int), k)
    }
}

/// The groups of `a` that `b` has too, each joined with its partner; `None` where a
/// pair has no common variable.
pub open spec fn joined(a: Seq<(Seq<char>, PartModel)>, b: Seq<(Seq<char>, PartModel)>, kind: Seq<char>)
    -> Option<Seq<(Seq<char>, PartModel)>>
    decreases a.len(),
{
    if a.len() == 0 {
        Some(Seq::empty())
    } else {
        match joined(a.drop_last(), b, kind) {
            Some(r) => match group_of(b, a.last().0) {
                Some(bp) => match joined_part(a.last().1, bp, kind) {
                    Some(p) => Some(r.push((a.last().0, p))),
                    None => None,
                },
                None => Some(r),
            },
            None => None,
        }
    }
}

fn position_from(s: &str, app: &AppState) -> (r: Result<(QueryPart, Option<String>), WDQSErr>)
    ensures
        match r {
            Ok((q, v)) => position_of(app.prefix_pairs(), s@) == Some((part_model(q), opt_view(v))),
            Err(_) => position_of(app.prefix_pairs(), s@) is None,
        },
{
    let v = crate::text::chars_of(s);
    if v.len() > 0 && v[0] == '?' {
        let name = substring(&v, 1, v.len());
        return Ok((QueryPart::Unknown, Some(name)));
    }
    let q = QueryPart::from_str(s, app)?;
    Ok((q, None))
}

fn copy_strings(v: &Vec<String>) -> (r: Vec<String>)
    ensures
        views(r@) == views(v@),
{
    let mut r: Vec<String> = Vec::new();
    let mut i: usize = 0;
    while i < v.len()
        invariant
            i <= v@.len(),
            views(r@) == views(v@.subrange(0, i as int)),
        decreases v@.len() - i,
    {
        let x = v[i].clone();
        let ghost before = views(r@);
        r.push(x);
        assert(views(r@) =~= before.push(v@[i as int]@));
        i = i + 1;
        assert(views(v@.subrange(0, i as int)) =~= views(v@.subrange(0, i - 1)).push(v@[i - 1]@));
    }
    assert(v@.subrange(0, i as int) =~= v@);
    r
}

/// The part of the group keyed `k`.
fn group_part<'a>(g: &'a Vec<(String, SqlPart)>, k: &str) -> (r: Option<&'a SqlPart>)
    ensures
        match r {
            Some(p) => group_of(group_models(g@), k@) == Some(sql_part_model(*p)),
            None => group_of(group_models(g@), k@) is None,
        },
{
    let ghost m = group_models(g@);
    let mut i: usize = 0;
    assert(m.subrange(0, m.len() as int) =~= m);
    while i < g.len()
        invariant
            i <= g@.len(),
            m == group_models(g@),
            group_of(m, k@) == group_of(m.subrange(i as int, m.len() as int), k@),
        decreases g@.len() - i,
    {
        let ghost rest = m.subrange(i as int, m.len() as int);
        assert(rest.subrange(1, rest.len() as int) =~= m.subrange(i + 1, m.len() as int));
        if str_eq(g[i].0.as_str(), k) {
            return Some(&g[i].1);
        }
        i = i + 1;
    }
    None
}

/// The variables of `a` that `b` has too.
fn common_of(a: &Vec<SqlVariable>, b: &Vec<SqlVariable>) -> (r: Vec<SqlVariable>)
    ensures
        var_models(r@) == common_vars(var_models(a@), var_models(b@)),
{
    let ghost bm = var_models(b@);
    let mut r: Vec<SqlVariable> = Vec::new();
    let mut i: usize = 0;
    while i < a.len()
        invariant
            i <= a@.len(),
            bm == var_models(b@),
            var_models(r@) == common_vars(var_models(a@).subrange(0, i as int), bm),
        decreases a@.len() - i,
    {
        assert(var_models(a@).subrange(0, i + 1).drop_last() =~= var_models(a@).subrange(0, i as int));
        let mut found = false;
        let mut j: usize = 0;
        while j < b.len()
            invariant
                j <= b@.len(),
                i < a@.len(),
                bm == var_models(b@),
                found ==> bm.contains(a@[i as int]@),
                !found ==> forall|m: int| 0 <= m < j ==> bm[m] != a@[i as int]@,
            decreases b@.len() - j,
        {
            assert(bm[j as int] == b@[j as int]@);
            if a[i].same(&b[j]) {
                found = true;
                assert(bm[j as int] == a@[i as int]@);
            }
            j = j + 1;
        }
        assert(found == bm.contains(a@[i as int]@));
        if found {
            let ghost before = var_models(r@);
            r.push(a[i].copy());
            assert(var_models(r@) =~= before.push(a@[i as int]@));
        }
        i = i + 1;
    }
    assert(var_models(a@).subrange(0, i as int) =~= var_models(a@));
    r
}

/// `t1.<name>` (or `t1.<name>=t2.<name>`) for each variable, joined by `sep`.
fn variable_list(c: &Vec<SqlVariable>, with_t2: bool, sep: &str) -> (r: String)
    ensures
        r@ == join(
            if with_t2 {
                var_models(c@).map_values(|v: VarModel| "t1."@ + v.name + "=t2."@ + v.name)
            } else {
                var_models(c@).map_values(|v: VarModel| "t1."@ + v.name)
            },
            sep@,
        ),
{
    let ghost target = if with_t2 {
        var_models(c@).map_values(|v: VarModel| "t1."@ + v.name + "=t2."@ + v.name)
    } else {
        var_models(c@).map_values(|v: VarModel| "t1."@ + v.name)
    };
    let mut items: Vec<String> = Vec::new();
    let mut i: usize = 0;
    while i < c.len()
        invariant
            i <= c@.len(),
            target == (if with_t2 {
                var_models(c@).map_values(|v: VarModel| "t1."@ + v.name + "=t2."@ + v.name)
            } else {
                var_models(c@).map_values(|v: VarModel| "t1."@ + v.name)
            }),
            views(items@) == target.subrange(0, i as int),
        decreases c@.len() - i,
    {
        let mut x = cat("t1.", c[i].name());
        if with_t2 {
            x.append("=t2.");
            x.append(c[i].name());
        }
        let ghost before = views(items@);
        items.push(x);
        assert(views(items@) =~= before.push(target[i as int]));
        i = i + 1;
        assert(views(items@) =~= target.subrange(0, i as int));
    }
    assert(target.subrange(0, i as int) =~= target);
    crate::database_table::join_strings(&items, sep)
}

impl QueryTriples {
    /// The query of a pattern, planned over the registered tables.
    pub fn from_str(app: &AppState, s: &str, p: &str, o: &str) -> (r: Result<Self, WDQSErr>)
        ensures
            match r {
                Ok(q) => pattern_of(app.prefix_pairs(), s@, p@, o@) == Some(q.pattern())
                    && planned(q.pattern(), app.registry()) == Some(q.groups()),
                Err(_) => match pattern_of(app.prefix_pairs(), s@, p@, o@) {
                    Some(pat) => planned(pat, app.registry()) is None,
                    None => true,
                },
            },
    {
        let (s, s_var) = position_from(s, app)?;
        let (p, p_var) = position_from(p, app)?;
        let (o, o_var) = position_from(o, app)?;
        if p_var.is_some() {
            return Err(WDQSErr::String(lit("QueryTriples: a variable predicate is not supported")));
        }
        let mut ret = QueryTriples { s, p, o, s_var, p_var, o_var, result: Vec::new() };
        ret.process(app)?;
        Ok(ret)
    }

    /// Both patterns must match: `INNER JOIN` on the common variables of each group.
    pub fn and(&mut self, other: &Self) -> (r: Result<(), WDQSErr>)
        ensures
            final(self).pattern() == old(self).pattern(),
            match r {
                Ok(()) => joined(old(self).groups(), other.groups(), "INNER JOIN"@) == Some(final(self).groups()),
                Err(_) => joined(old(self).groups(), other.groups(), "INNER JOIN"@) is None
                    && final(self).groups() == old(self).groups(),
            },
    {
        self.join("INNER JOIN", other)
    }

    fn join(&mut self, join: &str, other: &Self) -> (r: Result<(), WDQSErr>)
        ensures
            final(self).pattern() == old(self).pattern(),
            match r {
                Ok(()) => joined(old(self).groups(), other.groups(), join@) == Some(final(self).groups()),
                Err(_) => joined(old(self).groups(), other.groups(), join@) is None
                    && final(self).groups() == old(self).groups(),
            },
    {
        let ghost a = self.groups();
        let ghost b = other.groups();
        let mut result: Vec<(String, SqlPart)> = Vec::new();
        let mut i: usize = 0;
        while i < self.result.len()
            invariant
                i <= self.result@.len(),
                a == self.groups(),
                b == other.groups(),
                self.pattern() == old(self).pattern(),
                a == old(self).groups(),
                joined(a.subrange(0, i as int), b, join@) == Some(group_models(result@)),
            decreases self.result@.len() - i,
        {
            assert(a.subrange(0, i + 1).drop_last() =~= a.subrange(0, i as int));
            let key = &self.result[i].0;
            let part = &self.result[i].1;
            assert(a[i as int] == (key@, sql_part_model(*part)));
            if let Some(other_part) = group_part(&other.result, key.as_str()) {
                let common = common_of(&part.variables, &other_part.variables);
                if common.len() == 0 {
                    proof { lemma_joined_none(a, b, join@, i as int + 1); }
                    return Err(WDQSErr::String(lit("QueryTriples::and: no common variables")));
                }
                let mut sql = cat("SELECT ", variable_list(&common, false, ",").as_str());
                sql.append(" FROM (");
                sql.append(part.sql.as_str());
                sql.append(") AS t1\n");
                sql.append(join);
                sql.append(" (");
                sql.append(other_part.sql.as_str());
                sql.append(") AS t2\nON ");
                sql.append(variable_list(&common, true, " AND ").as_str());
                let mut values = copy_strings(&part.values);
                let mut more = copy_strings(&other_part.values);
                let ghost v0 = views(values@);
                let ghost v1 = views(more@);
                values.append(&mut more);
                assert(views(values@) =~= v0 + v1);
                let ghost before = group_models(result@);
                let np = SqlPart { sql, values, table: None, variables: common };
                result.push((key.clone(), np));
                assert(group_models(result@) =~= before.push((key@, sql_part_model(np))));
            }
            i = i + 1;
        }
        assert(a.subrange(0, i as int) =~= a);
        self.result = result;
        Ok(())
    }
}

proof fn lemma_joined_none(a: Seq<(Seq<char>, PartModel)>, b: Seq<(Seq<char>, PartModel)>, kind: Seq<char>, i: int)
    requires
        0 <= i <= a.len(),
        joined(a.subrange(0, i), b, kind) is None,
    ensures
        joined(a, b, kind) is None,
    decreases a.len() - i,
{
    if i < a.len() {
        assert(a.subrange(0, i + 1).drop_last() =~= a.subrange(0, i));
        lemma_joined_none(a, b, kind, i + 1);
    } else {
        assert(a.subrange(0, i) =~= a);
    }
}

/// One value of a result row, as the database returned it.
#[derive(Debug)]
pub enum RowValue {
    Null,
    /// Bytes of a text or binary column, decoded as UTF-8.
    Text(String),
    Int(i64),
    UInt(u64),
}

/// The text of a returned value.
pub open spec fn row_text(v: RowValue) -> Option<Seq<char>> {
    match v {
        RowValue::Null => None,
        RowValue::Text(s) => Some(s@),
        RowValue::Int(i) => Some(signed_decimal(i as int)),
        RowValue::UInt(u) => Some(decimal(u as nat)),
    }
}

/// What a returned value of a variable reads back as.
pub open spec fn decoded(var: VarModel, v: RowValue) -> Option<Seq<char>> {
    match (row_text(v), var.kind) {
        (Some(t), Some(k)) => crate::element::element_text(crate::element::element_from_columns(k, seq![t])),
        _ => None,
    }
}

impl SqlVariable {
    /// The text that a returned value of this variable reads back as: the IRI of an
    /// entity, the text of a plain text term; `None` for a null or another kind.
    pub fn sql_value2string(&self, v: &RowValue) -> (r: Option<String>)
        ensures
            opt_view(r) == decoded(self@, *v),
    {
        let text = match v {
            RowValue::Null => return None,
            RowValue::Text(s) => s.clone(),
            RowValue::Int(i) => i64_decimal(*i),
            RowValue::UInt(u) => u64_decimal(*u),
        };
        let kind = match &self.kind {
            Some(k) => k,
            None => return None,
        };
        let values = vec![text];
        assert(views(values@) =~= seq![values@[0]@]);
        let element = Element::from_sql_values(kind.as_str(), &values);
        element.to_string()
    }
}

} // verus!
