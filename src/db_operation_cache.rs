//! Values of pending rows, how they are written into SQL, and the per-table
//! write buffer.

use vstd::prelude::*;
use crate::database_table::{DatabaseTable, join, join_strings, slot_name_list, views};
use crate::element::{Element, layout};
use crate::element_type::ElementType;
use crate::error::WDQSErr;
use crate::text::{cat, i64_decimal, lit, signed_decimal, u64_decimal};

verus! {

/// One value of a pending row.
#[derive(Debug, Clone)]
pub enum DbOperationCacheValue {
    /// A string bound as a parameter.
    Quoted(String),
    /// A string stored in the `texts` table and referred to by its id.
    Text(String),
    /// An SQL expression written as it is.
    Expression(String),
    Usize(usize),
    I16(i16),
    U16(u16),
    I32(i32),
    U32(u32),
    I64(i64),
    U8(u8),
}

/// What a value of a pending row stands for.
pub enum ValueModel {
    Quoted(Seq<char>),
    Text(Seq<char>),
    Expression(Seq<char>),
    Number(int),
}

impl View for DbOperationCacheValue {
    type V = ValueModel;

    open spec fn view(&self) -> ValueModel {
        match self {
            DbOperationCacheValue::Quoted(s) => ValueModel::Quoted(s@),
            DbOperationCacheValue::Text(s) => ValueModel::Text(s@),
            DbOperationCacheValue::Expression(s) => ValueModel::Expression(s@),
            DbOperationCacheValue::Usize(n) => ValueModel::Number(*n as int),
            DbOperationCacheValue::I16(n) => ValueModel::Number(*n as int),
            DbOperationCacheValue::U16(n) => ValueModel::Number(*n as int),
            DbOperationCacheValue::I32(n) => ValueModel::Number(*n as int),
            DbOperationCacheValue::U32(n) => ValueModel::Number(*n as int),
            DbOperationCacheValue::I64(n) => ValueModel::Number(*n as int),
            DbOperationCacheValue::U8(n) => ValueModel::Number(*n as int),
        }
    }
}

/// The models of a sequence of values.
pub open spec fn models(s: Seq<DbOperationCacheValue>) -> Seq<ValueModel> {
    s.map_values(|v: DbOperationCacheValue| v@)
}

/// The text that selects the id of an interned string, with the string bound.
pub open spec fn text_lookup() -> Seq<char> {
    "(SELECT `id` FROM `texts` WHERE `value`=?)"@
}

/// How a value is written into a parameterised statement.
pub open spec fn placeholder(v: ValueModel) -> Seq<char> {
    match v {
        ValueModel::Quoted(_) => "?"@,
        ValueModel::Text(_) => text_lookup(),
        ValueModel::Expression(s) => s,
        ValueModel::Number(n) => signed_decimal(n),
    }
}

/// The bound parameter that a value contributes, if any.
pub open spec fn bound_param(v: ValueModel) -> Option<Seq<char>> {
    match v {
        ValueModel::Quoted(s) => Some(s),
        ValueModel::Text(s) => Some(s),
        _ => None,
    }
}

/// A string escaped for a double-quoted SQL literal: `\` and `"` get a backslash.
pub open spec fn escaped(s: Seq<char>) -> Seq<char>
    decreases s.len(),
{
    if s.len() == 0 {
        Seq::empty()
    } else {
        let c = s.last();
        escaped(s.drop_last()) + if c == '\\' || c == '"' { seq!['\\', c] } else { seq![c] }
    }
}

/// How a value is written into a statement with all values inline.
pub open spec fn inline_sql(v: ValueModel) -> Seq<char> {
    match v {
        ValueModel::Quoted(s) => "\""@ + escaped(s) + "\""@,
        ValueModel::Text(s) => "(SELECT `id` FROM `texts` WHERE `value`=\""@ + escaped(s) + "\")"@,
        _ => placeholder(v),
    }
}

/// Escapes `s` for a double-quoted SQL literal.
pub fn sql_escape(s: &str) -> (r: String)
    ensures
        r@ == escaped(s@),
{
    let v = crate::text::chars_of(s);
    let mut out: Vec<char> = Vec::new();
    let mut i: usize = 0;
    while i < v.len()
        invariant
            i <= v@.len(),
            v@ == s@,
            out@ == escaped(v@.subrange(0, i as int)),
        decreases v@.len() - i,
    {
        let c = v[i];
        if c == '\\' || c == '"' {
            out.push('\\');
        }
        out.push(c);
        proof {
            assert(v@.subrange(0, i + 1).drop_last() =~= v@.subrange(0, i as int));
        }
        i = i + 1;
        assert(out@ =~= escaped(v@.subrange(0, i as int)));
    }
    assert(v@.subrange(0, v@.len() as int) =~= v@);
    crate::text::string_of(out.as_slice())
}

impl DbOperationCacheValue {
    pub fn copy(&self) -> (r: Self)
        ensures
            r@ == self@,
    {
        match self {
            DbOperationCacheValue::Quoted(s) => DbOperationCacheValue::Quoted(s.clone()),
            DbOperationCacheValue::Text(s) => DbOperationCacheValue::Text(s.clone()),
            DbOperationCacheValue::Expression(s) => DbOperationCacheValue::Expression(s.clone()),
            DbOperationCacheValue::Usize(n) => DbOperationCacheValue::Usize(*n),
            DbOperationCacheValue::I16(n) => DbOperationCacheValue::I16(*n),
            DbOperationCacheValue::U16(n) => DbOperationCacheValue::U16(*n),
            DbOperationCacheValue::I32(n) => DbOperationCacheValue::I32(*n),
            DbOperationCacheValue::U32(n) => DbOperationCacheValue::U32(*n),
            DbOperationCacheValue::I64(n) => DbOperationCacheValue::I64(*n),
            DbOperationCacheValue::U8(n) => DbOperationCacheValue::U8(*n),
        }
    }

    /// How this value is written into a parameterised statement.
    pub fn as_sql_placeholder(&self) -> (r: String)
        ensures
            r@ == placeholder(self@),
    {
        match self {
            DbOperationCacheValue::Quoted(_) => lit("?"),
            DbOperationCacheValue::Text(_) => lit("(SELECT `id` FROM `texts` WHERE `value`=?)"),
            DbOperationCacheValue::Expression(s) => s.clone(),
            DbOperationCacheValue::Usize(u) => u64_decimal(*u as u64),
            DbOperationCacheValue::I16(u) => i64_decimal(*u as i64),
            DbOperationCacheValue::U16(u) => u64_decimal(*u as u64),
            DbOperationCacheValue::I32(u) => i64_decimal(*u as i64),
            DbOperationCacheValue::U32(u) => u64_decimal(*u as u64),
            DbOperationCacheValue::I64(u) => i64_decimal(*u),
            DbOperationCacheValue::U8(u) => u64_decimal(*u as u64),
        }
    }

    /// How this value is written into a statement with all values inline.
    pub fn as_sql_stdout(&self) -> (r: String)
        ensures
            r@ == inline_sql(self@),
    {
        match self {
            DbOperationCacheValue::Quoted(s) => {
                let e = sql_escape(s.as_str());
                let a = cat("\"", e.as_str());
                cat(a.as_str(), "\"")
            },
            DbOperationCacheValue::Text(s) => {
                let e = sql_escape(s.as_str());
                let a = cat("(SELECT `id` FROM `texts` WHERE `value`=\"", e.as_str());
                cat(a.as_str(), "\")")
            },
            _ => self.as_sql_placeholder(),
        }
    }

    /// The parameter that this value binds, if any.
    pub fn as_sql_variable(&self) -> (r: Option<String>)
        ensures
            match r {
                Some(s) => bound_param(self@) == Some(s@),
                None => bound_param(self@) is None,
            },
    {
        match self {
            DbOperationCacheValue::Quoted(s) => Some(s.clone()),
            DbOperationCacheValue::Text(s) => Some(s.clone()),
            _ => None,
        }
    }

    /// The value as plain text.
    pub fn to_string(&self) -> (r: String)
        ensures
            r@ == match self@ {
                ValueModel::Quoted(s) => s,
                ValueModel::Text(s) => s,
                ValueModel::Expression(s) => s,
                ValueModel::Number(n) => signed_decimal(n),
            },
    {
        match self {
            DbOperationCacheValue::Quoted(s) => s.clone(),
            DbOperationCacheValue::Text(s) => s.clone(),
            DbOperationCacheValue::Expression(s) => s.clone(),
            _ => self.as_sql_placeholder(),
        }
    }
}

/// Copies of the values of `v`.
pub fn copy_values(v: &Vec<DbOperationCacheValue>) -> (r: Vec<DbOperationCacheValue>)
    ensures
        models(r@) == models(v@),
{
    let mut r: Vec<DbOperationCacheValue> = Vec::new();
    let mut i: usize = 0;
    while i < v.len()
        invariant
            i <= v@.len(),
            r@.len() == i,
            forall|j: int| 0 <= j < i ==> #[trigger] r@[j]@ == v@[j]@,
        decreases v@.len() - i,
    {
        let x = v[i].copy();
        r.push(x);
        i = i + 1;
    }
    assert(models(r@) =~= models(v@));
    r
}

/// The models of pending rows.
pub open spec fn row_models(rows: Seq<Vec<DbOperationCacheValue>>) -> Seq<Seq<ValueModel>> {
    rows.map_values(|r: Vec<DbOperationCacheValue>| models(r@))
}

/// The strings that pending rows store in the `texts` table.
pub open spec fn interned(rows: Seq<Seq<ValueModel>>) -> Set<Seq<char>> {
    Set::new(|t: Seq<char>| exists|i: int, j: int| 0 <= i < rows.len() && 0 <= j < rows[i].len()
        && #[trigger] rows[i][j] == ValueModel::Text(t))
}

/// The row of placeholders of one pending row: `(p0,p1,...)`.
pub open spec fn placeholder_row(r: Seq<ValueModel>) -> Seq<char> {
    "("@ + join(r.map_values(|v: ValueModel| placeholder(v)), ","@) + ")"@
}

/// The row of inline values of one pending row.
pub open spec fn inline_row(r: Seq<ValueModel>) -> Seq<char> {
    "("@ + join(r.map_values(|v: ValueModel| inline_sql(v)), ","@) + ")"@
}

/// The parameters that a row binds, in order.
pub open spec fn row_params(r: Seq<ValueModel>) -> Seq<Seq<char>>
    decreases r.len(),
{
    if r.len() == 0 {
        Seq::empty()
    } else {
        let prev = row_params(r.drop_last());
        match bound_param(r.last()) {
            Some(p) => prev.push(p),
            None => prev,
        }
    }
}

/// The parameters that rows bind, in order.
pub open spec fn rows_params(rows: Seq<Seq<ValueModel>>) -> Seq<Seq<char>>
    decreases rows.len(),
{
    if rows.len() == 0 { Seq::empty() } else { rows_params(rows.drop_last()) + row_params(rows.last()) }
}

/// The parameterised multi-row insert of `rows` after the statement head `command`.
pub open spec fn insert_sql(command: Seq<char>, rows: Seq<Seq<ValueModel>>) -> Seq<char> {
    command + join(rows.map_values(|r: Seq<ValueModel>| placeholder_row(r)), ","@)
}

/// The multi-row insert of `rows` with every value inline.
pub open spec fn insert_sql_inline(command: Seq<char>, rows: Seq<Seq<ValueModel>>) -> Seq<char> {
    command + join(rows.map_values(|r: Seq<ValueModel>| inline_row(r)), ","@)
}

/// The statement that stores `n` strings in the `texts` table, each bound.
pub open spec fn texts_sql(n: nat) -> Seq<char> {
    "INSERT IGNORE INTO `texts` (`value`) VALUES "@ + join(Seq::new(n, |i: int| "(?)"@), ","@)
}

/// The most strings stored by one statement.
pub const TEXT_CHUNK: usize = 100;

/// Renders one row of values with `f`.
fn render_row(row: &Vec<DbOperationCacheValue>, inline: bool) -> (r: String)
    ensures
        r@ == if inline { inline_row(models(row@)) } else { placeholder_row(models(row@)) },
{
    let ghost target = if inline {
        models(row@).map_values(|v: ValueModel| inline_sql(v))
    } else {
        models(row@).map_values(|v: ValueModel| placeholder(v))
    };
    let mut parts: Vec<String> = Vec::new();
    let mut i: usize = 0;
    while i < row.len()
        invariant
            i <= row@.len(),
            target == (if inline {
                models(row@).map_values(|v: ValueModel| inline_sql(v))
            } else {
                models(row@).map_values(|v: ValueModel| placeholder(v))
            }),
            views(parts@) == target.subrange(0, i as int),
        decreases row@.len() - i,
    {
        let x = if inline { row[i].as_sql_stdout() } else { row[i].as_sql_placeholder() };
        let ghost before = views(parts@);
        parts.push(x);
        assert(views(parts@) =~= before.push(target[i as int]));
        i = i + 1;
        assert(views(parts@) =~= target.subrange(0, i as int));
    }
    assert(target.subrange(0, i as int) =~= target);
    let mut r = cat("(", join_strings(&parts, ",").as_str());
    r.append(")");
    r
}

/// The parameters that a row binds.
fn row_binds(row: &Vec<DbOperationCacheValue>, out: &mut Vec<String>)
    ensures
        views(final(out)@) == views(old(out)@) + row_params(models(row@)),
{
    let ghost start = views(out@);
    let mut i: usize = 0;
    while i < row.len()
        invariant
            i <= row@.len(),
            views(out@) == start + row_params(models(row@).subrange(0, i as int)),
        decreases row@.len() - i,
    {
        assert(models(row@).subrange(0, i + 1).drop_last() =~= models(row@).subrange(0, i as int));
        assert(models(row@).subrange(0, i + 1).last() == row@[i as int]@);
        match row[i].as_sql_variable() {
            Some(p) => {
                let ghost before = views(out@);
                out.push(p);
                assert(views(out@) =~= before.push(p@));
            },
            None => {},
        }
        i = i + 1;
    }
    assert(models(row@).subrange(0, i as int) =~= models(row@));
}

/// The parameterised multi-row insert of `rows`, and the parameters it binds.
pub fn render_insert(command: &str, rows: &[Vec<DbOperationCacheValue>]) -> (r: (String, Vec<String>))
    ensures
        r.0@ == insert_sql(command@, row_models(rows@)),
        views(r.1@) == rows_params(row_models(rows@)),
{
    let ghost target = row_models(rows@).map_values(|r: Seq<ValueModel>| placeholder_row(r));
    let mut parts: Vec<String> = Vec::new();
    let mut binds: Vec<String> = Vec::new();
    let mut i: usize = 0;
    while i < rows.len()
        invariant
            i <= rows@.len(),
            target == row_models(rows@).map_values(|r: Seq<ValueModel>| placeholder_row(r)),
            views(parts@) == target.subrange(0, i as int),
            views(binds@) == rows_params(row_models(rows@).subrange(0, i as int)),
        decreases rows@.len() - i,
    {
        assert(row_models(rows@).subrange(0, i + 1).drop_last() =~= row_models(rows@).subrange(0, i as int));
        let x = render_row(&rows[i], false);
        let ghost before = views(parts@);
        parts.push(x);
        assert(views(parts@) =~= before.push(target[i as int]));
        row_binds(&rows[i], &mut binds);
        i = i + 1;
        assert(views(parts@) =~= target.subrange(0, i as int));
    }
    assert(target.subrange(0, i as int) =~= target);
    assert(row_models(rows@).subrange(0, i as int) =~= row_models(rows@));
    let mut sql = lit(command);
    sql.append(join_strings(&parts, ",").as_str());
    (sql, binds)
}

/// The multi-row insert of `rows` with every value inline.
pub fn render_insert_inline(command: &str, rows: &[Vec<DbOperationCacheValue>]) -> (r: String)
    ensures
        r@ == insert_sql_inline(command@, row_models(rows@)),
{
    let ghost target = row_models(rows@).map_values(|r: Seq<ValueModel>| inline_row(r));
    let mut parts: Vec<String> = Vec::new();
    let mut i: usize = 0;
    while i < rows.len()
        invariant
            i <= rows@.len(),
            target == row_models(rows@).map_values(|r: Seq<ValueModel>| inline_row(r)),
            views(parts@) == target.subrange(0, i as int),
        decreases rows@.len() - i,
    {
        let x = render_row(&rows[i], true);
        let ghost before = views(parts@);
        parts.push(x);
        assert(views(parts@) =~= before.push(target[i as int]));
        i = i + 1;
        assert(views(parts@) =~= target.subrange(0, i as int));
    }
    assert(target.subrange(0, i as int) =~= target);
    let mut sql = lit(command);
    sql.append(join_strings(&parts, ",").as_str());
    sql
}

/// The statement that stores `n` strings in the `texts` table.
pub fn texts_insert(n: usize) -> (r: String)
    ensures
        r@ == texts_sql(n as nat),
{
    let ghost target = Seq::new(n as nat, |i: int| "(?)"@);
    let mut parts: Vec<String> = Vec::new();
    let mut i: usize = 0;
    while i < n
        invariant
            i <= n,
            target == Seq::new(n as nat, |i: int| "(?)"@),
            views(parts@) == target.subrange(0, i as int),
        decreases n - i,
    {
        let ghost before = views(parts@);
        parts.push(lit("(?)"));
        assert(views(parts@) =~= before.push(target[i as int]));
        i = i + 1;
        assert(views(parts@) =~= target.subrange(0, i as int));
    }
    assert(target.subrange(0, i as int) =~= target);
    cat("INSERT IGNORE INTO `texts` (`value`) VALUES ", join_strings(&parts, ",").as_str())
}

/// The pending rows of one table, and the head of their insert statement.
#[derive(Debug)]
pub struct DbOperationCache {
    /// `INSERT IGNORE INTO `<table>` (<columns>) VALUES `, set by the first row.
    pub command: String,
    pub values: Vec<Vec<DbOperationCacheValue>>,
    /// The number of values of each row, recorded with the statement head.
    pub width: usize,
}

/// The number of columns of the table of a triple with subject `k` and object `v`.
pub open spec fn row_width(k: crate::element::ElementModel, v: crate::element::ElementModel) -> nat {
    slot_name_list("k"@, layout(k)).len() + slot_name_list("v"@, layout(v)).len()
}

/// The width that a new row must have: the columns of the triple for the first
/// row, the recorded width after that.
pub open spec fn expected_width(c: DbOperationCache, k: crate::element::ElementModel, v: crate::element::ElementModel) -> nat {
    if c.command@.len() == 0 { row_width(k, v) } else { c.width as nat }
}

/// The head of the insert statement of a table: its name and the columns of
/// subject `k` and object `v`.
pub open spec fn insert_head(table: Seq<char>, k: Seq<TypePart>, v: Seq<TypePart>) -> Seq<char> {
    "INSERT IGNORE INTO `"@ + table + "` (`"@ + join(slot_name_list("k"@, k) + slot_name_list("v"@, v), "`,`"@)
        + "`) VALUES "@
}

use crate::type_part::TypePart;

impl DbOperationCache {
    pub fn new() -> (r: Self)
        ensures
            r.command@ == Seq::<char>::empty(),
            r.values@.len() == 0,
            r.width == 0,
    {
        DbOperationCache { command: String::new(), values: Vec::new(), width: 0 }
    }

    /// Drops the pending rows.
    pub fn clear(&mut self)
        ensures
            final(self).values@.len() == 0,
            final(self).command == old(self).command,
            final(self).width == old(self).width,
    {
        self.values = Vec::new();
    }

    /// Adds the row `values` of the triple with subject `k` and object `v` to the
    /// rows of `table`. The first row sets the statement head and records the width;
    /// every row whose length is not that width is refused, as is an empty row.
    /// Returns whether `batch_size` rows are pending, so that the rows are due to be
    /// flushed.
    pub fn add(&mut self, k: &Element, v: &Element, table: &DatabaseTable, values: Vec<DbOperationCacheValue>,
        batch_size: usize) -> (r: Result<bool, WDQSErr>)
        ensures
            match r {
                Ok(full) => {
                    &&& values@.len() > 0
                    &&& values@.len() == expected_width(*old(self), k@, v@)
                    &&& final(self).values@ == old(self).values@.push(values)
                    &&& final(self).width == values@.len()
                    &&& (old(self).command@.len() == 0 ==> final(self).command@ == insert_head(
                        table@.name, layout(k@), layout(v@)))
                    &&& (old(self).command@.len() > 0 ==> final(self).command == old(self).command)
                    &&& full == (final(self).values@.len() >= batch_size)
                },
                Err(e) => {
                    &&& final(self).values@ == old(self).values@
                    &&& final(self).command == old(self).command
                    &&& final(self).width == old(self).width
                    &&& (values@.len() == 0 || values@.len() != expected_width(*old(self), k@, v@))
                    &&& (values@.len() > 0 ==> e is Schema)
                },
            },
    {
        if values.len() == 0 {
            return Err(WDQSErr::String(lit("DbOperationCache::add: nothing to do")));
        }
        if self.command.as_str().is_empty() {
            let mut fields = k.fields("k");
            let mut more = v.fields("v");
            let ghost f0 = views(fields@);
            let ghost f1 = views(more@);
            fields.append(&mut more);
            assert(views(fields@) =~= f0 + f1);
            if fields.len() != values.len() {
                return Err(WDQSErr::Schema(lit("DbOperationCache::add: the row does not fit the columns")));
            }
            let mut command = cat("INSERT IGNORE INTO `", table.table_name());
            command.append("` (`");
            command.append(join_strings(&fields, "`,`").as_str());
            command.append("`) VALUES ");
            self.command = command;
            self.width = values.len();
        } else if values.len() != self.width {
            return Err(WDQSErr::Schema(lit("DbOperationCache::add: the row does not fit the columns")));
        }
        self.values.push(values);
        Ok(self.values.len() >= batch_size)
    }
}

/// `s` cut into consecutive pieces of `size` items; the last piece may be shorter.
pub open spec fn chunks_of<A>(s: Seq<A>, size: nat) -> Seq<Seq<A>>
    decreases s.len(),
{
    if size == 0 || s.len() == 0 {
        Seq::empty()
    } else if s.len() <= size {
        seq![s]
    } else {
        seq![s.subrange(0, size as int)] + chunks_of(s.subrange(size as int, s.len() as int), size)
    }
}

/// The strings that a row stores in the `texts` table, in order.
pub open spec fn row_texts(r: Seq<ValueModel>) -> Seq<Seq<char>>
    decreases r.len(),
{
    if r.len() == 0 {
        Seq::empty()
    } else {
        match r.last() {
            ValueModel::Text(t) => row_texts(r.drop_last()).push(t),
            _ => row_texts(r.drop_last()),
        }
    }
}

/// The strings that rows store in the `texts` table, row after row.
pub open spec fn text_values(rows: Seq<Seq<ValueModel>>) -> Seq<Seq<char>>
    decreases rows.len(),
{
    if rows.len() == 0 { Seq::empty() } else { text_values(rows.drop_last()) + row_texts(rows.last()) }
}

/// `s` with every string after its first occurrence left out.
pub open spec fn dedup(s: Seq<Seq<char>>) -> Seq<Seq<char>>
    decreases s.len(),
{
    if s.len() == 0 {
        Seq::empty()
    } else if dedup(s.drop_last()).contains(s.last()) {
        dedup(s.drop_last())
    } else {
        dedup(s.drop_last()).push(s.last())
    }
}

/// The statement that stores one chunk of strings, with the strings it binds.
pub open spec fn texts_statement(c: Seq<Seq<char>>) -> (Seq<char>, Seq<Seq<char>>) {
    (texts_sql(c.len()), c)
}

proof fn lemma_chunks_cover<A>(s: Seq<A>, size: nat, m: int)
    requires
        size > 0,
        0 <= m < s.len(),
    ensures
        exists|i: int| 0 <= i < chunks_of(s, size).len() && chunks_of(s, size)[i].contains(s[m]),
    decreases s.len(),
{
    let cs = chunks_of(s, size);
    if s.len() <= size {
        assert(cs[0] == s);
        assert(cs[0].contains(s[m]));
    } else if m < size {
        assert(cs[0] == s.subrange(0, size as int));
        assert(cs[0][m] == s[m]);
        assert(cs[0].contains(s[m]));
    } else {
        let rest = s.subrange(size as int, s.len() as int);
        lemma_chunks_cover(rest, size, m - size);
        assert(rest[m - size] == s[m]);
        let i = choose|i: int| 0 <= i < chunks_of(rest, size).len() && chunks_of(rest, size)[i].contains(rest[m - size]);
        assert(cs[i + 1] == chunks_of(rest, size)[i]);
    }
}

proof fn lemma_chunks_shape<A>(s: Seq<A>, size: nat)
    requires
        size > 0,
    ensures
        forall|i: int| 0 <= i < chunks_of(s, size).len() ==> 0 < #[trigger] chunks_of(s, size)[i].len() <= size,
        forall|i: int, x: A| 0 <= i < chunks_of(s, size).len() && #[trigger] chunks_of(s, size)[i].contains(x) ==> s.contains(x),
    decreases s.len(),
{
    let cs = chunks_of(s, size);
    if s.len() == 0 {
    } else if s.len() <= size {
    } else {
        let rest = s.subrange(size as int, s.len() as int);
        lemma_chunks_shape(rest, size);
        assert forall|i: int, x: A| 0 <= i < cs.len() && #[trigger] cs[i].contains(x) implies s.contains(x) by {
            if i == 0 {
                let j = choose|j: int| 0 <= j < cs[0].len() && cs[0][j] == x;
                assert(s[j] == x);
            } else {
                assert(cs[i] == chunks_of(rest, size)[i - 1]);
                let j = choose|j: int| 0 <= j < rest.len() && rest[j] == x;
                assert(s[j + size] == x);
            }
        }
        assert forall|i: int| 0 <= i < cs.len() implies 0 < #[trigger] cs[i].len() <= size by {
            if i > 0 {
                assert(cs[i] == chunks_of(rest, size)[i - 1]);
            }
        }
    }
}

/// The statements that store the interned strings of a flush, and then its rows.
pub struct FlushPlan {
    /// `INSERT IGNORE INTO texts` statements, with the strings they bind; these run first.
    pub texts: Vec<(String, Vec<String>)>,
    /// The multi-row inserts of the rows, with the parameters they bind.
    pub inserts: Vec<(String, Vec<String>)>,
}

pub open spec fn statement_models(s: Seq<(String, Vec<String>)>) -> Seq<(Seq<char>, Seq<Seq<char>>)> {
    s.map_values(|x: (String, Vec<String>)| (x.0@, views(x.1@)))
}

/// Adds `s` to `out` unless it is there already.
fn push_unique(out: &mut Vec<String>, s: &String)
    requires
        views(old(out)@).no_duplicates(),
    ensures
        views(final(out)@).no_duplicates(),
        forall|t: Seq<char>| views(final(out)@).contains(t) <==> (views(old(out)@).contains(t) || t == s@),
        views(final(out)@) == if views(old(out)@).contains(s@) { views(old(out)@) } else { views(old(out)@).push(s@) },
{
    let mut i: usize = 0;
    while i < out.len()
        invariant
            i <= out@.len(),
            out@ == old(out)@,
            views(out@).no_duplicates(),
            forall|m: int| 0 <= m < i ==> views(out@)[m] != s@,
        decreases out@.len() - i,
    {
        if crate::text::str_eq(out[i].as_str(), s.as_str()) {
            assert(views(out@)[i as int] == s@);
            assert(views(out@).contains(s@));
            return;
        }
        i = i + 1;
    }
    let ghost before = views(out@);
    assert(!before.contains(s@));
    out.push(s.clone());
    assert(views(out@) =~= before.push(s@));
    assert(views(out@).no_duplicates()) by {
        assert forall|a: int, b: int| 0 <= a < views(out@).len() && 0 <= b < views(out@).len() && a != b
            implies views(out@)[a] != views(out@)[b] by {
            if a < before.len() && b < before.len() {
                assert(before[a] != before[b]);
            }
        }
    }
    assert forall|t: Seq<char>| views(out@).contains(t) <==> (before.contains(t) || t == s@) by {
        if views(out@).contains(t) {
            let m = choose|m: int| 0 <= m < views(out@).len() && views(out@)[m] == t;
            if m < before.len() {
                assert(before[m] == t);
            }
        }
        if before.contains(t) {
            let m = choose|m: int| 0 <= m < before.len() && before[m] == t;
            assert(views(out@)[m] == t);
        }
        if t == s@ {
            assert(views(out@)[before.len() as int] == t);
        }
    }
}

impl DbOperationCache {
    /// The strings that the pending rows store in the `texts` table, each once.
    pub fn interned_texts(&self) -> (r: Vec<String>)
        ensures
            views(r@).no_duplicates(),
            forall|t: Seq<char>| views(r@).contains(t) <==> interned(row_models(self.values@)).contains(t),
            views(r@) == dedup(text_values(row_models(self.values@))),
    {
        let ghost rows = row_models(self.values@);
        let mut out: Vec<String> = Vec::new();
        let mut i: usize = 0;
        while i < self.values.len()
            invariant
                i <= self.values@.len(),
                rows == row_models(self.values@),
                views(out@).no_duplicates(),
                forall|t: Seq<char>| views(out@).contains(t) <==> exists|a: int, b: int|
                    0 <= a < i && 0 <= b < rows[a].len() && #[trigger] rows[a][b] == ValueModel::Text(t),
                views(out@) == dedup(text_values(rows.subrange(0, i as int))),
            decreases self.values@.len() - i,
        {
            let row = &self.values[i];
            assert(rows[i as int] == models(row@));
            let mut j: usize = 0;
            while j < row.len()
                invariant
                    i < self.values@.len(),
                    j <= row@.len(),
                    rows == row_models(self.values@),
                    rows[i as int] == models(row@),
                    views(out@) == dedup(text_values(rows.subrange(0, i as int)) + row_texts(rows[i as int].subrange(0, j as int))),
                    views(out@).no_duplicates(),
                    forall|t: Seq<char>| views(out@).contains(t) <==> (
                        (exists|a: int, b: int| 0 <= a < i && 0 <= b < rows[a].len()
                            && #[trigger] rows[a][b] == ValueModel::Text(t))
                        || (exists|b: int| 0 <= b < j && #[trigger] rows[i as int][b] == ValueModel::Text(t))),
                decreases row@.len() - j,
            {
                assert(rows[i as int][j as int] == row@[j as int]@);
                let ghost pre = text_values(rows.subrange(0, i as int));
                let ghost r0 = rows[i as int].subrange(0, j as int);
                let ghost r1 = rows[i as int].subrange(0, j + 1);
                assert(r1.drop_last() =~= r0);
                assert(r1.last() == rows[i as int][j as int]);
                match &row[j] {
                    DbOperationCacheValue::Text(s) => {
                        assert((pre + row_texts(r1)).drop_last() =~= pre + row_texts(r0));
                        push_unique(&mut out, s);
                    },
                    _ => {
                        assert(row_texts(r1) == row_texts(r0));
                    },
                }
                j = j + 1;
            }
            assert(rows[i as int].subrange(0, j as int) =~= rows[i as int]);
            assert(rows.subrange(0, i + 1).drop_last() =~= rows.subrange(0, i as int));
            assert forall|t: Seq<char>| views(out@).contains(t) <==> exists|a: int, b: int|
                0 <= a < i + 1 && 0 <= b < rows[a].len() && #[trigger] rows[a][b] == ValueModel::Text(t) by {
                if exists|b: int| 0 <= b < row@.len() && #[trigger] rows[i as int][b] == ValueModel::Text(t) {
                    let b = choose|b: int| 0 <= b < row@.len() && #[trigger] rows[i as int][b] == ValueModel::Text(t);
                    assert(rows[i as int][b] == ValueModel::Text(t));
                }
                if exists|a: int, b: int| 0 <= a < i + 1 && 0 <= b < rows[a].len() && #[trigger] rows[a][b] == ValueModel::Text(t) {
                    let (a, b) = choose|a: int, b: int| 0 <= a < i + 1 && 0 <= b < rows[a].len() && #[trigger] rows[a][b] == ValueModel::Text(t);
                    if a == i {
                        assert(rows[i as int][b] == ValueModel::Text(t));
                    }
                }
            }
            i = i + 1;
        }
        assert(rows.subrange(0, i as int) =~= rows);
        out
    }

    /// The statements of a flush: first those that store every interned string of the
    /// pending rows in the `texts` table, at most 100 per statement, then the inserts of
    /// the rows, `chunk_size` rows per statement.
    pub fn flush_plan(&self, chunk_size: usize) -> (r: FlushPlan)
        requires
            chunk_size > 0,
        ensures
            forall|t: Seq<char>| #[trigger] interned(row_models(self.values@)).contains(t) ==> exists|i: int|
                0 <= i < r.texts@.len() && statement_models(r.texts@)[i].1.contains(t),
            forall|i: int| 0 <= i < r.texts@.len() ==> {
                let st = #[trigger] statement_models(r.texts@)[i];
                &&& st.0 == texts_sql(st.1.len())
                &&& 0 < st.1.len() <= TEXT_CHUNK
                &&& forall|t: Seq<char>| st.1.contains(t) ==> interned(row_models(self.values@)).contains(t)
            },
            statement_models(r.texts@) == chunks_of(dedup(text_values(row_models(self.values@))), TEXT_CHUNK as nat)
                .map_values(|c: Seq<Seq<char>>| texts_statement(c)),
            statement_models(r.inserts@) == chunks_of(row_models(self.values@), chunk_size as nat).map_values(
                |c: Seq<Seq<ValueModel>>| (insert_sql(self.command@, c), rows_params(c)),
            ),
    {
        let texts = self.interned_texts();
        let ghost all = views(texts@);
        let mut text_statements: Vec<(String, Vec<String>)> = Vec::new();
        let mut start: usize = 0;
        let ghost g = |c: Seq<Seq<char>>| texts_statement(c);
        let ghost n = all.len() as int;
        assert(all.subrange(0, n) =~= all);
        assert(statement_models(text_statements@) + chunks_of(all, TEXT_CHUNK as nat).map_values(g)
            =~= chunks_of(all, TEXT_CHUNK as nat).map_values(g));
        while start < texts.len()
            invariant
                start <= texts@.len(),
                all == views(texts@),
                n == all.len(),
                g == |c: Seq<Seq<char>>| texts_statement(c),
                chunks_of(all, TEXT_CHUNK as nat).map_values(g) == statement_models(text_statements@)
                    + chunks_of(all.subrange(start as int, n), TEXT_CHUNK as nat).map_values(g),
            decreases texts@.len() - start,
        {
            let end: usize = if texts.len() - start > TEXT_CHUNK { start + TEXT_CHUNK } else { texts.len() };
            let mut chunk: Vec<String> = Vec::new();
            let mut k: usize = start;
            while k < end
                invariant
                    start <= k <= end <= texts@.len(),
                    views(chunk@) == all.subrange(start as int, k as int),
                    all == views(texts@),
                decreases end - k,
            {
                let ghost before = views(chunk@);
                assert(all[k as int] == texts@[k as int]@);
                chunk.push(texts[k].clone());
                assert(views(chunk@) =~= before.push(all[k as int]));
                k = k + 1;
                assert(views(chunk@) =~= all.subrange(start as int, k as int));
            }
            let sql = texts_insert(chunk.len());
            let ghost c = views(chunk@);
            let ghost before = statement_models(text_statements@);
            text_statements.push((sql, chunk));
            assert(statement_models(text_statements@) =~= before.push((texts_sql(c.len()), c)));
            proof {
                let rest = all.subrange(start as int, n);
                if end < n {
                    assert(rest.subrange(0, TEXT_CHUNK as int) =~= c);
                    assert(rest.subrange(TEXT_CHUNK as int, rest.len() as int) =~= all.subrange(end as int, n));
                    assert(chunks_of(rest, TEXT_CHUNK as nat) =~= seq![c] + chunks_of(all.subrange(end as int, n), TEXT_CHUNK as nat));
                } else {
                    assert(rest =~= c);
                    assert(chunks_of(all.subrange(end as int, n), TEXT_CHUNK as nat) =~= Seq::<Seq<Seq<char>>>::empty());
                }
                assert(chunks_of(rest, TEXT_CHUNK as nat).map_values(g) =~= seq![g(c)]
                    + chunks_of(all.subrange(end as int, n), TEXT_CHUNK as nat).map_values(g));
                assert(statement_models(text_statements@) + chunks_of(all.subrange(end as int, n), TEXT_CHUNK as nat).map_values(g)
                    =~= before + chunks_of(rest, TEXT_CHUNK as nat).map_values(g));
            }
            start = end;
        }
        assert(chunks_of(all.subrange(start as int, n), TEXT_CHUNK as nat) =~= Seq::<Seq<Seq<char>>>::empty());
        let ghost ts = statement_models(text_statements@);
        assert(ts =~= chunks_of(all, TEXT_CHUNK as nat).map_values(g));
        let ghost cs = chunks_of(all, TEXT_CHUNK as nat);
        proof {
            lemma_chunks_shape(all, TEXT_CHUNK as nat);
            assert forall|t: Seq<char>| #[trigger] interned(row_models(self.values@)).contains(t) implies exists|i: int|
                0 <= i < ts.len() && ts[i].1.contains(t) by {
                assert(all.contains(t));
                let m = choose|m: int| 0 <= m < all.len() && all[m] == t;
                lemma_chunks_cover(all, TEXT_CHUNK as nat, m);
                let i = choose|i: int| 0 <= i < cs.len() && cs[i].contains(all[m]);
                assert(ts[i].1 == cs[i]);
            }
            assert forall|i: int| 0 <= i < ts.len() implies {
                let st = #[trigger] ts[i];
                &&& st.0 == texts_sql(st.1.len())
                &&& 0 < st.1.len() <= TEXT_CHUNK
                &&& forall|t: Seq<char>| st.1.contains(t) ==> interned(row_models(self.values@)).contains(t)
            } by {
                assert(ts[i] == texts_statement(cs[i]));
                assert forall|t: Seq<char>| ts[i].1.contains(t) implies interned(row_models(self.values@)).contains(t) by {
                    assert(all.contains(t));
                }
            }
        }
        let inserts = self.insert_statements(chunk_size);
        let r = FlushPlan { texts: text_statements, inserts };
        assert(statement_models(r.texts@) == ts);
        r
    }

    /// The inserts of the pending rows, `chunk_size` rows per statement.
    fn insert_statements(&self, chunk_size: usize) -> (r: Vec<(String, Vec<String>)>)
        requires
            chunk_size > 0,
        ensures
            statement_models(r@) == chunks_of(row_models(self.values@), chunk_size as nat).map_values(
                |c: Seq<Seq<ValueModel>>| (insert_sql(self.command@, c), rows_params(c)),
            ),
    {
        let ghost rows = row_models(self.values@);
        let ghost f = |c: Seq<Seq<ValueModel>>| (insert_sql(self.command@, c), rows_params(c));
        let mut out: Vec<(String, Vec<String>)> = Vec::new();
        let mut start: usize = 0;
        let n = self.values.len();
        assert(rows.subrange(0, n as int) =~= rows);
        assert(statement_models(out@) + chunks_of(rows, chunk_size as nat).map_values(f)
            =~= chunks_of(rows, chunk_size as nat).map_values(f));
        while start < n
            invariant
                start <= n == self.values@.len(),
                rows == row_models(self.values@),
                chunk_size > 0,
                f == |c: Seq<Seq<ValueModel>>| (insert_sql(self.command@, c), rows_params(c)),
                chunks_of(rows, chunk_size as nat).map_values(f)
                    == statement_models(out@) + chunks_of(rows.subrange(start as int, n as int), chunk_size as nat).map_values(f),
            decreases n - start,
        {
            let end: usize = if n - start > chunk_size { start + chunk_size } else { n };
            let slice = self.values.as_slice();
            let piece = crate::db_operation_cache::sub_slice(slice, start, end);
            let ghost rest = rows.subrange(start as int, n as int);
            assert(row_models(piece@) =~= rows.subrange(start as int, end as int));
            let st = render_insert(self.command.as_str(), piece);
            let ghost before = statement_models(out@);
            out.push(st);
            assert(statement_models(out@) =~= before.push(f(rows.subrange(start as int, end as int))));
            if end < n {
                assert(rest.subrange(0, chunk_size as int) =~= rows.subrange(start as int, end as int));
                assert(rest.subrange(chunk_size as int, rest.len() as int) =~= rows.subrange(end as int, n as int));
                assert(chunks_of(rest, chunk_size as nat) =~= seq![rows.subrange(start as int, end as int)]
                    + chunks_of(rows.subrange(end as int, n as int), chunk_size as nat));
            } else {
                assert(rest =~= rows.subrange(start as int, end as int));
                assert(chunks_of(rows.subrange(end as int, n as int), chunk_size as nat) =~= Seq::<Seq<Seq<ValueModel>>>::empty());
            }
            assert(chunks_of(rest, chunk_size as nat).map_values(f) =~= seq![f(rows.subrange(start as int, end as int))]
                + chunks_of(rows.subrange(end as int, n as int), chunk_size as nat).map_values(f));
            start = end;
        }
        assert(chunks_of(rows.subrange(start as int, n as int), chunk_size as nat) =~= Seq::<Seq<Seq<ValueModel>>>::empty());
        assert(statement_models(out@) + Seq::<(Seq<char>, Seq<Seq<char>>)>::empty() =~= statement_models(out@));
        out
    }
}

/// The items `s[from..to]`.
pub(crate) fn sub_slice<T>(s: &[T], from: usize, to: usize) -> (r: &[T])
    requires
        from <= to <= s@.len(),
    ensures
        r@ == s@.subrange(from as int, to as int),
{
    vstd::slice::slice_subrange(s, from, to)
}

} // verus!
