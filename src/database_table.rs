//! Definitions of the tables that back each triple shape, and their DDL.

use vstd::prelude::*;
use crate::db_operation_cache::{DbOperationCacheValue, ValueModel, models};
use crate::element::{Element, ElementModel, kind_name, layout, stored_values, table_fragment};
use crate::element_type::ElementType;
use crate::text::{cat, decimal, u64_decimal};
use crate::type_part::{TypePart, column_sql};

verus! {

/// The views of a sequence of strings.
pub open spec fn views(s: Seq<String>) -> Seq<Seq<char>> {
    s.map_values(|x: String| x@)
}

/// The column names `prefix<i>` of the non-blank slots of `parts`.
pub open spec fn slot_name_list(prefix: Seq<char>, parts: Seq<TypePart>) -> Seq<Seq<char>>
    decreases parts.len(),
{
    if parts.len() == 0 {
        Seq::empty()
    } else {
        let prev = slot_name_list(prefix, parts.drop_last());
        if parts.last() is Blank { prev } else { prev.push(prefix + decimal((parts.len() - 1) as nat)) }
    }
}

pub proof fn lemma_slot_names_len(prefix: Seq<char>, parts: Seq<TypePart>)
    ensures
        slot_name_list(prefix, parts).len() == crate::type_part::non_blank_count(parts),
    decreases parts.len(),
{
    if parts.len() > 0 {
        lemma_slot_names_len(prefix, parts.drop_last());
    }
}

/// One column definition line for each non-blank slot.
pub open spec fn column_lines(prefix: Seq<char>, parts: Seq<TypePart>) -> Seq<Seq<char>>
    decreases parts.len(),
{
    if parts.len() == 0 {
        Seq::empty()
    } else {
        let prev = column_lines(prefix, parts.drop_last());
        match column_sql(parts.last()) {
            Some(sql) => prev.push("`"@ + prefix + decimal((parts.len() - 1) as nat) + "` "@ + sql + ","@),
            None => prev,
        }
    }
}

/// The quoted column names of the non-blank slots.
pub open spec fn quoted_names(prefix: Seq<char>, parts: Seq<TypePart>) -> Seq<Seq<char>>
    decreases parts.len(),
{
    if parts.len() == 0 {
        Seq::empty()
    } else {
        let prev = quoted_names(prefix, parts.drop_last());
        if parts.last() is Blank { prev } else { prev.push("`"@ + prefix + decimal((parts.len() - 1) as nat) + "`"@) }
    }
}

/// One spatial index line for each point slot.
pub open spec fn spatial_lines(prefix: Seq<char>, parts: Seq<TypePart>) -> Seq<Seq<char>>
    decreases parts.len(),
{
    if parts.len() == 0 {
        Seq::empty()
    } else {
        let prev = spatial_lines(prefix, parts.drop_last());
        if parts.last() is Point {
            prev.push("SPATIAL INDEX("@ + prefix + decimal((parts.len() - 1) as nat) + "),"@)
        } else {
            prev
        }
    }
}

/// The number of long-text slots.
pub open spec fn text_count(parts: Seq<TypePart>) -> nat
    decreases parts.len(),
{
    if parts.len() == 0 {
        0
    } else {
        text_count(parts.drop_last()) + if parts.last() is Text { 1nat } else { 0nat }
    }
}

/// The pieces of `lines` with `sep` between each two.
pub open spec fn join(lines: Seq<Seq<char>>, sep: Seq<char>) -> Seq<char>
    decreases lines.len(),
{
    if lines.len() == 0 {
        Seq::empty()
    } else if lines.len() == 1 {
        lines[0]
    } else {
        join(lines.drop_last(), sep) + sep + lines.last()
    }
}

/// What a table definition holds.
pub struct TableModel {
    pub name: Seq<char>,
    pub key_layout: Seq<TypePart>,
    pub value_layout: Seq<TypePart>,
    pub names: (Seq<char>, Seq<char>, Seq<char>),
    pub property: Seq<char>,
    pub values: Seq<ValueModel>,
}

/// The table name of a triple shape: the predicate's fragment, then the kind names
/// of subject and object.
pub open spec fn table_name_of(s: ElementModel, p: ElementModel, o: ElementModel) -> Seq<char> {
    "data__"@ + table_fragment(p) + "__"@ + kind_name(s) + "__"@ + kind_name(o)
}

/// The definition of the table of a triple shape.
pub open spec fn table_of(s: ElementModel, p: ElementModel, o: ElementModel) -> TableModel {
    TableModel {
        name: table_name_of(s, p, o),
        key_layout: layout(s),
        value_layout: layout(o),
        names: (kind_name(s), kind_name(p), kind_name(o)),
        property: table_fragment(p),
        values: stored_values(p),
    }
}

/// The primary key lines of a table.
pub open spec fn key_lines(t: TableModel) -> Seq<Seq<char>> {
    let unique = quoted_names("k"@, t.key_layout) + quoted_names("v"@, t.value_layout);
    if unique.len() == 0 || text_count(t.key_layout) + text_count(t.value_layout) >= 2 {
        seq!["`id` INT(11) NOT NULL AUTO_INCREMENT,"@, "PRIMARY KEY (`id`)"@]
    } else {
        seq!["PRIMARY KEY `primary_key` ("@ + join(unique, ","@) + ")"@]
    }
}

/// An index line over the given columns, if there are any.
pub open spec fn index_line(head: Seq<char>, cols: Seq<Seq<char>>) -> Seq<Seq<char>> {
    if cols.len() == 0 {
        Seq::empty()
    } else {
        seq![head + join(cols, ","@) + "),"@]
    }
}

/// The lines of the DDL statement of a table.
pub open spec fn create_lines(t: TableModel) -> Seq<Seq<char>> {
    seq!["CREATE TABLE IF NOT EXISTS `"@ + t.name + "` ("@]
        + column_lines("k"@, t.key_layout) + column_lines("v"@, t.value_layout)
        + spatial_lines("k"@, t.key_layout) + spatial_lines("v"@, t.value_layout)
        + index_line("INDEX `index_k` ("@, quoted_names("k"@, t.key_layout))
        + index_line("INDEX `index_v` ("@, quoted_names("v"@, t.value_layout))
        + key_lines(t)
        + seq![") ENGINE=Aria"@]
}

/// The definition of the table that holds the triples of one shape.
#[derive(Debug)]
pub struct DatabaseTable {
    pub name: String,
    tp1: Vec<TypePart>,
    tp2: Vec<TypePart>,
    names: (String, String, String),
    property: String,
    values: Vec<DbOperationCacheValue>,
}

impl View for DatabaseTable {
    type V = TableModel;

    closed spec fn view(&self) -> TableModel {
        TableModel {
            name: self.name@,
            key_layout: self.tp1@,
            value_layout: self.tp2@,
            names: (self.names.0@, self.names.1@, self.names.2@),
            property: self.property@,
            values: models(self.values@),
        }
    }
}

/// The column names `prefix<i>` of the non-blank slots of `parts`.
pub fn slot_names(parts: &Vec<TypePart>, prefix: &str) -> (r: Vec<String>)
    ensures
        views(r@) == slot_name_list(prefix@, parts@),
{
    let mut r: Vec<String> = Vec::new();
    let mut i: usize = 0;
    while i < parts.len()
        invariant
            i <= parts@.len(),
            views(r@) == slot_name_list(prefix@, parts@.subrange(0, i as int)),
        decreases parts@.len() - i,
    {
        assert(parts@.subrange(0, i + 1).drop_last() =~= parts@.subrange(0, i as int));
        if !parts[i].is_blank() {
            r.push(cat(prefix, u64_decimal(i as u64).as_str()));
        }
        i = i + 1;
        assert(views(r@) =~= slot_name_list(prefix@, parts@.subrange(0, i as int)));
    }
    assert(parts@.subrange(0, parts@.len() as int) =~= parts@);
    r
}

fn copy_parts(v: &Vec<TypePart>) -> (r: Vec<TypePart>)
    ensures
        r@ == v@,
{
    let mut r: Vec<TypePart> = Vec::new();
    let mut i: usize = 0;
    while i < v.len()
        invariant
            i <= v@.len(),
            r@ == v@.subrange(0, i as int),
        decreases v@.len() - i,
    {
        r.push(v[i]);
        i = i + 1;
        assert(r@ =~= v@.subrange(0, i as int));
    }
    assert(v@.subrange(0, i as int) =~= v@);
    r
}

/// Joins `lines` with `sep`.
pub fn join_strings(lines: &Vec<String>, sep: &str) -> (r: String)
    ensures
        r@ == join(views(lines@), sep@),
{
    let mut r = String::new();
    let mut i: usize = 0;
    while i < lines.len()
        invariant
            i <= lines@.len(),
            r@ == join(views(lines@.subrange(0, i as int)), sep@),
        decreases lines@.len() - i,
    {
        assert(views(lines@.subrange(0, i + 1)).drop_last() =~= views(lines@.subrange(0, i as int)));
        if i > 0 {
            r.append(sep);
        }
        r.append(lines[i].as_str());
        i = i + 1;
        assert(views(lines@.subrange(0, i as int)).len() == i);
        assert(i == 1 ==> r@ =~= views(lines@.subrange(0, i as int))[0]);
    }
    assert(lines@.subrange(0, lines@.len() as int) =~= lines@);
    r
}

/// The column lines, quoted names, spatial index lines and long-text count of one layout.
fn layout_lines(parts: &Vec<TypePart>, prefix: &str) -> (r: (Vec<String>, Vec<String>, Vec<String>, usize))
    ensures
        views(r.0@) == column_lines(prefix@, parts@),
        views(r.1@) == quoted_names(prefix@, parts@),
        views(r.2@) == spatial_lines(prefix@, parts@),
        r.3 == text_count(parts@),
{
    let mut cols: Vec<String> = Vec::new();
    let mut quoted: Vec<String> = Vec::new();
    let mut spatial: Vec<String> = Vec::new();
    let mut texts: usize = 0;
    let mut i: usize = 0;
    while i < parts.len()
        invariant
            i <= parts@.len(),
            views(cols@) == column_lines(prefix@, parts@.subrange(0, i as int)),
            views(quoted@) == quoted_names(prefix@, parts@.subrange(0, i as int)),
            views(spatial@) == spatial_lines(prefix@, parts@.subrange(0, i as int)),
            texts == text_count(parts@.subrange(0, i as int)),
            texts <= i,
        decreases parts@.len() - i,
    {
        assert(parts@.subrange(0, i + 1).drop_last() =~= parts@.subrange(0, i as int));
        let tp = parts[i];
        let num = u64_decimal(i as u64);
        match tp.create_sql() {
            Some(sql) => {
                let mut line = cat("`", prefix);
                line.append(num.as_str());
                line.append("` ");
                line.append(sql);
                line.append(",");
                cols.push(line);
                let mut q = cat("`", prefix);
                q.append(num.as_str());
                q.append("`");
                quoted.push(q);
            },
            None => {},
        }
        match tp {
            TypePart::Point => {
                let mut line = cat("SPATIAL INDEX(", prefix);
                line.append(num.as_str());
                line.append("),");
                spatial.push(line);
            },
            TypePart::Text => {
                texts = texts + 1;
            },
            _ => {},
        }
        i = i + 1;
        assert(views(cols@) =~= column_lines(prefix@, parts@.subrange(0, i as int)));
        assert(views(quoted@) =~= quoted_names(prefix@, parts@.subrange(0, i as int)));
        assert(views(spatial@) =~= spatial_lines(prefix@, parts@.subrange(0, i as int)));
    }
    assert(parts@.subrange(0, parts@.len() as int) =~= parts@);
    (cols, quoted, spatial, texts)
}

/// Appends every string of `b` to `a`.
fn extend(a: &mut Vec<String>, b: Vec<String>)
    ensures
        views(final(a)@) == views(old(a)@) + views(b@),
{
    let mut b = b;
    let ghost a0 = a@;
    let ghost b0 = b@;
    a.append(&mut b);
    assert(views(a@) =~= views(a0) + views(b0));
}

impl DatabaseTable {
    /// The definition of the table of the shape `(s, p, o)`.
    pub fn new(s: &Element, p: &Element, o: &Element) -> (r: Self)
        ensures
            r@ == table_of(s@, p@, o@),
    {
        let subject_label = crate::text::lit(s.name());
        let prop_label = p.get_table_name();
        let object_label = crate::text::lit(o.name());
        let mut name = cat("data__", prop_label.as_str());
        name.append("__");
        name.append(subject_label.as_str());
        name.append("__");
        name.append(object_label.as_str());
        DatabaseTable {
            name,
            tp1: s.get_type_parts(),
            tp2: o.get_type_parts(),
            names: (crate::text::lit(s.name()), crate::text::lit(p.name()), crate::text::lit(o.name())),
            property: prop_label,
            values: p.values(),
        }
    }

    pub fn copy(&self) -> (r: Self)
        ensures
            r@ == self@,
    {
        DatabaseTable {
            name: self.name.clone(),
            tp1: copy_parts(&self.tp1),
            tp2: copy_parts(&self.tp2),
            names: (self.names.0.clone(), self.names.1.clone(), self.names.2.clone()),
            property: self.property.clone(),
            values: crate::db_operation_cache::copy_values(&self.values),
        }
    }

    /// The name of the table.
    pub fn table_name(&self) -> (r: &str)
        ensures
            r@ == self@.name,
    {
        self.name.as_str()
    }

    /// The table fragment of the predicate.
    pub fn property(&self) -> (r: &str)
        ensures
            r@ == self@.property,
    {
        self.property.as_str()
    }

    /// The values that the predicate stores.
    pub fn values(&self) -> (r: &Vec<DbOperationCacheValue>)
        ensures
            models(r@) == self@.values,
    {
        &self.values
    }

    /// The kind names of subject, predicate and object.
    pub fn names(&self) -> (r: &(String, String, String))
        ensures
            (r.0@, r.1@, r.2@) == self@.names,
    {
        &self.names
    }

    /// The layout of the subject columns.
    pub fn key_layout(&self) -> (r: &Vec<TypePart>)
        ensures
            r@ == self@.key_layout,
    {
        &self.tp1
    }

    /// The layout of the object columns.
    pub fn value_layout(&self) -> (r: &Vec<TypePart>)
        ensures
            r@ == self@.value_layout,
    {
        &self.tp2
    }

    /// A definition made of its parts, as read back from storage.
    pub fn from_parts(
        name: String,
        tp1: Vec<TypePart>,
        tp2: Vec<TypePart>,
        names: (String, String, String),
        property: String,
        values: Vec<DbOperationCacheValue>,
    ) -> (r: Self)
        ensures
            r@ == (TableModel {
                name: name@,
                key_layout: tp1@,
                value_layout: tp2@,
                names: (names.0@, names.1@, names.2@),
                property: property@,
                values: models(values@),
            }),
    {
        DatabaseTable { name, tp1, tp2, names, property, values }
    }

    /// The `CREATE TABLE` statement of this table.
    pub fn create_statement(&self) -> (r: String)
        ensures
            r@ == join(create_lines(self@), "\n"@),
    {
        let mut parts: Vec<String> = Vec::new();
        let mut head = cat("CREATE TABLE IF NOT EXISTS `", self.name.as_str());
        head.append("` (");
        parts.push(head);
        let (cols_k, index_k, spatial_k, texts_k) = layout_lines(&self.tp1, "k");
        let (cols_v, index_v, spatial_v, texts_v) = layout_lines(&self.tp2, "v");
        let ghost ik = views(index_k@);
        let ghost iv = views(index_v@);
        let ghost ck = views(cols_k@);
        let ghost cv = views(cols_v@);
        let ghost sk = views(spatial_k@);
        let ghost sv = views(spatial_v@);
        let ghost h = views(parts@);
        extend(&mut parts, cols_k);
        extend(&mut parts, cols_v);
        extend(&mut parts, spatial_k);
        extend(&mut parts, spatial_v);
        let mut index_lines: Vec<String> = Vec::new();
        if index_k.len() > 0 {
            let mut line = cat("INDEX `index_k` (", join_strings(&index_k, ",").as_str());
            line.append("),");
            index_lines.push(line);
        }
        assert(views(index_lines@) =~= index_line("INDEX `index_k` ("@, ik));
        let ghost lk = views(index_lines@);
        extend(&mut parts, index_lines);
        let mut index_lines: Vec<String> = Vec::new();
        if index_v.len() > 0 {
            let mut line = cat("INDEX `index_v` (", join_strings(&index_v, ",").as_str());
            line.append("),");
            index_lines.push(line);
        }
        assert(views(index_lines@) =~= index_line("INDEX `index_v` ("@, iv));
        let ghost lv = views(index_lines@);
        extend(&mut parts, index_lines);
        let mut unique = index_k;
        let mut rest = index_v;
        unique.append(&mut rest);
        assert(views(unique@) =~= ik + iv);
        let mut key: Vec<String> = Vec::new();
        if unique.len() == 0 || texts_k >= 2 || texts_v >= 2 - texts_k {
            key.push(crate::text::lit("`id` INT(11) NOT NULL AUTO_INCREMENT,"));
            key.push(crate::text::lit("PRIMARY KEY (`id`)"));
        } else {
            let mut line = cat("PRIMARY KEY `primary_key` (", join_strings(&unique, ",").as_str());
            line.append(")");
            key.push(line);
        }
        assert(views(key@) =~= key_lines(self@));
        let ghost kl = views(key@);
        extend(&mut parts, key);
        let ghost before_end = views(parts@);
        parts.push(crate::text::lit(") ENGINE=Aria"));
        assert(views(parts@) =~= before_end + seq![") ENGINE=Aria"@]);
        assert(before_end =~= h + ck + cv + sk + sv + lk + lv + kl);
        assert(views(parts@) =~= create_lines(self@));
        join_strings(&parts, "\n")
    }
}

} // verus!
