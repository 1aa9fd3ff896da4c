//! The state shared by ingest and query: prefixes, batch sizes, and the registry
//! of table definitions by name.

use vstd::prelude::*;
use crate::database_table::{DatabaseTable, TableModel, table_of};
use crate::element::Element;
use crate::text::{first_index, index_of, str_eq, substring};

verus! {

/// What `str::to_lowercase` makes of a string.
pub uninterp spec fn lower_of(s: Seq<char>) -> Seq<char>;

/// Relies on `str::to_lowercase`: the result depends on the characters alone.
#[verifier::external_body]
fn lowercase(s: &str) -> (r: String)
    ensures
        r@ == lower_of(s@),
{
    s.to_lowercase()
}

/// The characters of the Unicode `White_Space` property, which `str::trim` removes.
pub open spec fn is_white_space(c: char) -> bool {
    ('\u{9}' <= c && c <= '\u{d}') || c == ' ' || c == '\u{85}' || c == '\u{a0}' || c == '\u{1680}'
        || ('\u{2000}' <= c && c <= '\u{200a}') || c == '\u{2028}' || c == '\u{2029}' || c == '\u{202f}'
        || c == '\u{205f}' || c == '\u{3000}'
}

pub open spec fn trim_start(s: Seq<char>) -> Seq<char>
    decreases s.len(),
{
    if s.len() > 0 && is_white_space(s[0]) { trim_start(s.subrange(1, s.len() as int)) } else { s }
}

pub open spec fn trim_end(s: Seq<char>) -> Seq<char>
    decreases s.len(),
{
    if s.len() > 0 && is_white_space(s.last()) { trim_end(s.drop_last()) } else { s }
}

/// `s` without leading and trailing white space.
pub open spec fn trim(s: Seq<char>) -> Seq<char> {
    trim_end(trim_start(s))
}

fn white_space(c: char) -> (r: bool)
    ensures
        r == is_white_space(c),
{
    ('\u{9}' <= c && c <= '\u{d}') || c == ' ' || c == '\u{85}' || c == '\u{a0}' || c == '\u{1680}'
        || ('\u{2000}' <= c && c <= '\u{200a}') || c == '\u{2028}' || c == '\u{2029}' || c == '\u{202f}'
        || c == '\u{205f}' || c == '\u{3000}'
}

/// `v[from..to]` without leading and trailing white space.
fn trim_range(v: &Vec<char>, from: usize, to: usize) -> (r: String)
    requires
        from <= to <= v@.len(),
    ensures
        r@ == trim(v@.subrange(from as int, to as int)),
{
    let mut lo: usize = from;
    while lo < to && white_space(v[lo])
        invariant
            from <= lo <= to <= v@.len(),
            trim_start(v@.subrange(from as int, to as int)) == trim_start(v@.subrange(lo as int, to as int)),
        decreases to - lo,
    {
        assert(v@.subrange(lo as int, to as int).subrange(1, (to - lo) as int) =~= v@.subrange(lo + 1, to as int));
        lo = lo + 1;
    }
    let mut hi: usize = to;
    while hi > lo && white_space(v[hi - 1])
        invariant
            from <= lo <= hi <= to <= v@.len(),
            trim_end(v@.subrange(lo as int, to as int)) == trim_end(v@.subrange(lo as int, hi as int)),
        decreases hi - lo,
    {
        assert(v@.subrange(lo as int, hi as int).drop_last() =~= v@.subrange(lo as int, hi - 1));
        hi = hi - 1;
    }
    substring(v, lo, hi)
}

/// The value of the first pair of `pairs` whose key is `key`.
pub open spec fn lookup(pairs: Seq<(Seq<char>, Seq<char>)>, key: Seq<char>) -> Option<Seq<char>>
    decreases pairs.len(),
{
    if pairs.len() == 0 {
        None
    } else if pairs[0].0 == key {
        Some(pairs[0].1)
    } else {
        lookup(pairs.subrange(1, pairs.len() as int), key)
    }
}

/// `pfx:local` with the prefix known: its IRI root followed by the local part, with
/// white space around the colon ignored and the prefix compared in lower case.
/// Anything else stays as it is.
pub open spec fn prefixed(pairs: Seq<(Seq<char>, Seq<char>)>, s: Seq<char>) -> Seq<char> {
    let c = first_index(s, ':');
    if c < 0 {
        s
    } else {
        match lookup(pairs, lower_of(trim(s.subrange(0, c)))) {
            Some(root) => root + trim(s.subrange(c + 1, s.len() as int)),
            None => s,
        }
    }
}

/// No two pairs share a key.
pub open spec fn keys_unique(pairs: Seq<(Seq<char>, Seq<char>)>) -> bool {
    forall|i: int, j: int| 0 <= i < j < pairs.len() ==> pairs[i].0 != pairs[j].0
}

/// The definition stored under `name`, if any.
pub open spec fn find_table(tables: Seq<TableModel>, name: Seq<char>) -> Option<TableModel>
    decreases tables.len(),
{
    if tables.len() == 0 {
        None
    } else if tables[0].name == name {
        Some(tables[0])
    } else {
        find_table(tables.subrange(1, tables.len() as int), name)
    }
}

/// No two definitions share a name.
pub open spec fn names_unique(tables: Seq<TableModel>) -> bool {
    forall|i: int, j: int| 0 <= i < j < tables.len() ==> tables[i].name != tables[j].name
}

pub open spec fn table_models(tables: Seq<DatabaseTable>) -> Seq<TableModel> {
    tables.map_values(|t: DatabaseTable| t@)
}

pub struct AppState {
    tables: Vec<DatabaseTable>,
    /// Rows per flush of a table's write buffer.
    pub insert_batch_size: usize,
    /// Rows per multi-row insert statement.
    pub insert_chunk_size: usize,
    prefixes: Vec<(String, String)>,
}

impl AppState {
    pub closed spec fn batch(&self) -> usize {
        self.insert_batch_size
    }

    pub closed spec fn chunk(&self) -> usize {
        self.insert_chunk_size
    }

    /// Rows per flush of a table's write buffer.
    pub fn batch_size(&self) -> (r: usize)
        ensures
            r == self.batch(),
    {
        self.insert_batch_size
    }

    /// Rows per multi-row insert statement.
    pub fn chunk_size(&self) -> (r: usize)
        ensures
            r == self.chunk(),
    {
        self.insert_chunk_size
    }

    /// The prefixes as pairs of texts.
    pub closed spec fn prefix_pairs(&self) -> Seq<(Seq<char>, Seq<char>)> {
        self.prefixes@.map_values(|p: (String, String)| (p.0@, p.1@))
    }

    /// The registered table definitions, in order of registration.
    pub closed spec fn registry(&self) -> Seq<TableModel> {
        table_models(self.tables@)
    }

    /// Table names are unique in the registry, and prefixes are unique.
    pub open spec fn wf(&self) -> bool {
        &&& names_unique(self.registry())
        &&& keys_unique(self.prefix_pairs())
    }

    /// A state with the given prefixes and sizes and no tables.
    pub fn new(prefixes: Vec<(String, String)>, insert_batch_size: usize, insert_chunk_size: usize) -> (r: Self)
        requires
            keys_unique(prefixes@.map_values(|p: (String, String)| (p.0@, p.1@))),
        ensures
            r.wf(),
            r.registry() == Seq::<TableModel>::empty(),
            r.prefix_pairs() == prefixes@.map_values(|p: (String, String)| (p.0@, p.1@)),
            r.batch() == insert_batch_size,
            r.chunk() == insert_chunk_size,
    {
        let r = AppState { tables: Vec::new(), insert_batch_size, insert_chunk_size, prefixes };
        assert(r.registry() =~= Seq::<TableModel>::empty());
        r
    }

    /// Expands a known prefix: `wd:Q42` becomes the IRI of `Q42`.
    pub fn replace_prefix(&self, s: &str) -> (r: String)
        ensures
            r@ == prefixed(self.prefix_pairs(), s@),
    {
        let v = crate::text::chars_of(s);
        let c = match index_of(&v, ':') {
            Some(c) => c,
            None => return s.to_string(),
        };
        let before = trim_range(&v, 0, c);
        let key = lowercase(before.as_str());
        let n = v.len();
        let after = trim_range(&v, c + 1, n);
        let mut i: usize = 0;
        assert(self.prefix_pairs().subrange(0, self.prefix_pairs().len() as int) =~= self.prefix_pairs());
        while i < self.prefixes.len()
            invariant
                i <= self.prefixes@.len(),
                v@ == s@,
                c as int == first_index(s@, ':'),
                key@ == lower_of(trim(s@.subrange(0, c as int))),
                after@ == trim(s@.subrange(c + 1, s@.len() as int)),
                self.prefix_pairs().len() == self.prefixes@.len(),
                lookup(self.prefix_pairs(), key@) == lookup(self.prefix_pairs().subrange(i as int, self.prefix_pairs().len() as int), key@),
            decreases self.prefixes@.len() - i,
        {
            let ghost rest = self.prefix_pairs().subrange(i as int, self.prefix_pairs().len() as int);
            assert(rest.subrange(1, rest.len() as int) =~= self.prefix_pairs().subrange(i + 1, self.prefix_pairs().len() as int));
            if str_eq(self.prefixes[i].0.as_str(), key.as_str()) {
                let mut r = self.prefixes[i].1.clone();
                r.append(after.as_str());
                return r;
            }
            i = i + 1;
        }
        s.to_string()
    }

    /// The index of the definition named `name`.
    fn position(&self, name: &str) -> (r: Option<usize>)
        requires
            self.wf(),
        ensures
            match r {
                Some(i) => i < self.registry().len() && self.registry()[i as int].name == name@
                    && find_table(self.registry(), name@) == Some(self.registry()[i as int]),
                None => find_table(self.registry(), name@) is None
                    && forall|j: int| 0 <= j < self.registry().len() ==> self.registry()[j].name != name@,
            },
    {
        let mut i: usize = 0;
        assert(self.registry().subrange(0, self.registry().len() as int) =~= self.registry());
        while i < self.tables.len()
            invariant
                i <= self.tables@.len(),
                self.registry().len() == self.tables@.len(),
                find_table(self.registry(), name@) == find_table(self.registry().subrange(i as int, self.registry().len() as int), name@),
                forall|j: int| 0 <= j < i ==> self.registry()[j].name != name@,
            decreases self.tables@.len() - i,
        {
            let ghost rest = self.registry().subrange(i as int, self.registry().len() as int);
            assert(rest.subrange(1, rest.len() as int) =~= self.registry().subrange(i + 1, self.registry().len() as int));
            if str_eq(self.tables[i].table_name(), name) {
                return Some(i);
            }
            i = i + 1;
        }
        None
    }

    /// Registers `table` unless a definition of that name exists already; the first
    /// definition of a name wins. Returns whether it was added, in which case its
    /// table still has to be provisioned.
    pub fn register(&mut self, table: DatabaseTable) -> (added: bool)
        requires
            old(self).wf(),
        ensures
            final(self).wf(),
            final(self).prefix_pairs() == old(self).prefix_pairs(),
            final(self).batch() == old(self).batch(),
            final(self).chunk() == old(self).chunk(),
            added == (find_table(old(self).registry(), table@.name) is None),
            added ==> final(self).registry() == old(self).registry().push(table@),
            !added ==> final(self).registry() == old(self).registry(),
    {
        match self.position(table.table_name()) {
            Some(_) => false,
            None => {
                let ghost before = self.registry();
                self.tables.push(table);
                assert(self.registry() =~= before.push(table@));
                true
            },
        }
    }

    /// The definition of the table of the shape `(s, p, o)`: the registered one of that
    /// name if there is one (the first definition of a name wins), else the new one,
    /// which is registered. Returns it, and whether it was new (then its table has to
    /// be provisioned).
    pub fn table(&mut self, s: &Element, p: &Element, o: &Element) -> (r: (DatabaseTable, bool))
        requires
            old(self).wf(),
        ensures
            final(self).wf(),
            final(self).prefix_pairs() == old(self).prefix_pairs(),
            final(self).batch() == old(self).batch(),
            final(self).chunk() == old(self).chunk(),
            final(self).registry() == register_model(old(self).registry(), table_of(s@, p@, o@)),
            r.1 == (find_table(old(self).registry(), table_of(s@, p@, o@).name) is None),
            find_table(final(self).registry(), table_of(s@, p@, o@).name) == Some(r.0@),
            r.0@.name == table_of(s@, p@, o@).name,
            r.1 ==> r.0@ == table_of(s@, p@, o@),
    {
        let table = DatabaseTable::new(s, p, o);
        match self.position(table.table_name()) {
            Some(i) => {
                let existing = self.tables[i].copy();
                assert(existing@ == self.registry()[i as int]);
                (existing, false)
            },
            None => {
                let ghost before = self.registry();
                let copy = table.copy();
                let added = self.register(copy);
                proof { lemma_find_pushed(before, table@); }
                (table, true)
            },
        }
    }

    /// The registered definition named `name`.
    pub fn get_table(&self, name: &str) -> (r: Option<&DatabaseTable>)
        requires
            self.wf(),
        ensures
            match r {
                Some(t) => find_table(self.registry(), name@) == Some(t@),
                None => find_table(self.registry(), name@) is None,
            },
    {
        match self.position(name) {
            Some(i) => Some(&self.tables[i]),
            None => None,
        }
    }

    /// The registered definitions, in order of registration.
    pub fn tables(&self) -> (r: &Vec<DatabaseTable>)
        ensures
            table_models(r@) == self.registry(),
    {
        &self.tables
    }

    /// Copies of the registered definitions, as they are persisted.
    pub fn table_list(&self) -> (r: Vec<DatabaseTable>)
        ensures
            table_models(r@) == self.registry(),
    {
        let mut r: Vec<DatabaseTable> = Vec::new();
        let mut i: usize = 0;
        while i < self.tables.len()
            invariant
                i <= self.tables@.len(),
                r@.len() == i,
                forall|j: int| 0 <= j < i ==> #[trigger] r@[j]@ == self.tables@[j]@,
            decreases self.tables@.len() - i,
        {
            let t = self.tables[i].copy();
            r.push(t);
            i = i + 1;
        }
        assert(table_models(r@) =~= self.registry());
        r
    }

    /// Registers persisted definitions, in order; a name already present keeps its definition.
    pub fn init_tables(&mut self, rows: Vec<DatabaseTable>)
        requires
            old(self).wf(),
        ensures
            final(self).wf(),
            final(self).prefix_pairs() == old(self).prefix_pairs(),
            final(self).batch() == old(self).batch(),
            final(self).chunk() == old(self).chunk(),
            final(self).registry() == loaded(old(self).registry(), table_models(rows@)),
    {
        let ghost all = table_models(rows@);
        let ghost start = self.registry();
        let mut i: usize = 0;
        assert(all.subrange(0, all.len() as int) =~= all);
        while i < rows.len()
            invariant
                i <= rows@.len(),
                all == table_models(rows@),
                self.wf(),
                self.prefix_pairs() == old(self).prefix_pairs(),
                self.batch() == old(self).batch(),
                self.chunk() == old(self).chunk(),
                loaded(start, all) == loaded(self.registry(), all.subrange(i as int, all.len() as int)),
            decreases rows@.len() - i,
        {
            let ghost rest = all.subrange(i as int, all.len() as int);
            assert(rest.subrange(1, rest.len() as int) =~= all.subrange(i + 1, all.len() as int));
            let t = rows[i].copy();
            self.register(t);
            i = i + 1;
        }
        assert(all.subrange(i as int, all.len() as int) =~= Seq::<TableModel>::empty());
    }
}

/// The registry after registering `t`: added at the end unless its name is taken.
pub open spec fn register_model(reg: Seq<TableModel>, t: TableModel) -> Seq<TableModel> {
    if find_table(reg, t.name) is None { reg.push(t) } else { reg }
}

/// The registry after registering each of `rows`, in order.
pub open spec fn loaded(reg: Seq<TableModel>, rows: Seq<TableModel>) -> Seq<TableModel>
    decreases rows.len(),
{
    if rows.len() == 0 {
        reg
    } else {
        loaded(register_model(reg, rows[0]), rows.subrange(1, rows.len() as int))
    }
}

proof fn lemma_find_pushed(reg: Seq<TableModel>, t: TableModel)
    requires
        forall|j: int| 0 <= j < reg.len() ==> reg[j].name != t.name,
    ensures
        find_table(reg.push(t), t.name) == Some(t),
    decreases reg.len(),
{
    let u = reg.push(t);
    if reg.len() == 0 {
        assert(u[0] == t);
    } else {
        assert(u[0] == reg[0]);
        assert(u.subrange(1, u.len() as int) =~= reg.subrange(1, reg.len() as int).push(t));
        lemma_find_pushed(reg.subrange(1, reg.len() as int), t);
    }
}

proof fn lemma_find_absent(reg: Seq<TableModel>, name: Seq<char>)
    requires
        forall|j: int| 0 <= j < reg.len() ==> reg[j].name != name,
    ensures
        find_table(reg, name) is None,
    decreases reg.len(),
{
    if reg.len() > 0 {
        lemma_find_absent(reg.subrange(1, reg.len() as int), name);
    }
}

proof fn lemma_loaded_unique(a: Seq<TableModel>, b: Seq<TableModel>)
    requires
        names_unique(a + b),
    ensures
        loaded(a, b) == a + b,
    decreases b.len(),
{
    if b.len() > 0 {
        let ab = a + b;
        assert forall|j: int| 0 <= j < a.len() implies a[j].name != b[0].name by {
            assert(ab[j] == a[j]);
            assert(ab[a.len() as int] == b[0]);
        }
        lemma_find_absent(a, b[0].name);
        let rest = b.subrange(1, b.len() as int);
        assert(a.push(b[0]) + rest =~= a + b);
        lemma_loaded_unique(a.push(b[0]), rest);
    } else {
        assert(a + b =~= a);
    }
}

/// Reloading the persisted list of a registry into an empty registry gives back the
/// same definitions, under the same names, in the same order.
pub proof fn lemma_reload_round_trip(reg: Seq<TableModel>)
    requires
        names_unique(reg),
    ensures
        loaded(Seq::empty(), reg) == reg,
        forall|name: Seq<char>| find_table(loaded(Seq::empty(), reg), name) == find_table(reg, name),
{
    assert(Seq::<TableModel>::empty() + reg =~= reg);
    lemma_loaded_unique(Seq::empty(), reg);
}

} // verus!
