//! The ingest coordinator's decisions: which table a triple goes to, which rows are
//! pending per table, and when a table's rows are due to be written. The caller
//! performs the writes.

use vstd::prelude::*;
use crate::app_state::{AppState, find_table, register_model};
use crate::database_table::{DatabaseTable, table_of};
use crate::db_operation_cache::{DbOperationCache, ValueModel, models, row_models};
use crate::element::{Element, stored_values};
use crate::element_type::ElementType;
use crate::error::WDQSErr;
use crate::text::{lit, str_eq};

verus! {

/// What the cache of one table holds: its pending rows, and the row width recorded
/// with its statement head, if it has one.
pub struct CacheModel {
    pub rows: Seq<Seq<ValueModel>>,
    pub width: Option<nat>,
}

pub open spec fn cache_model(c: DbOperationCache) -> CacheModel {
    CacheModel {
        rows: row_models(c.values@),
        width: if c.command@.len() == 0 { None } else { Some(c.width as nat) },
    }
}

/// The cache of a table that has none yet.
pub open spec fn no_cache() -> CacheModel {
    CacheModel { rows: Seq::empty(), width: None }
}

/// The caches of the tables, by table name.
pub open spec fn cache_models(c: Seq<(String, DbOperationCache)>) -> Seq<(Seq<char>, CacheModel)> {
    c.map_values(|x: (String, DbOperationCache)| (x.0@, cache_model(x.1)))
}

/// The cache of the table `name`.
pub open spec fn pending_of(c: Seq<(Seq<char>, CacheModel)>, name: Seq<char>) -> CacheModel
    decreases c.len(),
{
    if c.len() == 0 {
        no_cache()
    } else if c[0].0 == name {
        c[0].1
    } else {
        pending_of(c.subrange(1, c.len() as int), name)
    }
}

/// The row that a triple stores: the values of its subject, then those of its object.
pub open spec fn triple_row(s: crate::element::ElementModel, o: crate::element::ElementModel) -> Seq<ValueModel> {
    stored_values(s) + stored_values(o)
}

/// What adding one triple decided.
pub struct Ingested {
    /// The definition of the triple's table.
    pub table: DatabaseTable,
    /// Whether the table is new: it has to be provisioned before its rows are written.
    pub new_table: bool,
    /// The table's rows, taken out to be written because the batch is full.
    pub flush: Option<DbOperationCache>,
}

pub struct DatabaseWrapper {
    insert_cache: Vec<(String, DbOperationCache)>,
}

impl DatabaseWrapper {
    /// The cache of every table.
    pub closed spec fn caches(&self) -> Seq<(Seq<char>, CacheModel)> {
        cache_models(self.insert_cache@)
    }

    /// The pending rows of the table `name`.
    pub open spec fn pending(&self, name: Seq<char>) -> Seq<Seq<ValueModel>> {
        pending_of(self.caches(), name).rows
    }

    /// The row width recorded for the table `name`, once it has a statement head.
    pub open spec fn recorded_width(&self, name: Seq<char>) -> Option<nat> {
        pending_of(self.caches(), name).width
    }

    pub fn new() -> (r: Self)
        ensures
            r.caches().len() == 0,
            forall|name: Seq<char>| pending_of(r.caches(), name) == no_cache(),
    {
        let r = DatabaseWrapper { insert_cache: Vec::new() };
        assert(r.caches() =~= Seq::<(Seq<char>, CacheModel)>::empty());
        r
    }

    fn position(&self, name: &str) -> (r: Option<usize>)
        ensures
            match r {
                Some(i) => i < self.caches().len() && self.caches()[i as int].0 == name@
                    && pending_of(self.caches(), name@) == self.caches()[i as int].1
                    && forall|j: int| 0 <= j < i ==> self.caches()[j].0 != name@,
                None => pending_of(self.caches(), name@) == no_cache()
                    && forall|j: int| 0 <= j < self.caches().len() ==> self.caches()[j].0 != name@,
            },
    {
        let ghost c = self.caches();
        let mut i: usize = 0;
        assert(c.subrange(0, c.len() as int) =~= c);
        while i < self.insert_cache.len()
            invariant
                i <= self.insert_cache@.len(),
                c == self.caches(),
                c.len() == self.insert_cache@.len(),
                pending_of(c, name@) == pending_of(c.subrange(i as int, c.len() as int), name@),
                forall|j: int| 0 <= j < i ==> c[j].0 != name@,
            decreases self.insert_cache@.len() - i,
        {
            let ghost rest = c.subrange(i as int, c.len() as int);
            assert(rest.subrange(1, rest.len() as int) =~= c.subrange(i + 1, c.len() as int));
            if str_eq(self.insert_cache[i].0.as_str(), name) {
                proof { lemma_pending_update(c, i as int, name@, c[i as int].1, name@); }
                return Some(i);
            }
            i = i + 1;
        }
        None
    }

    /// Adds the triple `(s, p, o)`: finds or registers its table, appends its row to the
    /// table's pending rows, and takes the rows out when `insert_batch_size` are pending.
    pub fn add(&mut self, app: &mut AppState, s: Element, p: &Element, o: Element) -> (r: Result<Ingested, WDQSErr>)
        requires
            old(app).wf(),
        ensures
            final(app).wf(),
            final(app).prefix_pairs() == old(app).prefix_pairs(),
            final(app).batch() == old(app).batch(),
            final(app).chunk() == old(app).chunk(),
            final(app).registry() == register_model(old(app).registry(), table_of(s@, p@, o@)),
            match r {
                Ok(x) => {
                    let name = table_of(s@, p@, o@).name;
                    let rows = old(self).pending(name).push(triple_row(s@, o@));
                    &&& x.table@ == find_table(final(app).registry(), name)->Some_0
                    &&& x.table@.name == name
                    &&& triple_row(s@, o@).len() > 0
                    &&& (old(self).recorded_width(name) matches Some(w) ==> w == triple_row(s@, o@).len())
                    &&& final(self).recorded_width(name) == Some(triple_row(s@, o@).len())
                    &&& x.new_table == (find_table(old(app).registry(), name) is None)
                    &&& match x.flush {
                        Some(c) => row_models(c.values@) == rows && rows.len() >= old(app).batch()
                            && final(self).pending(name) == Seq::<Seq<ValueModel>>::empty(),
                        None => final(self).pending(name) == rows && rows.len() < old(app).batch(),
                    }
                    &&& forall|other: Seq<char>| other != name ==> pending_of(final(self).caches(), other)
                        == pending_of(old(self).caches(), other)
                },
                Err(_) => {
                    let name = table_of(s@, p@, o@).name;
                    &&& (triple_row(s@, o@).len() == 0 || (old(self).recorded_width(name) matches Some(w)
                        && w != triple_row(s@, o@).len()))
                    &&& forall|other: Seq<char>| pending_of(final(self).caches(), other)
                        == pending_of(old(self).caches(), other)
                },
            },
    {
        proof {
            crate::laws::lemma_layout_and_values_agree(s@);
            crate::laws::lemma_layout_and_values_agree(o@);
            crate::database_table::lemma_slot_names_len("k"@, crate::element::layout(s@));
            crate::database_table::lemma_slot_names_len("v"@, crate::element::layout(o@));
        }
        let (table, new_table) = app.table(&s, p, &o);
        let mut values = s.values();
        let mut more = o.values();
        let ghost v0 = values@;
        let ghost v1 = more@;
        values.append(&mut more);
        assert(models(values@) =~= models(v0) + models(v1));
        let batch = app.batch_size();
        let ghost name = table@.name;
        assert(name == table_of(s@, p@, o@).name);
        let i = match self.position(table.table_name()) {
            Some(i) => {
                assert(self.caches() == old(self).caches());
                assert(forall|other: Seq<char>| pending_of(self.caches(), other) == pending_of(old(self).caches(), other));
                i
            },
            None => {
                let ghost before = self.caches();
                assert(before == old(self).caches());
                let fresh = DbOperationCache::new();
                assert(row_models(fresh.values@) =~= Seq::<Seq<ValueModel>>::empty());
                assert(cache_model(fresh) == no_cache());
                self.insert_cache.push((lit(table.table_name()), fresh));
                assert(self.caches() =~= before.push((name, no_cache())));
                proof { lemma_pending_push(before, name, no_cache(), name); }
                assert forall|other: Seq<char>| other != name implies pending_of(self.caches(), other) == pending_of(before, other) by {
                    lemma_pending_push(before, name, no_cache(), other);
                }
                assert(forall|other: Seq<char>| other != name ==> pending_of(self.caches(), other) == pending_of(old(self).caches(), other));
                assert(pending_of(self.caches(), name) == pending_of(old(self).caches(), name));
                self.insert_cache.len() - 1
            },
        };
        let ghost c0 = self.caches();
        assert(forall|other: Seq<char>| other != name ==> pending_of(c0, other) == pending_of(old(self).caches(), other));
        assert(pending_of(c0, name) == pending_of(old(self).caches(), name));
        assert(cache_model(self.insert_cache@[i as int].1) == c0[i as int].1);
        assert(forall|j: int| 0 <= j < i ==> c0[j].0 != name);
        let (key, mut cache) = self.insert_cache.remove(i);
        let full = match cache.add(&s, &o, &table, values, batch) {
            Ok(full) => full,
            Err(e) => {
                self.insert_cache.insert(i, (key, cache));
                assert(self.caches() =~= c0);
                return Err(e);
            },
        };
        let flush = if full {
            let mut taken = DbOperationCache { command: cache.command.clone(), values: Vec::new(), width: cache.width };
            std::mem::swap(&mut taken.values, &mut cache.values);
            Some(taken)
        } else {
            None
        };
        let ghost rows_now = cache_model(cache);
        self.insert_cache.insert(i, (key, cache));
        assert(self.caches() =~= c0.update(i as int, (name, rows_now)));
        assert forall|other: Seq<char>| pending_of(self.caches(), other) == if other == name { rows_now } else { pending_of(c0, other) } by {
            lemma_pending_update(c0, i as int, name, rows_now, other);
        }
        Ok(Ingested { table, new_table, flush })
    }

    /// Puts back rows that a failed write took out: they go before the rows of the
    /// table `name` that are pending now.
    pub fn restore(&mut self, name: &str, cache: DbOperationCache)
        ensures
            final(self).pending(name@) == row_models(cache.values@) + old(self).pending(name@),
            old(self).recorded_width(name@) is Some ==> final(self).recorded_width(name@) == old(self).recorded_width(name@),
            forall|other: Seq<char>| other != name@ ==> pending_of(final(self).caches(), other)
                == pending_of(old(self).caches(), other),
    {
        let ghost c0 = self.caches();
        match self.position(name) {
            Some(i) => {
                let (key, mut existing) = self.insert_cache.remove(i);
                let ghost before = cache_model(existing);
                assert(before == c0[i as int].1);
                let mut vals = cache.values;
                let ghost v0 = vals@;
                let ghost v1 = existing.values@;
                vals.append(&mut existing.values);
                existing.values = vals;
                assert(row_models(existing.values@) =~= row_models(v0) + row_models(v1));
                let ghost now = cache_model(existing);
                self.insert_cache.insert(i, (key, existing));
                assert(self.caches() =~= c0.update(i as int, (name@, now)));
                assert forall|other: Seq<char>| pending_of(self.caches(), other) == if other == name@ { now } else {
                    pending_of(c0, other)
                } by {
                    lemma_pending_update(c0, i as int, name@, now, other);
                }
            },
            None => {
                let ghost now = cache_model(cache);
                self.insert_cache.push((lit(name), cache));
                assert(self.caches() =~= c0.push((name@, now)));
                assert forall|other: Seq<char>| pending_of(self.caches(), other) == if other == name@ { now } else {
                    pending_of(c0, other)
                } by {
                    lemma_pending_push(c0, name@, now, other);
                }
                assert(now.rows + Seq::<Seq<ValueModel>>::empty() =~= now.rows);
            },
        }
    }

    /// Takes out the pending rows of every table, for the final flush.
    pub fn flush_insert_caches(&mut self) -> (r: Vec<(String, DbOperationCache)>)
        ensures
            cache_models(r@) == old(self).caches(),
            final(self).caches().len() == 0,
    {
        let mut r: Vec<(String, DbOperationCache)> = Vec::new();
        std::mem::swap(&mut r, &mut self.insert_cache);
        assert(self.caches() =~= Seq::<(Seq<char>, CacheModel)>::empty());
        r
    }

    /// The first error among the results of a batch of tasks; `None` stands for a task
    /// that did not finish. With `exit`, the first error is returned; without, the
    /// errors are only for the caller to report and the batch succeeds.
    pub fn first_err(results: &Vec<Option<Result<(), WDQSErr>>>, exit: bool) -> (r: Result<(), WDQSErr>)
        ensures
            match first_error(results@) {
                Some(i) => if exit {
                    r matches Err(e) && e.message_spec() == results@[i]->Some_0->Err_0.message_spec()
                } else {
                    r is Ok
                },
                None => r is Ok,
            },
    {
        let mut i: usize = 0;
        while i < results.len()
            invariant
                i <= results@.len(),
                forall|j: int| 0 <= j < i ==> !failed(results@[j]),
            decreases results@.len() - i,
        {
            match &results[i] {
                Some(Err(e)) => {
                    proof { lemma_first_error(results@, i as int); }
                    if exit {
                        return Err(WDQSErr::String(e.message()));
                    } else {
                        return Ok(());
                    }
                },
                _ => {},
            }
            i = i + 1;
        }
        proof { lemma_no_error(results@); }
        Ok(())
    }
}

/// Whether a task finished with an error.
pub open spec fn failed(r: Option<Result<(), WDQSErr>>) -> bool {
    r matches Some(Err(_))
}

/// The index of the first finished task that failed.
pub open spec fn first_error(rs: Seq<Option<Result<(), WDQSErr>>>) -> Option<int> {
    if exists|i: int| 0 <= i < rs.len() && failed(rs[i]) && forall|j: int| 0 <= j < i ==> !failed(rs[j]) {
        Some(choose|i: int| 0 <= i < rs.len() && failed(rs[i]) && forall|j: int| 0 <= j < i ==> !failed(rs[j]))
    } else {
        None
    }
}

proof fn lemma_first_error(rs: Seq<Option<Result<(), WDQSErr>>>, i: int)
    requires
        0 <= i < rs.len(),
        failed(rs[i]),
        forall|j: int| 0 <= j < i ==> !failed(rs[j]),
    ensures
        first_error(rs) == Some(i),
{
    let k = choose|k: int| 0 <= k < rs.len() && failed(rs[k]) && forall|j: int| 0 <= j < k ==> !failed(rs[j]);
    if k < i {
        assert(!(failed(rs[k])));
    } else if i < k {
        assert(!(failed(rs[i])));
    }
}

proof fn lemma_no_error(rs: Seq<Option<Result<(), WDQSErr>>>)
    requires
        forall|j: int| 0 <= j < rs.len() ==> !failed(rs[j]),
    ensures
        first_error(rs) is None,
{
}

proof fn lemma_pending_push(c: Seq<(Seq<char>, CacheModel)>, name: Seq<char>, rows: CacheModel, other: Seq<char>)
    requires
        forall|j: int| 0 <= j < c.len() ==> c[j].0 != name,
    ensures
        other == name ==> pending_of(c.push((name, rows)), other) == rows,
        other != name ==> pending_of(c.push((name, rows)), other) == pending_of(c, other),
    decreases c.len(),
{
    let u = c.push((name, rows));
    assert(u[c.len() as int] == (name, rows));
    if c.len() == 0 {
        assert(u.subrange(1, u.len() as int) =~= Seq::<(Seq<char>, CacheModel)>::empty());
        assert(pending_of(c, other) == no_cache());
        assert(pending_of(u.subrange(1, u.len() as int), other) == no_cache());
    } else {
        assert(u[0] == c[0]);
        assert(c[0].0 != name);
        assert(u.subrange(1, u.len() as int) =~= c.subrange(1, c.len() as int).push((name, rows)));
        lemma_pending_push(c.subrange(1, c.len() as int), name, rows, other);
    }
}

proof fn lemma_pending_update(c: Seq<(Seq<char>, CacheModel)>, i: int, name: Seq<char>, rows: CacheModel, other: Seq<char>)
    requires
        0 <= i < c.len(),
        c[i].0 == name,
        forall|j: int| 0 <= j < i ==> c[j].0 != name,
    ensures
        pending_of(c.update(i, (name, rows)), other) == if other == name { rows } else { pending_of(c, other) },
        pending_of(c, name) == c[i].1,
    decreases i,
{
    let u = c.update(i, (name, rows));
    if i > 0 {
        assert(u.subrange(1, u.len() as int) =~= c.subrange(1, c.len() as int).update(i - 1, (name, rows)));
        lemma_pending_update(c.subrange(1, c.len() as int), i - 1, name, rows, other);
    } else {
        assert(u.subrange(1, u.len() as int) =~= c.subrange(1, c.len() as int));
    }
}

} // verus!
