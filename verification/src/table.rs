//! A minimal in-memory table: rows keyed by their primary key, keys unique,
//! no ordering semantics.  It backs the storage layer when no database is
//! configured.

use vstd::prelude::*;

verus! {

/// A row that knows its primary key.
pub trait TableRow: Sized {
    /// The row's primary key.
    spec fn spec_key(&self) -> u128;

    /// Read the primary key.
    fn primary_key(&self) -> (k: u128)
        ensures
            k == self.spec_key(),
    ;
}

/// The map a sequence of rows denotes; later rows win, as with repeated map
/// insertion.
pub open spec fn table_map_of<Row: TableRow>(rows: Seq<Row>) -> Map<u128, Row>
    decreases rows.len(),
{
    if rows.len() == 0 {
        Map::empty()
    } else {
        table_map_of(rows.drop_last()).insert(rows.last().spec_key(), rows.last())
    }
}

/// Repeated insertion of rows, first to last.
pub open spec fn insert_all<Row: TableRow>(m: Map<u128, Row>, rows: Seq<Row>) -> Map<u128, Row>
    decreases rows.len(),
{
    if rows.len() == 0 {
        m
    } else {
        insert_all(m.insert(rows.first().spec_key(), rows.first()), rows.drop_first())
    }
}

proof fn lemma_insert_all_push<Row: TableRow>(m: Map<u128, Row>, rows: Seq<Row>, row: Row)
    ensures
        insert_all(m, rows.push(row)) == insert_all(m, rows).insert(row.spec_key(), row),
    decreases rows.len(),
{
    if rows.len() == 0 {
        assert(rows.push(row).drop_first() =~= Seq::<Row>::empty());
        assert(rows.push(row).first() == row);
        assert(insert_all(m.insert(row.spec_key(), row), Seq::<Row>::empty()) == m.insert(
            row.spec_key(),
            row,
        ));
        assert(insert_all(m, rows) == m);
    } else {
        assert(rows.push(row).drop_first() =~= rows.drop_first().push(row));
        assert(rows.push(row).first() == rows.first());
        lemma_insert_all_push(m.insert(rows.first().spec_key(), rows.first()), rows.drop_first(), row);
    }
}

/// No two rows share a key.
pub open spec fn keys_unique<Row: TableRow>(rows: Seq<Row>) -> bool {
    forall|i: int, j: int| 0 <= i < j < rows.len() ==> rows[i].spec_key() != rows[j].spec_key()
}

proof fn lemma_table_map_contains<Row: TableRow>(rows: Seq<Row>, key: u128)
    ensures
        table_map_of(rows).contains_key(key) <==> exists|i: int|
            0 <= i < rows.len() && rows[i].spec_key() == key,
    decreases rows.len(),
{
    if rows.len() > 0 {
        lemma_table_map_contains(rows.drop_last(), key);
        if rows.last().spec_key() == key {
            assert(rows[rows.len() - 1].spec_key() == key);
        } else if table_map_of(rows).contains_key(key) {
            let i = choose|i: int|
                0 <= i < rows.drop_last().len() && rows.drop_last()[i].spec_key() == key;
            assert(rows[i].spec_key() == key);
        } else if exists|i: int| 0 <= i < rows.len() && rows[i].spec_key() == key {
            let i = choose|i: int| 0 <= i < rows.len() && rows[i].spec_key() == key;
            assert(rows.drop_last()[i].spec_key() == key);
        }
    }
}

proof fn lemma_table_map_index<Row: TableRow>(rows: Seq<Row>, i: int)
    requires
        keys_unique(rows),
        0 <= i < rows.len(),
    ensures
        table_map_of(rows).contains_key(rows[i].spec_key()),
        table_map_of(rows)[rows[i].spec_key()] == rows[i],
    decreases rows.len(),
{
    lemma_table_map_contains(rows, rows[i].spec_key());
    if i < rows.len() - 1 {
        assert(rows[i].spec_key() != rows.last().spec_key());
        lemma_table_map_index(rows.drop_last(), i);
        assert(rows.drop_last()[i] == rows[i]);
    }
}

proof fn lemma_table_map_update<Row: TableRow>(rows: Seq<Row>, i: int, row: Row)
    requires
        keys_unique(rows),
        0 <= i < rows.len(),
        row.spec_key() == rows[i].spec_key(),
    ensures
        table_map_of(rows.update(i, row)) == table_map_of(rows).insert(row.spec_key(), row),
        keys_unique(rows.update(i, row)),
    decreases rows.len(),
{
    let s2 = rows.update(i, row);
    assert forall|p: int, q: int| 0 <= p < q < s2.len() implies s2[p].spec_key()
        != s2[q].spec_key() by {
        assert(p == i || s2[p] == rows[p]);
        assert(q == i || s2[q] == rows[q]);
    }
    if i == rows.len() - 1 {
        assert(s2.drop_last() =~= rows.drop_last());
        assert(s2.last() == row);
        assert(table_map_of(s2) =~= table_map_of(rows).insert(row.spec_key(), row));
    } else {
        assert(s2.drop_last() =~= rows.drop_last().update(i, row));
        assert(s2.last() == rows.last());
        assert(rows.drop_last()[i] == rows[i]);
        lemma_table_map_update(rows.drop_last(), i, row);
        assert(rows[i].spec_key() != rows.last().spec_key());
        assert(table_map_of(s2) =~= table_map_of(rows).insert(row.spec_key(), row));
    }
}

/// In-memory rows behind a private field, so that key uniqueness cannot be
/// broken from outside.
pub struct InMemoryTable<Row> {
    rows: Vec<Row>,
}

impl<Row: TableRow> InMemoryTable<Row> {
    /// Keys are unique across the held rows.
    pub closed spec fn wf(self) -> bool {
        keys_unique(self.rows@)
    }

    /// The rows, in the table's iteration order.
    pub closed spec fn rows_seq(self) -> Seq<Row> {
        self.rows@
    }

    /// The mapping from primary key to row this table holds.
    pub open spec fn as_map(self) -> Map<u128, Row> {
        table_map_of(self.rows_seq())
    }

    /// An empty table.
    pub fn new() -> (t: Self)
        ensures
            t.wf(),
            t.as_map() == Map::<u128, Row>::empty(),
            t.rows_seq().len() == 0,
    {
        InMemoryTable { rows: Vec::new() }
    }

    /// Insert one row; it replaces any earlier row with the same key, as
    /// map insertion would.
    pub fn insert_one(&mut self, row: Row) -> (key: u128)
        requires
            old(self).wf(),
        ensures
            final(self).wf(),
            key == row.spec_key(),
            final(self).as_map() == old(self).as_map().insert(row.spec_key(), row),
    {
        let key = row.primary_key();
        let ghost s0 = self.rows@;
        let mut i: usize = 0;
        while i < self.rows.len()
            invariant
                i <= self.rows@.len(),
                self.rows@ == s0,
                s0 == old(self).rows@,
                forall|j: int| 0 <= j < i ==> s0[j].spec_key() != row.spec_key(),
                key == row.spec_key(),
                keys_unique(s0),
            decreases self.rows@.len() - i,
        {
            if self.rows[i].primary_key() == key {
                proof {
                    lemma_table_map_update(s0, i as int, row);
                }
                self.rows.set(i, row);
                return key;
            }
            i += 1;
        }
        self.rows.push(row);
        proof {
            let s1 = self.rows@;
            assert(s1.drop_last() =~= s0);
            assert(s1.last() == row);
            lemma_table_map_contains(s0, row.spec_key());
            assert forall|p: int, q: int| 0 <= p < q < s1.len() implies s1[p].spec_key()
                != s1[q].spec_key() by {
                if q < s1.len() - 1 {
                    assert(s1[p] == s0[p] && s1[q] == s0[q]);
                } else {
                    assert(s1[p] == s0[p]);
                }
            }
        }
        key
    }

    /// Insert rows in order; each replaces any earlier row with its key.
    /// The primary keys come back in insertion order.
    pub fn insert(&mut self, rows: Vec<Row>) -> (keys: Vec<u128>)
        requires
            old(self).wf(),
        ensures
            final(self).wf(),
            keys@.len() == rows@.len(),
            forall|k: int| 0 <= k < rows@.len() ==> keys@[k] == rows@[k].spec_key(),
            final(self).as_map() == insert_all(old(self).as_map(), rows@),
    {
        let ghost all = rows@;
        let ghost m0 = self.as_map();
        let mut keys: Vec<u128> = Vec::new();
        let mut rest = rows;
        let ghost mut taken: int = 0;
        proof {
            assert(all.take(0) =~= Seq::<Row>::empty());
        }
        while rest.len() > 0
            invariant
                self.wf(),
                0 <= taken,
                taken + rest@.len() == all.len(),
                rest@ =~= all.skip(taken),
                keys@.len() == taken,
                forall|k: int| 0 <= k < taken ==> keys@[k] == all[k].spec_key(),
                self.as_map() == insert_all(m0, all.take(taken)),
                m0 == old(self).as_map(),
            decreases rest@.len(),
        {
            let row = rest.remove(0);
            proof {
                assert(all.skip(taken)[0] == all[taken]);
                assert(row == all[taken]);
                assert(all.take(taken).push(row) =~= all.take(taken + 1));
                lemma_insert_all_push(m0, all.take(taken), row);
            }
            let key = self.insert_one(row);
            keys.push(key);
            proof {
                taken = taken + 1;
                assert(rest@ =~= all.skip(taken));
            }
        }
        proof {
            assert(all.take(taken) =~= all);
        }
        keys
    }

    /// The row under a key, if the table holds one.
    pub fn get(&self, key: u128) -> (r: Option<&Row>)
        requires
            self.wf(),
        ensures
            match r {
                Some(row) => self.as_map().contains_key(key) && *row == self.as_map()[key],
                None => !self.as_map().contains_key(key),
            },
    {
        proof {
            lemma_table_map_contains(self.rows@, key);
        }
        let mut i: usize = 0;
        while i < self.rows.len()
            invariant
                self.wf(),
                i <= self.rows@.len(),
                forall|j: int| 0 <= j < i ==> self.rows@[j].spec_key() != key,
            decreases self.rows@.len() - i,
        {
            if self.rows[i].primary_key() == key {
                proof {
                    lemma_table_map_index(self.rows@, i as int);
                }
                return Some(&self.rows[i]);
            }
            i += 1;
        }
        proof {
            lemma_table_map_contains(self.rows@, key);
        }
        None
    }

    /// The first rows of the table's iteration order, up to `limit`.
    pub fn list(&self, limit: usize) -> (r: Vec<&Row>)
        ensures
            r@.len() == if limit <= self.rows_seq().len() {
                limit as int
            } else {
                self.rows_seq().len() as int
            },
            forall|k: int| 0 <= k < r@.len() ==> *r@[k] == self.rows_seq()[k],
    {
        let mut out: Vec<&Row> = Vec::new();
        let mut i: usize = 0;
        while i < self.rows.len() && i < limit
            invariant
                i <= self.rows@.len(),
                i <= limit,
                i < limit || out@.len() == limit,
                out@.len() == i,
                forall|k: int| 0 <= k < i ==> *out@[k] == self.rows@[k],
            decreases self.rows@.len() - i,
        {
            out.push(&self.rows[i]);
            i += 1;
        }
        out
    }
}

} // verus!
