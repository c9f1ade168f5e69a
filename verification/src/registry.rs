//! The group registry: an exclusive-access transactional store mapping a
//! group id to a stored record, backed by an in-memory SQLite database.
//!
//! The registry is modelled as a map from group id to [`RowV`]. Each SQL
//! operation sits behind one trusted wrapper whose contract states what the
//! statement does to that map; everything above the wrappers is verified.

use vstd::prelude::*;

use crate::model::{CartClaims, GroupRecord, ProfileClaims, RowV, StoreError};
use rusqlite::OptionalExtension;

verus! {

#[verifier::external_type_specification]
#[verifier::external_body]
pub struct ExConnection(rusqlite::Connection);

#[verifier::external_type_specification]
#[verifier::external_body]
pub struct ExSqlError(rusqlite::Error);

/// The rows of the registry table held by a connection, keyed by group id.
pub uninterp spec fn store_rows(c: rusqlite::Connection) -> Map<i64, RowV>;

/// The contents of a registry that holds no records.
pub open spec fn no_rows() -> Map<i64, RowV> {
    Map::empty()
}

/// Relies on `rusqlite::Connection::open_in_memory`: a fresh in-memory
/// database holds no registry table, so it holds no rows.
#[verifier::external_body]
fn open_mem() -> (r: Result<rusqlite::Connection, rusqlite::Error>)
    ensures
        r is Ok ==> store_rows(r->Ok_0) == no_rows(),
{
    rusqlite::Connection::open_in_memory()
}

/// Relies on `rusqlite::Connection::execute` running a `CREATE TABLE`
/// statement: on success the table exists and is empty; on failure the
/// statement changes nothing.
#[verifier::external_body]
fn create_table(c: &mut rusqlite::Connection) -> (r: Result<(), rusqlite::Error>)
    ensures
        r is Ok ==> store_rows(*final(c)) == no_rows(),
        r is Err ==> store_rows(*final(c)) == store_rows(*old(c)),
{
    c.execute(
        "CREATE TABLE sharedb (gid INTEGER PRIMARY KEY, pwd TEXT, sub TEXT NOT NULL, name TEXT, age INTEGER, job TEXT, balanceYen INTEGER, productName TEXT, productPriceYen INTEGER, productNumber INTEGER)",
        (),
    )?;
    Ok(())
}

/// Relies on `rusqlite::Connection::execute` running a single-row `INSERT`
/// (atomic in SQLite) and on `last_insert_rowid`: the fresh `INTEGER PRIMARY
/// KEY` rowid is at least 1 and strictly greater than every rowid in use, and
/// on failure the statement changes nothing.
#[verifier::external_body]
fn insert_row(
    c: &mut rusqlite::Connection,
    secret: &str,
    profile: &ProfileClaims,
    cart: &CartClaims,
) -> (r: Result<i64, rusqlite::Error>)
    ensures
        r matches Ok(id) ==> {
            &&& id >= 1
            &&& !store_rows(*old(c)).contains_key(id)
            &&& forall|k: i64| store_rows(*old(c)).contains_key(k) ==> id > k
            &&& store_rows(*final(c)) == store_rows(*old(c)).insert(
                id,
                (RowV { secret: secret@, profile: profile@, cart: cart@ }),
            )
        },
        r matches Err(_) ==> store_rows(*final(c)) == store_rows(*old(c)),
{
    c.execute(
        "INSERT INTO sharedb (pwd, sub, name, age, job, balanceYen, productName, productPriceYen, productNumber) VALUES (?1, ?2, ?3, ?4, ?5, ?6, ?7, ?8, ?9)",
        (secret, &profile.sub, &profile.name, profile.age, &profile.job, profile.balance_yen,
            &cart.product_name, cart.unit_price_yen, cart.quantity),
    )?;
    Ok(c.last_insert_rowid())
}

/// Relies on `rusqlite::Connection::execute` running a single-row `UPDATE ...
/// WHERE gid = ?` (atomic in SQLite) and returning the number of rows it
/// changed: with `gid` a primary key that is 1 when the row exists and 0 when
/// it does not, the stored secret column is not touched, and on failure the
/// statement changes nothing.
#[verifier::external_body]
fn update_row(
    c: &mut rusqlite::Connection,
    gid: i64,
    profile: &ProfileClaims,
    cart: &CartClaims,
) -> (r: Result<usize, rusqlite::Error>)
    ensures
        r matches Ok(n) ==> {
            &&& n <= 1
            &&& (n == 1 <==> store_rows(*old(c)).contains_key(gid))
            &&& (store_rows(*old(c)).contains_key(gid) ==> store_rows(*final(c))
                == store_rows(*old(c)).insert(
                    gid,
                    (RowV {
                        secret: store_rows(*old(c))[gid].secret,
                        profile: profile@,
                        cart: cart@,
                    }),
                ))
            &&& (!store_rows(*old(c)).contains_key(gid) ==> store_rows(*final(c))
                == store_rows(*old(c)))
        },
        r matches Err(_) ==> store_rows(*final(c)) == store_rows(*old(c)),
{
    c.execute(
        "UPDATE sharedb SET sub = ?1, name = ?2, age = ?3, job = ?4, balanceYen = ?5, productName = ?6, productPriceYen = ?7, productNumber = ?8 WHERE gid = ?9",
        (&profile.sub, &profile.name, profile.age, &profile.job, profile.balance_yen,
            &cart.product_name, cart.unit_price_yen, cart.quantity, gid),
    )
}

/// Relies on `rusqlite::Connection::query_row` running a `SELECT ... WHERE
/// gid = ?` and on `OptionalExtension::optional`: the row under the primary
/// key `gid` comes back with exactly the stored column values, and no row
/// comes back when none is stored. A storage-engine failure during the read
/// aborts the process.
#[verifier::external_body]
fn select_row(c: &rusqlite::Connection, gid: i64) -> (r: Option<GroupRecord>)
    ensures
        r matches Some(rec) ==> {
            &&& store_rows(*c).contains_key(gid)
            &&& rec.gid == gid
            &&& rec.row() == store_rows(*c)[gid]
        },
        r is None ==> !store_rows(*c).contains_key(gid),
{
    c.query_row(
        "SELECT pwd, sub, name, age, job, balanceYen, productName, productPriceYen, productNumber FROM sharedb WHERE gid = ?1",
        (gid,),
        |row| Ok(GroupRecord {
            gid,
            secret: row.get(0)?,
            profile: ProfileClaims { sub: row.get(1)?, name: row.get(2)?, age: row.get(3)?, job: row.get(4)?, balance_yen: row.get(5)? },
            cart: CartClaims { product_name: row.get(6)?, unit_price_yen: row.get(7)?, quantity: row.get(8)? },
        }),
    ).optional().expect("registry read failed")
}

/// The group registry. It exclusively owns the stored records; all access
/// goes through [`Registry::upsert`] and [`Registry::fetch`].
pub struct Registry {
    conn: rusqlite::Connection,
}

/// No stored group id is the sentinel `0`: persisted ids are strictly
/// positive.
pub open spec fn rows_wf(rows: Map<i64, RowV>) -> bool {
    forall|k: i64| rows.contains_key(k) ==> k >= 1
}

impl View for Registry {
    type V = Map<i64, RowV>;

    closed spec fn view(&self) -> Map<i64, RowV> {
        store_rows(self.conn)
    }
}

impl Registry {
    /// Opens a fresh, empty registry over an in-memory database.
    pub fn new() -> (r: Result<Registry, StoreError>)
        ensures
            r matches Ok(reg) ==> reg@ == no_rows(),
            r matches Err(e) ==> e == StoreError::TransactionFailed,
    {
        let mut conn = match open_mem() {
            Ok(c) => c,
            Err(_) => {
                return Err(StoreError::TransactionFailed);
            },
        };
        match create_table(&mut conn) {
            Ok(_) => Ok(Registry { conn }),
            Err(_) => Err(StoreError::TransactionFailed),
        }
    }

    /// Inserts a new record or replaces the fields of an existing one.
    ///
    /// With `gid == 0` (unassigned), a new record is stored under a freshly
    /// assigned id that is strictly greater than every id assigned before,
    /// and that id is returned. With `gid != 0`, the record under `gid` must
    /// already exist (`NotFound` otherwise); its profile and cart fields are
    /// replaced while its secret is kept, and `gid` itself is returned.
    /// Either way the operation is atomic: on any error the stored state is
    /// unchanged.
    pub fn upsert(
        &mut self,
        gid: i64,
        profile: ProfileClaims,
        cart: CartClaims,
        secret: String,
    ) -> (r: Result<i64, StoreError>)
        ensures
            gid == 0 ==> (r matches Ok(id) ==> {
                &&& id >= 1
                &&& !old(self)@.contains_key(id)
                &&& forall|k: i64| old(self)@.contains_key(k) ==> id > k
                &&& final(self)@ == old(self)@.insert(
                    id,
                    (RowV { secret: secret@, profile: profile@, cart: cart@ }),
                )
            }),
            gid != 0 ==> (r matches Ok(id) ==> {
                &&& id == gid
                &&& old(self)@.contains_key(gid)
                &&& final(self)@ == old(self)@.insert(
                    gid,
                    (RowV { secret: old(self)@[gid].secret, profile: profile@, cart: cart@ }),
                )
            }),
            r matches Err(e) ==> final(self)@ == old(self)@ && (e == StoreError::NotFound || e
                == StoreError::TransactionFailed),
            r is Err && r->Err_0 == StoreError::NotFound ==> gid != 0 && !old(
                self,
            )@.contains_key(gid),
            gid != 0 && !old(self)@.contains_key(gid) ==> r is Err,
            rows_wf(old(self)@) ==> rows_wf(final(self)@),
    {
        if gid == 0 {
            match insert_row(&mut self.conn, secret.as_str(), &profile, &cart) {
                Ok(id) => {
                    proof {
                        if rows_wf(old(self)@) {
                            assert forall|k: i64| self@.contains_key(k) implies k >= 1 by {
                                if k != id {
                                    assert(old(self)@.contains_key(k));
                                }
                            }
                        }
                    }
                    Ok(id)
                },
                Err(_) => Err(StoreError::TransactionFailed),
            }
        } else {
            match update_row(&mut self.conn, gid, &profile, &cart) {
                Ok(n) => {
                    if n == 1 {
                        proof {
                            if rows_wf(old(self)@) {
                                assert forall|k: i64| self@.contains_key(k) implies k >= 1 by {
                                    if k != gid {
                                        assert(old(self)@.contains_key(k));
                                    }
                                }
                            }
                        }
                        Ok(gid)
                    } else {
                        Err(StoreError::NotFound)
                    }
                },
                Err(_) => Err(StoreError::TransactionFailed),
            }
        }
    }

    /// Returns the record stored under `gid`, or `None` if there is none.
    pub fn fetch(&self, gid: i64) -> (r: Option<GroupRecord>)
        ensures
            r matches Some(rec) ==> {
                &&& self@.contains_key(gid)
                &&& rec.gid == gid
                &&& rec.row() == self@[gid]
            },
            r is None ==> !self@.contains_key(gid),
    {
        select_row(&self.conn, gid)
    }
}

/// Law: the sentinel id `0` (and any non-positive id) is never stored, in
/// any registry state that satisfies [`rows_wf`] — which an empty registry
/// does, and which [`Registry::upsert`] preserves.
pub proof fn lemma_sentinel_never_stored(rows: Map<i64, RowV>, gid: i64)
    requires
        rows_wf(rows),
        gid <= 0,
    ensures
        !rows.contains_key(gid),
{
}

/// Law: assigned ids never repeat and grow strictly. If one registration
/// assigned `id1` into the stored map, and a later registration over a map
/// still holding `id1` assigned `id2` above every key of that map, then
/// `id2 > id1`.
pub proof fn lemma_id_monotonicity(
    rows0: Map<i64, RowV>,
    id1: i64,
    row1: RowV,
    rows1: Map<i64, RowV>,
    id2: i64,
)
    requires
        rows1 == rows0.insert(id1, row1),
        forall|k: i64| rows1.contains_key(k) ==> id2 > k,
    ensures
        id2 > id1,
        id2 != id1,
{
    assert(rows1.contains_key(id1));
}

/// Law: updating an existing record never creates a second one. Replacing
/// the row under a key that is already stored leaves the set of stored ids
/// unchanged, and a fetch afterwards sees exactly the new row.
pub proof fn lemma_update_not_duplicate(rows: Map<i64, RowV>, gid: i64, row: RowV)
    requires
        rows.contains_key(gid),
    ensures
        rows.insert(gid, row).dom() == rows.dom(),
        rows.insert(gid, row)[gid] == row,
        forall|k: i64| k != gid && rows.contains_key(k) ==> rows.insert(gid, row)[k] == rows[k],
{
    assert(rows.insert(gid, row).dom() =~= rows.dom());
}

} // verus!
