//! A database and the pool of connections it keeps open.

use vstd::prelude::*;
use crate::pool::connection::{opened, ConnView};
use crate::pool::database::DataBase;

pub mod connection;
pub mod database;

verus! {

/// The number of connections that a database opens at its start.
pub const MAX_CONN: i8 = 8;

/// Sets up a database under a name and opens `MAX_CONN` connections to it.
pub fn init_database(dsn: String) -> (db: DataBase)
    ensures
        db@.dsn == dsn@,
        db@.conns == Seq::new(MAX_CONN as nat, |i: int| opened(MAX_CONN as int)),
{
    let mut db: DataBase = DataBase::new(dsn.as_str());
    db.connect(dsn.as_str(), MAX_CONN);
    assert(db@.conns =~= Seq::new(MAX_CONN as nat, |i: int| opened(MAX_CONN as int)));
    db
}

} // verus!
