//! A database: its name and its connections.

use vstd::prelude::*;
use vstd::string::StringExecFns;
use crate::pool::connection::{opened, Conn, ConnView};

verus! {

/// A database as the contracts see it.
pub struct DataBaseView {
    /// The name of the data source.
    pub dsn: Seq<char>,
    /// The connections, in the order in which they were opened.
    pub conns: Seq<ConnView>,
}

/// A database.
pub struct DataBase {
    dsn: String,
    conns: Vec<Conn>,
}

/// The number of connections that one call opens: the size of the pool, and
/// none where that is not positive.
pub open spec fn opened_by(max_conn: int) -> nat {
    if max_conn > 0 {
        max_conn as nat
    } else {
        0
    }
}

impl View for DataBase {
    type V = DataBaseView;

    closed spec fn view(&self) -> DataBaseView {
        DataBaseView { dsn: self.dsn@, conns: self.conns@.map_values(|conn: Conn| conn@) }
    }
}

impl DataBase {
    /// A database under the given name, with no connection yet.
    pub fn new(dsn: &str) -> (db: DataBase)
        ensures
            db@.dsn == dsn@,
            db@.conns == Seq::<ConnView>::empty(),
    {
        let db: DataBase = DataBase { dsn: String::from_str(dsn), conns: Vec::new() };
        assert(db@.conns =~= Seq::<ConnView>::empty());
        db
    }

    /// Points the database to a data source and opens a pool of connections
    /// to it, after those it has already.
    pub fn connect(&mut self, dsn: &str, max_conn: i8)
        ensures
            final(self)@.dsn == dsn@,
            final(self)@.conns == old(self)@.conns + Seq::new(
                opened_by(max_conn as int),
                |i: int| opened(max_conn as int),
            ),
    {
        self.dsn = String::from_str(dsn);
        let ghost before = self@.conns;
        let mut made: i8 = 0;
        while made < max_conn
            invariant
                0 <= made,
                made <= max_conn || made == 0,
                self@.dsn == dsn@,
                self@.conns == before + Seq::new(made as nat, |i: int| opened(max_conn as int)),
            decreases max_conn - made,
        {
            let ghost held = self.conns@;
            let new_conn: Conn = Conn::init(max_conn);
            self.conns.push(new_conn);
            made += 1;
            proof {
                let viewed = held.map_values(|conn: Conn| conn@);
                let grown = before + Seq::new(made as nat, |i: int| opened(max_conn as int));
                assert(viewed.len() == held.len());
                assert forall|k: int| 0 <= k < grown.len() implies self@.conns[k] == grown[k] by {
                    if k < held.len() {
                        assert(self.conns@[k] == held[k]);
                        assert(viewed[k] == held[k]@);
                    }
                }
                assert(self@.conns =~= grown);
            }
        }
        assert(made as nat == opened_by(max_conn as int));
    }

    /// The name of the data source.
    pub fn dsn(&self) -> (dsn: &String)
        ensures
            dsn@ == self@.dsn,
    {
        &self.dsn
    }

    /// The connections, in the order in which they were opened.
    pub fn conns(&self) -> (conns: &Vec<Conn>)
        ensures
            conns@.map_values(|conn: Conn| conn@) == self@.conns,
    {
        &self.conns
    }
}

} // verus!
