//! One connection to a database.

use vstd::prelude::*;
use vstd::string::StringExecFns;

verus! {

/// What a connection is doing.
#[derive(Clone, Copy, Debug, PartialEq, Eq, Structural)]
pub enum Status {
    Connected,
    Disconnected,
    Busy,
}

/// A connection as the contracts see it.
pub struct ConnView {
    /// The size of the pool that the connection was opened for.
    pub max_conn: int,
    /// The name of the driver.
    pub driver: Seq<char>,
    /// What the connection is doing.
    pub active: Status,
}

/// A connection.
pub struct Conn {
    max_conn: i8,
    driver: String,
    active: Status,
}

/// A connection as it is right after it was opened for a pool of the given
/// size.
pub open spec fn opened(max_conn: int) -> ConnView {
    ConnView { max_conn, driver: "Rust"@, active: Status::Connected }
}

/// What a connection reports once it has run a command.
pub open spec fn report_of(cmd: Seq<char>) -> Seq<char> {
    cmd + ": success execution!"@
}

impl View for Conn {
    type V = ConnView;

    closed spec fn view(&self) -> ConnView {
        ConnView { max_conn: self.max_conn as int, driver: self.driver@, active: self.active }
    }
}

impl Conn {
    /// Opens a connection for a pool of the given size.
    pub fn init(max_conn: i8) -> (conn: Conn)
        ensures
            conn@ == opened(max_conn as int),
    {
        Conn { max_conn, driver: String::from_str("Rust"), active: Status::Connected }
    }

    /// Closes the connection: it is disconnected and belongs to no pool.
    pub fn shutdown(&mut self)
        ensures
            final(self)@ == (ConnView { max_conn: 0, active: Status::Disconnected, ..old(self)@ }),
    {
        self.max_conn = 0;
        self.active = Status::Disconnected;
    }

    /// Runs a command and returns the report on it. The connection is busy
    /// while the command runs and connected once it is done.
    pub fn exec(&mut self, cmd: &str) -> (report: String)
        ensures
            final(self)@ == (ConnView { active: Status::Connected, ..old(self)@ }),
            report@ == report_of(cmd@),
    {
        self.active = Status::Busy;
        let mut report: String = String::from_str(cmd);
        report.append(": success execution!");
        self.active = Status::Connected;
        report
    }

    /// The size of the pool that the connection was opened for.
    pub fn get_max_conn(&self) -> (max_conn: i8)
        ensures
            max_conn == self@.max_conn,
    {
        self.max_conn
    }

    /// The name of the driver.
    pub fn driver(&self) -> (driver: &String)
        ensures
            driver@ == self@.driver,
    {
        &self.driver
    }

    /// What the connection is doing.
    pub fn status(&self) -> (active: Status)
        ensures
            active == self@.active,
    {
        self.active
    }
}

} // verus!
