//! A connection that may not have been created yet.
use vstd::prelude::*;

verus! {

/// What `option` holds, where it holds something.
pub(crate) fn present<A>(option: Option<A>) -> (a: A)
    requires
        option is Some,
    ensures
        option == Some(a),
    opens_invariants none
    no_unwind
{
    match option {
        Some(a) => a,
        None => {
            #[verifier::loop_isolation(false)]
            loop
                decreases 0int,
            {
            }
        },
    }
}

/// What one slot of a pool holds: a connection, or nothing as long as none was needed.
pub struct LazyConn<Conn> {
    conn: Option<Conn>,
}

impl<Conn> View for LazyConn<Conn> {
    type V = Option<Conn>;

    closed spec fn view(&self) -> Option<Conn> {
        self.conn
    }
}

impl<Conn> Default for LazyConn<Conn> {
    fn default() -> (lazy: Self)
        ensures
            lazy@ == None::<Conn>,
    {
        Self::new()
    }
}

impl<Conn> LazyConn<Conn> {
    /// Holds no connection.
    #[must_use]
    pub fn new() -> (lazy: Self)
        ensures
            lazy@ == None::<Conn>,
        opens_invariants none
    {
        Self { conn: None }
    }

    /// Holds `conn`.
    pub fn init(conn: Conn) -> (lazy: Self)
        ensures
            lazy@ == Some(conn),
        opens_invariants none
    {
        Self { conn: Some(conn) }
    }

    /// The connection, if there is one.
    pub fn get(&self) -> (conn: Option<&Conn>)
        ensures
            match conn {
                Some(c) => self@ == Some(*c),
                None => self@ is None,
            },
        opens_invariants none
    {
        match &self.conn {
            Some(conn) => Some(conn),
            None => None,
        }
    }

    /// The connection, if there is one, to be changed in place.
    pub fn get_mut(&mut self) -> (conn: Option<&mut Conn>)
        ensures
            match conn {
                Some(c) => old(self)@ == Some(*c) && final(self)@ == Some(*final(c)),
                None => old(self)@ is None && final(self)@ is None,
            },
        opens_invariants none
        no_unwind
    {
        match &mut self.conn {
            Some(conn) => Some(conn),
            None => None,
        }
    }

    /// Gives up the connection.
    pub fn expire(&mut self)
        ensures
            final(self)@ == None::<Conn>,
    {
        self.conn = None;
    }
}

} // verus!
