use vstd::prelude::*;

verus! {

/// Relies on rand::random: draws a value of the requested type from the
/// thread-local generator. Nothing is known of the value drawn.
pub assume_specification<T>[ rand::random::<T> ]() -> (r: T)
    where
        rand::distributions::Standard: rand::distributions::Distribution<T>,
;

/// The step that must come before a query is sent.
#[derive(Clone, Copy, Debug, PartialEq, Eq, Structural)]
pub enum ConnectStep {
    /// No connection exists yet: open the first one.
    Initialize,
    /// The driver of the connection has finished: open a new one in its place.
    Restart,
    /// The connection is alive: use it.
    Reuse,
}

/// The step owed to a state that has a connection or not, whose driver
/// has finished or not.
pub open spec fn next_step(connected: bool, driver_finished: bool) -> ConnectStep {
    if !connected {
        ConnectStep::Initialize
    } else if driver_finished {
        ConnectStep::Restart
    } else {
        ConnectStep::Reuse
    }
}

/// The live state of a client: at most one open session `C` together with
/// the task `B` that drives its I/O. Session and driver come and go as a
/// pair, so there is never one without the other.
pub struct Connection<C, B> {
    pub conn: Option<(C, B)>,
}

impl<C, B> Connection<C, B> {
    /// A state with no connection.
    pub fn new() -> (r: Self)
        ensures
            r.conn is None,
    {
        Connection { conn: None }
    }

    /// Whether a connection is held.
    pub fn is_connected(&self) -> (r: bool)
        ensures
            r == self.conn is Some,
    {
        self.conn.is_some()
    }

    /// The step to take before a query, given whether the driver of the
    /// held connection (if any) has finished.
    pub fn connect_step(&self, driver_finished: bool) -> (r: ConnectStep)
        ensures
            r == next_step(self.conn is Some, driver_finished),
    {
        if self.conn.is_none() {
            ConnectStep::Initialize
        } else if driver_finished {
            ConnectStep::Restart
        } else {
            ConnectStep::Reuse
        }
    }

    /// Puts a freshly opened session and its driver in place of whatever
    /// was held; the old pair is handed back.
    pub fn install(&mut self, session: C, driver: B) -> (r: Option<(C, B)>)
        ensures
            final(self).conn == Some((session, driver)),
            r == old(self).conn,
    {
        let prev = self.conn.take();
        self.conn = Some((session, driver));
        prev
    }

    /// The open session, if any.
    pub fn session(&self) -> (r: Option<&C>)
        ensures
            match self.conn {
                Some(p) => r == Some(&p.0),
                None => r is None,
            },
    {
        match &self.conn {
            Some(p) => Some(&p.0),
            None => None,
        }
    }

    /// The driver of the open session, if any.
    pub fn driver(&self) -> (r: Option<&B>)
        ensures
            match self.conn {
                Some(p) => r == Some(&p.1),
                None => r is None,
            },
    {
        match &self.conn {
            Some(p) => Some(&p.1),
            None => None,
        }
    }
}

/// The identifier sent for a message whose own identifier is `msg_id`,
/// with `drawn` a freshly drawn value: a nonzero identifier is kept, and
/// zero is replaced by the drawn value, or by 1 where that is zero too.
pub open spec fn assigned_id(msg_id: u16, drawn: u16) -> u16 {
    if msg_id != 0 {
        msg_id
    } else if drawn != 0 {
        drawn
    } else {
        1
    }
}

/// The identifier to send for a message whose identifier is `msg_id`,
/// given a drawn value `drawn`.
pub fn choose_id(msg_id: u16, drawn: u16) -> (r: u16)
    ensures
        r == assigned_id(msg_id, drawn),
{
    if msg_id != 0 {
        msg_id
    } else if drawn != 0 {
        drawn
    } else {
        1
    }
}

/// The identifier to send for a message whose identifier is `msg_id`: the
/// same where it is nonzero, else a random nonzero one.
pub fn request_id(msg_id: u16) -> (r: u16)
    ensures
        r != 0,
        msg_id != 0 ==> r == msg_id,
        exists|d: u16| r == assigned_id(msg_id, d),
{
    let drawn: u16 = rand::random::<u16>();
    choose_id(msg_id, drawn)
}

/// An identifier is never sent as zero, and a nonzero one is sent as it is.
pub proof fn lemma_assigned_id_nonzero(msg_id: u16, drawn: u16)
    ensures
        assigned_id(msg_id, drawn) != 0,
        msg_id != 0 ==> assigned_id(msg_id, drawn) == msg_id,
        msg_id == 0 && drawn != 0 ==> assigned_id(msg_id, drawn) == drawn,
{
}

/// Once the driver of a held connection has finished, the next query
/// opens a new connection instead of failing, and after it is installed
/// the new session and driver are the ones held.
pub proof fn lemma_finished_driver_restarts<C, B>(
    before: Connection<C, B>,
    after: Connection<C, B>,
    session: C,
    driver: B,
)
    requires
        before.conn is Some,
        after.conn == Some((session, driver)),
    ensures
        next_step(before.conn is Some, true) == ConnectStep::Restart,
        next_step(after.conn is Some, false) == ConnectStep::Reuse,
        after.conn->Some_0.0 == session,
{
}

} // verus!
