//! The block-metadata sink: lifecycle of the prepared upsert statement,
//! origination of the `updated_on` stamp, and classification of failures.
//!
//! The sink itself performs no I/O. The caller prepares the statement text
//! of [`upsert_statement_text`] on its connection and reports the outcome to
//! [`BlockMetadataSink::on_prepare_outcome`]; per event it asks
//! [`BlockMetadataSink::stamp`] for the `updated_on` value, executes the
//! prepared statement with the six parameters bound positionally, and
//! reports the outcome to [`BlockMetadataSink::on_write_outcome`]. Every
//! failure — a schema mismatch at preparation, a failed write, a missing
//! statement, even a system clock that yields no usable reading — is
//! returned as a typed [`SinkError`] carrying a diagnostic message; nothing
//! is swallowed and nothing panics or aborts.

use vstd::prelude::*;
use vstd::string::StringExecFns;

verus! {

/// The closed set of failures this sink reports.
#[derive(Clone, Debug)]
pub enum SinkError {
    /// Statement preparation failed: the target schema does not match what
    /// this sink expects. Fatal to initialization, never retried.
    SchemaError { msg: String },
    /// An upsert execution failed. Returned to the caller, which owns any
    /// retry policy; the sink itself stays ready for the next call.
    UpdateError { msg: String },
}

/// The parameterized upsert statement, with its six positional parameters
/// in the fixed order (slot, blockhash, rewards, block_time, block_height,
/// updated_on). Insert-or-replace on the slot key is enforced by the target
/// table's constraint setup, not checked client-side.
pub open spec fn upsert_statement_spec() -> Seq<char> {
    "INSERT INTO block (slot, blockhash, rewards, block_time, block_height, updated_on) VALUES ($1, $2, $3, $4, $5, $6)"@
}

/// The statement text the caller must prepare on its connection.
pub fn upsert_statement_text() -> (s: &'static str)
    ensures
        s@ == upsert_statement_spec(),
{
    "INSERT INTO block (slot, blockhash, rewards, block_time, block_height, updated_on) VALUES ($1, $2, $3, $4, $5, $6)"
}

/// The diagnostic a failed preparation carries: the driver's error text in
/// parentheses, then the connection's host, user and configuration.
pub open spec fn schema_error_message_spec(
    err: Seq<char>,
    host: Seq<char>,
    user: Seq<char>,
    config: Seq<char>,
) -> Seq<char> {
    "Error in preparing for the block metadata update PostgreSQL database: ("@ + err + ") host: "@
        + host + " user: "@ + user + " config: "@ + config
}

/// The diagnostic a failed execution carries: a fixed prefix, then the
/// driver's error text.
pub open spec fn update_error_message_spec(err: Seq<char>) -> Seq<char> {
    "Failed to persist the update of block metadata to the PostgreSQL database. Error: "@ + err
}

/// The diagnostic for an execution requested before preparation succeeded.
pub open spec fn not_ready_message_spec() -> Seq<char> {
    update_error_message_spec("no prepared statement"@)
}

/// The diagnostic for a write refused because the system clock yielded no
/// usable reading for the `updated_on` stamp.
pub open spec fn clock_unavailable_message_spec() -> Seq<char> {
    update_error_message_spec("the system clock gave no reading within the timestamp range"@)
}

fn schema_error_message(err: &str, host: &str, user: &str, config: &str) -> (m: String)
    ensures
        m@ == schema_error_message_spec(err@, host@, user@, config@),
{
    let mut m = String::from_str(
        "Error in preparing for the block metadata update PostgreSQL database: (",
    );
    m.append(err);
    m.append(") host: ");
    m.append(host);
    m.append(" user: ");
    m.append(user);
    m.append(" config: ");
    m.append(config);
    m
}

fn update_error_message(err: &str) -> (m: String)
    ensures
        m@ == update_error_message_spec(err@),
{
    let mut m = String::from_str(
        "Failed to persist the update of block metadata to the PostgreSQL database. Error: ",
    );
    m.append(err);
    m
}

/// The driver's error text stands whole inside the preparation diagnostic,
/// right after the fixed prefix: the message never drops or reorders it.
pub proof fn lemma_schema_message_carries_driver_text(
    err: Seq<char>,
    host: Seq<char>,
    user: Seq<char>,
    config: Seq<char>,
)
    ensures
        ({
            let m = schema_error_message_spec(err, host, user, config);
            let p = "Error in preparing for the block metadata update PostgreSQL database: ("@;
            &&& m.len() >= p.len() + err.len()
            &&& m.subrange(p.len() as int, p.len() as int + err.len() as int) == err
        }),
{
    let m = schema_error_message_spec(err, host, user, config);
    let p = "Error in preparing for the block metadata update PostgreSQL database: ("@;
    assert(m.subrange(p.len() as int, p.len() as int + err.len() as int) =~= err);
}

/// The driver's error text stands whole inside the execution diagnostic,
/// right after the fixed prefix.
pub proof fn lemma_update_message_carries_driver_text(err: Seq<char>)
    ensures
        ({
            let m = update_error_message_spec(err);
            let p =
                "Failed to persist the update of block metadata to the PostgreSQL database. Error: "@;
            &&& m.len() == p.len() + err.len()
            &&& m.subrange(p.len() as int, m.len() as int) == err
        }),
{
    let m = update_error_message_spec(err);
    let p = "Failed to persist the update of block metadata to the PostgreSQL database. Error: "@;
    assert(m.subrange(p.len() as int, m.len() as int) =~= err);
}

/// Relies on std::time::SystemTime::now and SystemTime::duration_since for
/// the current UTC wall-clock time, read as whole microseconds since the
/// Unix epoch. `None` when the clock reads before the epoch or past the
/// microsecond range of `i64`, so the call never aborts. Nothing is assumed
/// of the value: the wall clock may move either way between calls.
#[verifier::external_body]
fn current_micros() -> (t: Option<i64>) {
    match std::time::SystemTime::now().duration_since(std::time::UNIX_EPOCH) {
        Ok(d) => i64::try_from(d.as_micros()).ok(),
        Err(_) => None,
    }
}

/// The sink. Two lifecycle states: not ready (no prepared statement yet)
/// and ready (statement held by the caller, upserts may be staged).
pub struct BlockMetadataSink {
    ready: bool,
    last_updated_on: i64,
}

impl BlockMetadataSink {
    /// The statement has been prepared and upserts may be staged.
    pub closed spec fn is_ready(self) -> bool {
        self.ready
    }

    /// The last `updated_on` value this sink originated, in microseconds
    /// since the Unix epoch; `i64::MIN` before the first write.
    pub closed spec fn last_stamp(self) -> i64 {
        self.last_updated_on
    }

    /// A fresh sink, not yet ready: no statement prepared, no write stamped.
    pub fn new() -> (s: Self)
        ensures
            !s.is_ready(),
            s.last_stamp() == i64::MIN,
    {
        BlockMetadataSink { ready: false, last_updated_on: i64::MIN }
    }

    /// Whether the statement has been prepared.
    pub fn ready(&self) -> (b: bool)
        ensures
            b == self.is_ready(),
    {
        self.ready
    }

    /// Record the outcome of the one-time statement preparation.
    ///
    /// On success the sink becomes ready. On failure it is left exactly as
    /// it was and the outcome is a schema error whose message carries the
    /// driver's error text and the connection's host, user and
    /// configuration, for operator debugging.
    pub fn on_prepare_outcome(
        &mut self,
        outcome: Result<(), String>,
        host: &str,
        user: &str,
        config: &str,
    ) -> (r: Result<(), SinkError>)
        ensures
            match outcome {
                Ok(_) => {
                    &&& r matches Ok(_)
                    &&& final(self).is_ready()
                    &&& final(self).last_stamp() == old(self).last_stamp()
                },
                Err(e) => {
                    &&& r matches Err(SinkError::SchemaError { msg }) && msg@
                        == schema_error_message_spec(e@, host@, user@, config@)
                    &&& *final(self) == *old(self)
                },
            },
    {
        match outcome {
            Ok(_) => {
                self.ready = true;
                Ok(())
            },
            Err(e) => Err(
                SinkError::SchemaError {
                    msg: schema_error_message(e.as_str(), host, user, config),
                },
            ),
        }
    }

    /// Fold one clock reading into the sink: the next stamp is the reading,
    /// clamped so it never runs backwards; a missing reading refuses the
    /// write and leaves the sink unchanged.
    fn stamp_from_reading(&mut self, reading: Option<i64>) -> (r: Result<i64, SinkError>)
        requires
            old(self).is_ready(),
        ensures
            match reading {
                Some(now) => {
                    &&& r matches Ok(t) && t == final(self).last_stamp()
                    &&& final(self).last_stamp() == (if now >= old(self).last_stamp() {
                        now
                    } else {
                        old(self).last_stamp()
                    })
                    &&& final(self).is_ready()
                },
                None => {
                    &&& r matches Err(SinkError::UpdateError { msg }) && msg@
                        == clock_unavailable_message_spec()
                    &&& *final(self) == *old(self)
                },
            },
    {
        match reading {
            Some(now) => {
                let t = if now >= self.last_updated_on {
                    now
                } else {
                    self.last_updated_on
                };
                self.last_updated_on = t;
                Ok(t)
            },
            None => Err(
                SinkError::UpdateError {
                    msg: update_error_message(
                        "the system clock gave no reading within the timestamp range",
                    ),
                },
            ),
        }
    }

    /// Originate the `updated_on` stamp for the next upsert.
    ///
    /// The stamp is the sink's own reading of the current UTC time, never a
    /// caller input, and never runs backwards: across sequential calls on
    /// one sink the returned values are non-decreasing even if the wall
    /// clock steps back. Before preparation succeeded there is nothing to
    /// execute, and a clock that yields no usable reading stamps nothing;
    /// either way the call is refused with an update error and the sink is
    /// left unchanged.
    pub fn stamp(&mut self) -> (r: Result<i64, SinkError>)
        ensures
            old(self).is_ready() ==> match r {
                Ok(t) => {
                    &&& t == final(self).last_stamp()
                    &&& final(self).is_ready()
                    &&& final(self).last_stamp() >= old(self).last_stamp()
                },
                Err(e) => {
                    &&& e matches SinkError::UpdateError { msg } && msg@
                        == clock_unavailable_message_spec()
                    &&& *final(self) == *old(self)
                },
            },
            !old(self).is_ready() ==> {
                &&& r matches Err(SinkError::UpdateError { msg }) && msg@
                    == not_ready_message_spec()
                &&& *final(self) == *old(self)
            },
    {
        if !self.ready {
            return Err(SinkError::UpdateError { msg: update_error_message("no prepared statement") });
        }
        let reading = current_micros();
        self.stamp_from_reading(reading)
    }

    /// Record the outcome of one upsert execution.
    ///
    /// A failure is returned as an update error whose message carries the
    /// driver's error text; the sink itself is left exactly as it was, so
    /// the prepared statement stays reusable for the next call. The caller
    /// owns any retry policy.
    pub fn on_write_outcome(&mut self, outcome: Result<(), String>) -> (r: Result<(), SinkError>)
        ensures
            *final(self) == *old(self),
            match outcome {
                Ok(_) => r matches Ok(_),
                Err(e) => r matches Err(SinkError::UpdateError { msg }) && msg@
                    == update_error_message_spec(e@),
            },
    {
        match outcome {
            Ok(_) => Ok(()),
            Err(e) => Err(SinkError::UpdateError { msg: update_error_message(e.as_str()) }),
        }
    }
}

} // verus!
