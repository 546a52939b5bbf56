//! The connect pipeline: one attempt per configured host, in order, until one
//! succeeds; and, per attempt, the check that the session allows writes.
use vstd::prelude::*;
use vstd::string::*;
use crate::config::{Config, TargetSessionAttrs};
use crate::error::{Error, IoErrorKind};
use crate::simple_query::Row;

verus! {

/// Why the settings cannot be connected with, if they cannot.
pub open spec fn config_problem(c: Config) -> Option<Seq<char>> {
    if c.host@.len() == 0 {
        Some("host missing"@)
    } else if c.port@.len() > 1 && c.port@.len() != c.host@.len() {
        Some("invalid number of ports"@)
    } else {
        None
    }
}

/// What follows the failure `e` of the attempt on host `idx` of `n`: the
/// attempt on the next host, or, after the last host, the failure itself.
pub open spec fn failover(n: nat, idx: nat, e: Error) -> Result<nat, Error> {
    if idx + 1 < n {
        Ok(idx + 1)
    } else {
        Err(e)
    }
}

/// The states of a connect.
pub enum Connect {
    /// The settings are not yet checked.
    Start { settings: Result<Config, Error> },
    /// The attempt on host `idx` runs.
    Connecting { idx: usize, config: Config },
    /// A host accepted, or every host failed.
    Done,
}

/// A connect that tries each configured host in turn. The caller runs each
/// attempt (socket, TLS, startup) and reports how it ended; only the last
/// failure is surfaced.
pub struct ConnectFuture {
    pub state: Connect,
}

impl ConnectFuture {
    pub fn new(config: Result<Config, Error>) -> (r: ConnectFuture)
        ensures
            r.state == (Connect::Start { settings: config }),
    {
        ConnectFuture { state: Connect::Start { settings: config } }
    }

    /// Checks the settings and returns the index of the first host to try.
    pub fn start(&mut self) -> (r: Result<usize, Error>)
        requires
            old(self).state is Start,
        ensures
            match old(self).state->settings {
                Err(e) => r == Result::<usize, Error>::Err(e) && final(self).state is Done,
                Ok(c) => match config_problem(c) {
                    Some(why) => r matches Err(Error::Config(m)) && m@ == why && final(self).state is Done,
                    None => r == Result::<usize, Error>::Ok(0) && final(self).state == (
                    Connect::Connecting { idx: 0, config: c }),
                },
            },
    {
        let mut st = Connect::Done;
        std::mem::swap(&mut self.state, &mut st);
        match st {
            Connect::Start { settings } => match settings {
                Err(e) => Err(e),
                Ok(c) => {
                    if c.host.len() == 0 {
                        Err(Error::Config(String::from_str("host missing")))
                    } else if c.port.len() > 1 && c.port.len() != c.host.len() {
                        Err(Error::Config(String::from_str("invalid number of ports")))
                    } else {
                        self.state = Connect::Connecting { idx: 0, config: c };
                        Ok(0)
                    }
                },
            },
            _ => Err(Error::UnexpectedMessage),
        }
    }

    /// The settings that the attempts use, while an attempt runs.
    pub fn config(&self) -> (r: Option<&Config>)
        ensures
            match self.state {
                Connect::Connecting { config, .. } => r matches Some(c) && *c == config,
                _ => r is None,
            },
    {
        match &self.state {
            Connect::Connecting { idx: _, config } => Some(config),
            _ => None,
        }
    }

    /// Takes the failure of the running attempt: returns the index of the
    /// next host to try, or, after the last host, this failure.
    pub fn attempt_failed(&mut self, e: Error) -> (r: Result<usize, Error>)
        requires
            old(self).state matches Connect::Connecting { idx, config } && idx < config.host@.len(),
        ensures
            r matches Ok(i) ==> failover(
                old(self).state->config.host@.len(),
                old(self).state->idx as nat,
                e,
            ) == Result::<nat, Error>::Ok(i as nat) && final(self).state == (Connect::Connecting {
                idx: i,
                config: old(self).state->config,
            }),
            r matches Err(f) ==> failover(
                old(self).state->config.host@.len(),
                old(self).state->idx as nat,
                e,
            ) == Result::<nat, Error>::Err(f) && final(self).state is Done,
    {
        let mut st = Connect::Done;
        std::mem::swap(&mut self.state, &mut st);
        match st {
            Connect::Connecting { idx, config } => {
                if idx < config.host.len() && config.host.len() - idx > 1 {
                    self.state = Connect::Connecting { idx: idx + 1, config };
                    Ok(idx + 1)
                } else {
                    Err(e)
                }
            },
            _ => Err(e),
        }
    }

    /// Takes the success of the running attempt.
    pub fn attempt_succeeded(&mut self)
        ensures
            final(self).state is Done,
    {
        self.state = Connect::Done;
    }
}

/// The hosts are tried in their order, one attempt each: when all of them
/// fail, each failure but the last moves on to the next host, and the last
/// failure is the one surfaced.
pub proof fn lemma_host_failover(n: nat, errs: Seq<Error>)
    requires
        n >= 1,
        errs.len() == n,
    ensures
        forall|i: nat| i + 1 < n ==> #[trigger] failover(n, i, errs[i as int]) == Result::<
            nat,
            Error,
        >::Ok(i + 1),
        failover(n, (n - 1) as nat, errs[n - 1]) == Result::<nat, Error>::Err(errs[n - 1]),
{
}

/// Whether the first field of a row is the text `on`.
pub open spec fn first_field_is_on(row: Row) -> bool {
    row@.len() > 0 && (row@[0] matches Some(f) && f@ == seq![0x6fu8, 0x6eu8])
}

/// Whether `r` is the outcome of the read-write check on the first row of
/// `SHOW transaction_read_only` (`None`: the stream ended without a row): a
/// server that reports `on` does not allow writes.
pub open spec fn read_write_outcome(row: Option<Row>, r: Result<(), Error>) -> bool {
    match row {
        None => r == Result::<(), Error>::Err(Error::Closed),
        Some(first) => if first_field_is_on(first) {
            r matches Err(Error::Connect(IoErrorKind::PermissionDenied, m)) && m@
                == "database does not allow writes"@
        } else {
            r is Ok
        },
    }
}

/// The states of one connection attempt.
pub enum ConnectOnce {
    /// The socket, TLS and startup steps run.
    Connecting { idx: usize, target_session_attrs: TargetSessionAttrs },
    /// `SHOW transaction_read_only` is in flight.
    CheckingSessionAttrs,
    /// The attempt succeeded or failed.
    Done,
}

/// One attempt on one host. The caller performs the socket, TLS and startup
/// steps; this decides whether the session is acceptable.
pub struct ConnectOnceFuture {
    pub state: ConnectOnce,
}

impl ConnectOnceFuture {
    pub fn new(idx: usize, config: &Config) -> (r: ConnectOnceFuture)
        ensures
            r.state == (ConnectOnce::Connecting {
                idx,
                target_session_attrs: config.target_session_attrs,
            }),
    {
        ConnectOnceFuture {
            state: ConnectOnce::Connecting {
                idx,
                target_session_attrs: config.target_session_attrs,
            },
        }
    }

    /// Takes the end of the startup handshake. Where the session must allow
    /// writes, returns the simple query that checks it; otherwise the attempt
    /// has succeeded.
    pub fn startup_finished(&mut self) -> (r: Option<&'static str>)
        requires
            old(self).state is Connecting,
        ensures
            old(self).state->target_session_attrs == TargetSessionAttrs::ReadWrite ==> (r matches Some(
                q,
            ) && q@ == "SHOW transaction_read_only"@ && final(self).state is CheckingSessionAttrs),
            old(self).state->target_session_attrs == TargetSessionAttrs::Any ==> r is None && final(self).state is Done,
    {
        let attrs = match &self.state {
            ConnectOnce::Connecting { idx: _, target_session_attrs } => *target_session_attrs,
            _ => TargetSessionAttrs::Any,
        };
        match attrs {
            TargetSessionAttrs::ReadWrite => {
                self.state = ConnectOnce::CheckingSessionAttrs;
                Some("SHOW transaction_read_only")
            },
            TargetSessionAttrs::Any => {
                self.state = ConnectOnce::Done;
                None
            },
        }
    }

    /// Takes the first item of the check's stream of rows (`None`: it ended
    /// without one): the attempt fails where the server reports that it is
    /// read-only.
    pub fn session_attrs_row(&mut self, row: Option<Row>) -> (r: Result<(), Error>)
        requires
            old(self).state is CheckingSessionAttrs,
        ensures
            read_write_outcome(row, r),
            final(self).state is Done,
    {
        self.state = ConnectOnce::Done;
        match row {
            None => Err(Error::Closed),
            Some(r) => {
                if r.len() > 0 {
                    match &r[0] {
                        Some(f) => {
                            if f.len() == 2 && f[0] == 0x6fu8 && f[1] == 0x6eu8 {
                                assert(f@ =~= seq![0x6fu8, 0x6eu8]);
                                return Err(
                                    Error::Connect(
                                        IoErrorKind::PermissionDenied,
                                        String::from_str("database does not allow writes"),
                                    ),
                                );
                            }
                        },
                        None => {},
                    }
                }
                Ok(())
            },
        }
    }
}

} // verus!
