//! Bringing the network up.
//!
//! The platform's network has to be brought up before a socket is made:
//! the network modules are loaded, the network is initialised, and the
//! connection to an access point is established. Each function here takes the
//! answers that the platform gave so far, in order, and gives the call to make
//! next or the end of the sequence.

use vstd::prelude::*;
use vstd::string::*;

verus! {

/// Error type for net functions
#[derive(Debug, Clone, PartialEq, Eq)]
#[must_use]
pub enum NetError {
    /// Failed to load a net module
    LoadModuleFailed(String, i32),
    /// Failed to initialize
    InitFailed(String, i32),
    /// An error occurred when using a net function
    Error(String, i32),
    /// Net config Do not exist
    NetConfigNotExist,
    /// Timeout
    Timeout,
}

impl NetError {
    /// The failure to load the module `module` with the platform's `error`
    pub fn load_module_failed(module: &str, error: i32) -> (r: Self)
        ensures
            r matches NetError::LoadModuleFailed(m, e) && m@ == module@ && e == error,
    {
        NetError::LoadModuleFailed(String::from_str(module), error)
    }

    /// The failure of the initialisation `fn_name` with the platform's `error`
    pub fn init_failed(fn_name: &str, error: i32) -> (r: Self)
        ensures
            r matches NetError::InitFailed(f, e) && f@ == fn_name@ && e == error,
    {
        NetError::InitFailed(String::from_str(fn_name), error)
    }

    /// The failure of the net function `fn_name` with the platform's `error`
    pub fn error(fn_name: &str, error: i32) -> (r: Self)
        ensures
            r matches NetError::Error(f, e) && f@ == fn_name@ && e == error,
    {
        NetError::Error(String::from_str(fn_name), error)
    }
}

/// A network module of the platform
#[derive(Debug, Clone, Copy, PartialEq, Eq, Structural)]
pub enum NetModule {
    NetCommon,
    NetInet,
    NetParseUri,
    NetHttp,
}

/// The state of the connection to an access point
#[derive(Debug, Clone, Copy, PartialEq, Eq, Structural)]
pub enum ApctlState {
    Disconnected,
    Scanning,
    Joining,
    GettingIp,
    GotIp,
    EapAuth,
    KeyExchange,
}

/// The platform's answer to a query of the state of the connection
#[derive(Debug, Clone, Copy, PartialEq, Eq, Structural)]
pub struct ApctlPoll {
    /// What the query returned: 0, or an error
    pub err: i32,
    /// The state, where the query returned 0
    pub state: ApctlState,
}

/// A call of the platform that brings the network up
#[derive(Debug, Clone, Copy, PartialEq, Eq, Structural)]
pub enum NetCall {
    /// Load a network module (`sceUtilityLoadNetModule`)
    LoadNetModule(NetModule),
    /// Initialise the network (`sceNetInit`)
    NetInit {
        poolsize: i32,
        calloutprio: i32,
        calloutstack: i32,
        netintrprio: i32,
        netintrstack: i32,
    },
    /// Initialise the sockets (`sceNetInetInit`)
    NetInetInit,
    /// Initialise the platform's resolver (`sceNetResolverInit`)
    NetResolverInit,
    /// Initialise the control of access points (`sceNetApctlInit`)
    NetApctlInit { stack_size: i32, init_priority: i32 },
    /// Ask whether a net config exists (`sceUtilityCheckNetParam`)
    CheckNetParam { id: i32 },
    /// Connect to an access point (`sceNetApctlConnect`)
    ApctlConnect { conn_index: i32 },
    /// Ask for the state of the connection (`sceNetApctlGetState`)
    ApctlGetState,
    /// Wait for a number of microseconds (`sceKernelDelayThread`)
    DelayThread { delay: u32 },
}

/// What a function that brings the network up hands to its driver
#[derive(Debug, PartialEq, Eq)]
pub enum NetStep {
    /// The call to make next; its answer is added to the answers that the
    /// same function is given
    Call(NetCall),
    /// The sequence is over, with this result
    Done(Result<(), NetError>),
}

/// The number of microseconds between two queries of the state of the
/// connection
pub const POLL_DELAY: u32 = 50_000;

/// The index of the first of the first `n` answers that is not 0, if there
/// is one
pub open spec fn first_failure(answers: Seq<i32>, n: int) -> Option<int>
    decreases n,
{
    if n <= 0 {
        None
    } else {
        match first_failure(answers, n - 1) {
            Some(i) => Some(i),
            None => if answers[n - 1] != 0 {
                Some(n - 1)
            } else {
                None
            },
        }
    }
}

/// The smaller of the two numbers
pub open spec fn at_most(len: int, limit: int) -> int {
    if len < limit {
        len
    } else {
        limit
    }
}

/// The first of the first `limit` answers that is not 0, with its index
fn find_failure(answers: &[i32], limit: usize) -> (r: Option<(usize, i32)>)
    ensures
        match r {
            Some((i, e)) => first_failure(answers@, at_most(answers@.len() as int, limit as int))
                == Some(i as int) && i < answers@.len() && i < limit && e == answers@[i as int]
                && e != 0,
            None => first_failure(answers@, at_most(answers@.len() as int, limit as int))
                is None,
        },
{
    let n = if answers.len() < limit {
        answers.len()
    } else {
        limit
    };
    let mut i: usize = 0;
    while i < n
        invariant
            i <= n,
            n <= answers@.len(),
            n == at_most(answers@.len() as int, limit as int),
            first_failure(answers@, i as int) is None,
        decreases n - i,
    {
        if answers[i] != 0 {
            proof {
                lemma_first_failure_stays(answers@, i as int + 1, n as int);
            }
            return Some((i, answers[i]));
        }
        i += 1;
    }
    None
}

/// A failure among the first `n` answers is the first failure among more.
proof fn lemma_first_failure_stays(answers: Seq<i32>, n: int, m: int)
    requires
        n <= m,
        first_failure(answers, n) is Some,
    ensures
        first_failure(answers, m) == first_failure(answers, n),
    decreases m - n,
{
    if n < m {
        lemma_first_failure_stays(answers, n, m - 1);
    }
}

/// The net module that is loaded as the one with the index `i`
pub open spec fn module_at(i: int) -> NetModule {
    if i == 0 {
        NetModule::NetCommon
    } else if i == 1 {
        NetModule::NetInet
    } else if i == 2 {
        NetModule::NetParseUri
    } else {
        NetModule::NetHttp
    }
}

/// Load net modules
///
/// The four modules are loaded in order: the common module, the socket
/// module, the module that parses URIs and the HTTP module. The first
/// failure ends the sequence.
///
/// # Parameters
/// - `answers`: What the loads so far returned, in order
///
/// # Errors
/// - [`NetError::LoadModuleFailed`] if the net module could not be loaded
#[allow(unused)]
#[inline]
pub fn load_net_modules(answers: &[i32]) -> (r: NetStep)
    ensures
        first_failure(answers@, at_most(answers@.len() as int, 4)) matches Some(i) ==> (
        r matches NetStep::Done(Err(NetError::LoadModuleFailed(module, e))) && module@.len()
            == 0 && e == answers@[i]),
        first_failure(answers@, at_most(answers@.len() as int, 4)) is None && answers@.len()
            >= 4 ==> r == NetStep::Done(Ok(())),
        first_failure(answers@, at_most(answers@.len() as int, 4)) is None && answers@.len() < 4
            ==> r == NetStep::Call(NetCall::LoadNetModule(module_at(answers@.len() as int))),
{
    match find_failure(answers, 4) {
        Some((_, res)) => {
            proof {
                reveal_strlit("");
            }
            NetStep::Done(Err(NetError::load_module_failed("", res)))
        },
        None => {
            let loaded = answers.len();
            if loaded == 0 {
                NetStep::Call(NetCall::LoadNetModule(NetModule::NetCommon))
            } else if loaded == 1 {
                NetStep::Call(NetCall::LoadNetModule(NetModule::NetInet))
            } else if loaded == 2 {
                NetStep::Call(NetCall::LoadNetModule(NetModule::NetParseUri))
            } else if loaded == 3 {
                NetStep::Call(NetCall::LoadNetModule(NetModule::NetHttp))
            } else {
                NetStep::Done(Ok(()))
            }
        },
    }
}

/// The initialisation that is made as the one with the index `i`
pub open spec fn init_at(i: int) -> NetCall {
    if i == 0 {
        NetCall::NetInit {
            poolsize: 0x20000,
            calloutprio: 0x20,
            calloutstack: 0x1000,
            netintrprio: 0x20,
            netintrstack: 0x1000,
        }
    } else if i == 1 {
        NetCall::NetInetInit
    } else if i == 2 {
        NetCall::NetResolverInit
    } else {
        NetCall::NetApctlInit { stack_size: 0x1600, init_priority: 42 }
    }
}

/// The name of the initialisation that is made as the one with the index `i`
pub open spec fn init_name_at(i: int) -> Seq<char> {
    if i == 0 {
        "sceNetInit"@
    } else if i == 1 {
        "sceNetInetInit"@
    } else if i == 2 {
        "sceNetResolverInit"@
    } else {
        "sceNetApctlInit"@
    }
}

/// Initialize network
///
/// The four initialisations are made in order: of the network, of the
/// sockets, of the platform's resolver and of the control of access points.
/// The first failure ends the sequence.
///
/// # Parameters
/// - `answers`: What the initialisations so far returned, in order
///
/// # Errors
/// - [`NetError::InitFailed`] if the net could not be initialized, with the
///   name of the initialisation that failed
#[allow(unused)]
#[inline]
pub fn net_init(answers: &[i32]) -> (r: NetStep)
    ensures
        first_failure(answers@, at_most(answers@.len() as int, 4)) matches Some(i) ==> (
        r matches NetStep::Done(Err(NetError::InitFailed(name, e))) && name@ == init_name_at(i)
            && e == answers@[i]),
        first_failure(answers@, at_most(answers@.len() as int, 4)) is None && answers@.len()
            >= 4 ==> r == NetStep::Done(Ok(())),
        first_failure(answers@, at_most(answers@.len() as int, 4)) is None && answers@.len() < 4
            ==> r == NetStep::Call(init_at(answers@.len() as int)),
{
    match find_failure(answers, 4) {
        Some((i, res)) => {
            let name = if i == 0 {
                "sceNetInit"
            } else if i == 1 {
                "sceNetInetInit"
            } else if i == 2 {
                "sceNetResolverInit"
            } else {
                "sceNetApctlInit"
            };
            NetStep::Done(Err(NetError::init_failed(name, res)))
        },
        None => {
            let made = answers.len();
            if made == 0 {
                NetStep::Call(
                    NetCall::NetInit {
                        poolsize: 0x20000,
                        calloutprio: 0x20,
                        calloutstack: 0x1000,
                        netintrprio: 0x20,
                        netintrstack: 0x1000,
                    },
                )
            } else if made == 1 {
                NetStep::Call(NetCall::NetInetInit)
            } else if made == 2 {
                NetStep::Call(NetCall::NetResolverInit)
            } else if made == 3 {
                NetStep::Call(NetCall::NetApctlInit { stack_size: 0x1600, init_priority: 42 })
            } else {
                NetStep::Done(Ok(()))
            }
        },
    }
}

/// Check existence of net config
///
/// # Parameters
/// - `id`: The number of the net config
/// - `answers`: What the check returned, once it is made
///
/// # Errors
/// - [`NetError::NetConfigNotExist`] if the net config does not exist
///
/// # Notes
/// The netconfigs start from 1.
///
/// Remember that this function requires the [net modules](crate::utils::load_net_modules) to be loaded, and
/// [initialised](crate::utils::net_init) first.
#[allow(unused)]
#[inline]
pub fn check_netconfig_existence(id: i32, answers: &[i32]) -> (r: NetStep)
    ensures
        answers@.len() == 0 ==> r == NetStep::Call(NetCall::CheckNetParam { id }),
        answers@.len() > 0 && answers@[0] != 0 ==> r == NetStep::Done(
            Err(NetError::NetConfigNotExist),
        ),
        answers@.len() > 0 && answers@[0] == 0 ==> r == NetStep::Done(Ok(())),
{
    if answers.len() == 0 {
        NetStep::Call(NetCall::CheckNetParam { id })
    } else if answers[0] != 0 {
        NetStep::Done(Err(NetError::NetConfigNotExist))
    } else {
        NetStep::Done(Ok(()))
    }
}

/// Check existence of first net config
///
/// # Errors
/// Same as [`check_netconfig_existence`](crate::utils::check_netconfig_existence)
#[allow(unused)]
#[inline]
pub fn check_first_netconfig_existence(answers: &[i32]) -> (r: NetStep)
    ensures
        answers@.len() == 0 ==> r == NetStep::Call(NetCall::CheckNetParam { id: 1 }),
        answers@.len() > 0 && answers@[0] != 0 ==> r == NetStep::Done(
            Err(NetError::NetConfigNotExist),
        ),
        answers@.len() > 0 && answers@[0] == 0 ==> r == NetStep::Done(Ok(())),
{
    check_netconfig_existence(1, answers)
}

/// Initialise a connection to an access point
///
/// # Parameters
/// - `connection_id`: The ID of the access point to connect to
/// - `answers`: What the connect returned, once it is made
///
/// # Errors
/// [`NetError::Error`] if the connection initialisation failed
///
/// # Notes
/// The access point ID is a number greater or equal to 1. It is the index of the
/// access point in the netconfig.
///
/// The connection is not established when the sequence is over.
/// Use [`block_until_connected`](crate::utils::block_until_connected) right after
/// this function to wait until the connection is established.
pub fn init_connection_to_access_point(connection_id: i32, answers: &[i32]) -> (r: NetStep)
    ensures
        answers@.len() == 0 ==> r == NetStep::Call(
            NetCall::ApctlConnect { conn_index: connection_id },
        ),
        answers@.len() > 0 && answers@[0] != 0 ==> (r matches NetStep::Done(
            Err(NetError::Error(name, e)),
        ) && name@ == "sceNetApctlConnect"@ && e == answers@[0]),
        answers@.len() > 0 && answers@[0] == 0 ==> r == NetStep::Done(Ok(())),
{
    if answers.len() == 0 {
        NetStep::Call(NetCall::ApctlConnect { conn_index: connection_id })
    } else if answers[0] != 0 {
        NetStep::Done(Err(NetError::error("sceNetApctlConnect", answers[0])))
    } else {
        NetStep::Done(Ok(()))
    }
}

/// Whether the answer to a query of the state ends the wait: the query
/// failed, or the connection has its address
pub open spec fn is_decisive(poll: ApctlPoll) -> bool {
    poll.err != 0 || poll.state == ApctlState::GotIp
}

/// The index of the first of the first `n` answers that ends the wait, if
/// there is one
pub open spec fn first_decisive(polls: Seq<ApctlPoll>, n: int) -> Option<int>
    decreases n,
{
    if n <= 0 {
        None
    } else {
        match first_decisive(polls, n - 1) {
            Some(i) => Some(i),
            None => if is_decisive(polls[n - 1]) {
                Some(n - 1)
            } else {
                None
            },
        }
    }
}

/// An answer among the first `n` that ends the wait is the first among more.
proof fn lemma_first_decisive_stays(polls: Seq<ApctlPoll>, n: int, m: int)
    requires
        n <= m,
        first_decisive(polls, n) is Some,
    ensures
        first_decisive(polls, m) == first_decisive(polls, n),
    decreases m - n,
{
    if n < m {
        lemma_first_decisive_stays(polls, n, m - 1);
    }
}

/// Block until connected
///
/// Polls the access point state until connection is established, `desist_after` times
/// is reached, or an error occurs.
/// The polling is done at 50ms intervals: each query that does not end the
/// wait is followed by a delay.
///
/// # Parameters
/// - `desist_after`: The number of times to poll the state before desisting
/// - `polls`: The answers to the queries of the state so far, in order
/// - `delays`: The number of delays that were made so far
///
/// # Errors
/// - [`NetError::Error`] if a query of the state failed
/// - [`NetError::Timeout`] if the connection is not established after
///   `desist_after` queries
#[inline]
pub fn block_until_connected(desist_after: usize, polls: &[ApctlPoll], delays: usize) -> (r:
    NetStep)
    ensures
        first_decisive(polls@, at_most(polls@.len() as int, desist_after as int)) matches Some(
            i,
        ) ==> (if polls@[i].err != 0 {
            r matches NetStep::Done(Err(NetError::Error(name, e))) && name@
                == "sceNetApctlGetState"@ && e == polls@[i].err
        } else {
            r == NetStep::Done(Ok(()))
        }),
        first_decisive(polls@, at_most(polls@.len() as int, desist_after as int)) is None ==> (
        if delays < at_most(polls@.len() as int, desist_after as int) {
            r == NetStep::Call(NetCall::DelayThread { delay: 50_000 })
        } else if polls@.len() >= desist_after {
            r == NetStep::Done(Err(NetError::Timeout))
        } else {
            r == NetStep::Call(NetCall::ApctlGetState)
        }),
{
    let n = if polls.len() < desist_after {
        polls.len()
    } else {
        desist_after
    };
    let mut i: usize = 0;
    while i < n
        invariant
            i <= n,
            n <= polls@.len(),
            n == at_most(polls@.len() as int, desist_after as int),
            first_decisive(polls@, i as int) is None,
        decreases n - i,
    {
        let poll = polls[i];
        if poll.err != 0 {
            proof {
                lemma_first_decisive_stays(polls@, i as int + 1, n as int);
            }
            return NetStep::Done(Err(NetError::error("sceNetApctlGetState", poll.err)));
        }
        if let ApctlState::GotIp = poll.state {
            proof {
                lemma_first_decisive_stays(polls@, i as int + 1, n as int);
            }
            return NetStep::Done(Ok(()));
        }
        i += 1;
    }
    if delays < n {
        NetStep::Call(NetCall::DelayThread { delay: POLL_DELAY })
    } else if polls.len() >= desist_after {
        NetStep::Done(Err(NetError::Timeout))
    } else {
        NetStep::Call(NetCall::ApctlGetState)
    }
}

} // verus!
