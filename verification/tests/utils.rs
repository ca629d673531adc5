use psp_net::constants::HTTPS_PORT;
use psp_net::utils::{
    block_until_connected, check_first_netconfig_existence, check_netconfig_existence,
    init_connection_to_access_point, load_net_modules, net_init, ApctlPoll, ApctlState, NetCall,
    NetError, NetModule, NetStep,
};

const WAITING: ApctlPoll = ApctlPoll { err: 0, state: ApctlState::Joining };
const GOT_IP: ApctlPoll = ApctlPoll { err: 0, state: ApctlState::GotIp };

#[test]
fn https_port() {
    assert_eq!(HTTPS_PORT, 443);
}

#[test]
fn modules_are_loaded_in_order() {
    assert_eq!(
        load_net_modules(&[]),
        NetStep::Call(NetCall::LoadNetModule(NetModule::NetCommon))
    );
    assert_eq!(
        load_net_modules(&[0]),
        NetStep::Call(NetCall::LoadNetModule(NetModule::NetInet))
    );
    assert_eq!(
        load_net_modules(&[0, 0]),
        NetStep::Call(NetCall::LoadNetModule(NetModule::NetParseUri))
    );
    assert_eq!(
        load_net_modules(&[0, 0, 0]),
        NetStep::Call(NetCall::LoadNetModule(NetModule::NetHttp))
    );
    assert_eq!(load_net_modules(&[0, 0, 0, 0]), NetStep::Done(Ok(())));
    assert_eq!(load_net_modules(&[0, 0, 0, 0, 9]), NetStep::Done(Ok(())));
}

#[test]
fn first_module_that_fails_ends_the_loading() {
    let failed = |code| NetStep::Done(Err(NetError::LoadModuleFailed(String::new(), code)));
    assert_eq!(load_net_modules(&[-1]), failed(-1));
    assert_eq!(load_net_modules(&[0, 7]), failed(7));
    assert_eq!(load_net_modules(&[0, 7, 8]), failed(7));
    assert_eq!(load_net_modules(&[0, 0, 0, 3]), failed(3));
}

#[test]
fn network_is_initialised_in_order() {
    assert_eq!(
        net_init(&[]),
        NetStep::Call(NetCall::NetInit {
            poolsize: 0x20000,
            calloutprio: 0x20,
            calloutstack: 0x1000,
            netintrprio: 0x20,
            netintrstack: 0x1000,
        })
    );
    assert_eq!(net_init(&[0]), NetStep::Call(NetCall::NetInetInit));
    assert_eq!(net_init(&[0, 0]), NetStep::Call(NetCall::NetResolverInit));
    assert_eq!(
        net_init(&[0, 0, 0]),
        NetStep::Call(NetCall::NetApctlInit { stack_size: 0x1600, init_priority: 42 })
    );
    assert_eq!(net_init(&[0, 0, 0, 0]), NetStep::Done(Ok(())));
}

#[test]
fn first_initialisation_that_fails_is_named() {
    let failed = |name: &str, code| NetStep::Done(Err(NetError::init_failed(name, code)));
    assert_eq!(net_init(&[5]), failed("sceNetInit", 5));
    assert_eq!(net_init(&[0, -2]), failed("sceNetInetInit", -2));
    assert_eq!(net_init(&[0, 0, 1]), failed("sceNetResolverInit", 1));
    assert_eq!(net_init(&[0, 0, 0, 4]), failed("sceNetApctlInit", 4));
    assert_eq!(net_init(&[0, 3, 0, 4]), failed("sceNetInetInit", 3));
}

#[test]
fn net_config_is_checked() {
    assert_eq!(
        check_netconfig_existence(3, &[]),
        NetStep::Call(NetCall::CheckNetParam { id: 3 })
    );
    assert_eq!(check_netconfig_existence(3, &[0]), NetStep::Done(Ok(())));
    assert_eq!(
        check_netconfig_existence(3, &[-1]),
        NetStep::Done(Err(NetError::NetConfigNotExist))
    );
    assert_eq!(
        check_first_netconfig_existence(&[]),
        NetStep::Call(NetCall::CheckNetParam { id: 1 })
    );
    assert_eq!(check_first_netconfig_existence(&[0]), NetStep::Done(Ok(())));
    assert_eq!(
        check_first_netconfig_existence(&[1]),
        NetStep::Done(Err(NetError::NetConfigNotExist))
    );
}

#[test]
fn connection_to_an_access_point_is_begun() {
    assert_eq!(
        init_connection_to_access_point(2, &[]),
        NetStep::Call(NetCall::ApctlConnect { conn_index: 2 })
    );
    assert_eq!(init_connection_to_access_point(2, &[0]), NetStep::Done(Ok(())));
    assert_eq!(
        init_connection_to_access_point(2, &[-9]),
        NetStep::Done(Err(NetError::error("sceNetApctlConnect", -9)))
    );
}

#[test]
fn wait_polls_and_delays_in_turn() {
    let delay = NetStep::Call(NetCall::DelayThread { delay: 50_000 });
    let poll = NetStep::Call(NetCall::ApctlGetState);
    assert_eq!(block_until_connected(3, &[], 0), poll);
    assert_eq!(block_until_connected(3, &[WAITING], 0), delay);
    assert_eq!(block_until_connected(3, &[WAITING], 1), poll);
    assert_eq!(block_until_connected(3, &[WAITING, WAITING], 1), delay);
    assert_eq!(block_until_connected(3, &[WAITING, WAITING], 2), poll);
    assert_eq!(block_until_connected(3, &[WAITING, WAITING, GOT_IP], 2), NetStep::Done(Ok(())));
    assert_eq!(block_until_connected(3, &[GOT_IP], 0), NetStep::Done(Ok(())));
}

#[test]
fn wait_desists() {
    let delay = NetStep::Call(NetCall::DelayThread { delay: 50_000 });
    let timeout = NetStep::Done(Err(NetError::Timeout));
    assert_eq!(block_until_connected(0, &[], 0), timeout);
    assert_eq!(block_until_connected(2, &[WAITING, WAITING], 1), delay);
    assert_eq!(block_until_connected(2, &[WAITING, WAITING], 2), timeout);
    // an answer beyond the number of polls does not count
    assert_eq!(block_until_connected(1, &[WAITING, GOT_IP], 1), timeout);
}

#[test]
fn wait_fails_where_the_query_fails() {
    let failed = ApctlPoll { err: -3, state: ApctlState::GotIp };
    assert_eq!(
        block_until_connected(5, &[WAITING, failed], 1),
        NetStep::Done(Err(NetError::error("sceNetApctlGetState", -3)))
    );
    assert_eq!(
        block_until_connected(5, &[failed, GOT_IP], 0),
        NetStep::Done(Err(NetError::error("sceNetApctlGetState", -3)))
    );
}

#[test]
fn wait_runs_to_the_connection() {
    let states = [ApctlState::Scanning, ApctlState::Joining, ApctlState::GettingIp, ApctlState::GotIp];
    let mut polls = Vec::new();
    let mut delays = 0;
    let result = loop {
        match block_until_connected(10, &polls, delays) {
            NetStep::Call(NetCall::ApctlGetState) => {
                polls.push(ApctlPoll { err: 0, state: states[polls.len()] })
            }
            NetStep::Call(NetCall::DelayThread { delay: 50_000 }) => delays += 1,
            NetStep::Call(other) => panic!("unexpected call {:?}", other),
            NetStep::Done(result) => break result,
        }
    };
    assert_eq!(result, Ok(()));
    assert_eq!(polls.len(), 4);
    assert_eq!(delays, 3);
}
