//! The RPC session state and the polling decisions taken on transport
//! observations.

use boomerang::address::{Address, Keypair};
use boomerang::client::{
    epoch_advanced,
    slots_elapsed,
    BoomerangClient,
    BoomerangRpcClient,
    RpcSessionInfo,
};
use boomerang::config::{BoomerangTestClientConfig, Commitment, ConfigFile};

#[test]
fn epoch_polling_stops_after_the_epoch_advances() {
    assert!(!epoch_advanced(7, 7));
    assert!(!epoch_advanced(7, 6));
    assert!(epoch_advanced(7, 8));
}

#[test]
fn slot_polling_waits_for_the_full_delta() {
    assert!(!slots_elapsed(100, 100, 5));
    assert!(!slots_elapsed(100, 105, 5));
    assert!(slots_elapsed(100, 106, 5));
    // A delta beyond the slot range can never be observed.
    assert!(!slots_elapsed(u64::MAX - 1, u64::MAX, 5));
}

#[test]
fn rpc_session_records_transport_observations() {
    let mut config = BoomerangTestClientConfig::default();
    config.program_id = Address::from_str("prog-1");
    config.rpc_endpoint = "http://127.0.0.1:8899".to_string();
    let session = RpcSessionInfo {
        fee_payer: Keypair::new(Address::from_str("payer-1")),
        latest_blockhash: 41,
    };
    let mut rpc = BoomerangRpcClient::setup(&config, session);
    assert_eq!(rpc.program_id(), Address::from_str("prog-1"));
    assert_eq!(rpc.fee_payer().pubkey(), Address::from_str("payer-1"));
    assert_eq!(rpc.last_blockhash(), 41);
    assert_eq!(rpc.rpc_endpoint(), "http://127.0.0.1:8899");
    rpc.observe_latest_blockhash(42);
    assert_eq!(rpc.last_blockhash(), 42);
}

#[test]
fn uniform_client_wraps_an_rpc_session() {
    let mut config = BoomerangTestClientConfig::default();
    config.program_id = Address::from_str("prog-2");
    let session = RpcSessionInfo {
        fee_payer: Keypair::new(Address::from_str("payer-2")),
        latest_blockhash: 9,
    };
    let client = BoomerangClient::new(&config, false, Some(session));
    assert!(!client.is_banks());
    assert_eq!(client.program_id(), Address::from_str("prog-2"));
    assert_eq!(client.fee_payer().pubkey(), Address::from_str("payer-2"));
    assert_eq!(client.last_blockhash(), 9);
}

#[test]
fn config_file_holds_the_client_settings() {
    let file = ConfigFile {
        json_rpc_url: "http://127.0.0.1:8899".to_string(),
        websocket_url: "ws://127.0.0.1:8900".to_string(),
        keypair_path: "/ws/tmp/id.json".to_string(),
        commitment: Commitment::Confirmed,
    };
    assert_eq!(file.commitment, Commitment::Confirmed);
    assert_eq!(file.json_rpc_url, "http://127.0.0.1:8899");
}
