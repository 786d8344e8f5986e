use quasar_rs::cluster::{Cluster, PURGE_TIMEOUT_MS, TRIM_TIMEOUT_MS};
use quasar_rs::error::ErrorType;
use quasar_rs::handle::{Call, HandleState, HandleType};

fn connected() -> HandleType {
    let mut handle = HandleType::new();
    let call = handle.open(0).unwrap();
    assert_eq!(handle.settle(&call, 0), None);
    let call = handle.connect("qdb://127.0.0.1:2836").unwrap();
    assert_eq!(handle.settle(&call, 0), None);
    handle
}

#[test]
fn cluster_asks_for_its_operations_on_a_connected_handle() {
    let cluster = Cluster::new(connected());
    assert_eq!(cluster.PurgeAll(PURGE_TIMEOUT_MS), Ok(Call::PurgeAll { timeout_ms: 60000 }));
    assert_eq!(cluster.PurgeCache(PURGE_TIMEOUT_MS), Ok(Call::PurgeCache { timeout_ms: 60000 }));
    assert_eq!(cluster.TrimAll(TRIM_TIMEOUT_MS), Ok(Call::TrimAll { timeout_ms: 3600000 }));
    assert_eq!(
        cluster.WaitForStabilization(250),
        Ok(Call::WaitForStabilization { timeout_ms: 250 })
    );
    assert_eq!(cluster.Endpoints(), Ok(Call::ClusterEndpoints));
}

#[test]
fn cluster_fails_fast_on_a_handle_that_is_not_open() {
    let cluster = Cluster::new(HandleType::new());
    assert_eq!(cluster.PurgeAll(1), Err(ErrorType::ErrNotConnected));
    assert_eq!(cluster.PurgeCache(1), Err(ErrorType::ErrNotConnected));
    assert_eq!(cluster.TrimAll(1), Err(ErrorType::ErrNotConnected));
    assert_eq!(cluster.WaitForStabilization(1), Err(ErrorType::ErrNotConnected));
    assert_eq!(cluster.Endpoints(), Err(ErrorType::ErrNotConnected));

    let mut handle = connected();
    let call = handle.close().unwrap();
    handle.settle(&call, 0);
    let cluster = Cluster::new(handle);
    assert_eq!(cluster.PurgeAll(1), Err(ErrorType::ErrNotConnected));
    assert_eq!(cluster.Endpoints(), Err(ErrorType::ErrNotConnected));
}

#[test]
fn cluster_fails_fast_on_a_handle_that_is_open_and_not_connected() {
    let mut handle = HandleType::new();
    let call = handle.open(0).unwrap();
    assert_eq!(handle.settle(&call, 0), None);
    let mut cluster = Cluster::new(handle);
    assert_eq!(cluster.PurgeAll(1), Err(ErrorType::ErrNotConnected));
    assert_eq!(cluster.PurgeCache(1), Err(ErrorType::ErrNotConnected));
    assert_eq!(cluster.TrimAll(1), Err(ErrorType::ErrNotConnected));
    assert_eq!(cluster.WaitForStabilization(1), Err(ErrorType::ErrNotConnected));
    assert_eq!(cluster.Endpoints(), Err(ErrorType::ErrNotConnected));
    assert_eq!(cluster.settle(&Call::ClusterEndpoints, 0), Some(ErrorType::ErrNotConnected));
    assert_eq!(cluster.into_handle().state(), HandleState::Opened);
}

#[test]
fn cluster_reports_what_its_calls_come_to() {
    let mut cluster = Cluster::new(connected());
    let call = cluster.PurgeAll(PURGE_TIMEOUT_MS).unwrap();
    assert_eq!(cluster.settle(&call, 0), None);
    assert_eq!(cluster.settle(&call, -1308622802), Some(ErrorType::ErrOperationDisabled));
    let call = cluster.WaitForStabilization(10).unwrap();
    assert_eq!(cluster.settle(&call, -771751926), Some(ErrorType::ErrTimeout));
    assert_eq!(cluster.settle(&call, -771751918), Some(ErrorType::ErrUnstableCluster));
    let handle = cluster.into_handle();
    assert_eq!(handle.state(), HandleState::Connected);
}

#[test]
fn purge_and_trim_have_their_usual_time() {
    assert_eq!(PURGE_TIMEOUT_MS, 60 * 1000);
    assert_eq!(TRIM_TIMEOUT_MS, 60 * 60 * 1000);
}
