use bandwidth_monitor::greeting::{hello, BandwidthMonitorError};

#[test]
fn hello_world_error() {
    assert_eq!(
        hello("World"),
        Err(BandwidthMonitorError::HelloWorldError("World".to_string()))
    );
    assert_eq!(
        hello("wOrld"),
        Err(BandwidthMonitorError::HelloWorldError("wOrld".to_string()))
    );
}

#[test]
fn hello_world_success() {
    assert_eq!(hello("Semptic"), Ok(()));
}

#[test]
fn hello_lowercases_before_comparing() {
    assert_eq!(
        hello("WORLD"),
        Err(BandwidthMonitorError::HelloWorldError("WORLD".to_string()))
    );
    assert_eq!(hello("world peace"), Ok(()));
}
