use mainboard::power::{PowerControllerError, PowerControllerMode, PowerRequest};
use mainboard::power_task::{PowerHandle, POWER_MAILBOX_CAPACITY};

#[test]
fn transact_pairs_request_and_response() {
    let mut h = PowerHandle::new();
    let rounds = [
        (PowerRequest::SetMode(PowerControllerMode::Charging), Ok(())),
        (PowerRequest::CheckInterrupt, Err(PowerControllerError::I2cBusError)),
    ];
    for (req, resp) in rounds {
        assert_eq!(h.transact(req), Ok(()));
        assert_eq!(h.recv_response(), None);
        let got = h.recv_request().unwrap();
        assert_eq!(got, req);
        assert_eq!(h.recv_request(), None);
        assert_eq!(h.send_response(resp), Ok(()));
        assert_eq!(h.recv_response(), Some(resp));
        assert_eq!(h.recv_response(), None);
    }
}

#[test]
fn requests_leave_in_order() {
    let mut h = PowerHandle::new();
    assert_eq!(h.set_boost_converter(true), Ok(()));
    assert_eq!(h.set_mode(PowerControllerMode::Otg), Ok(()));
    assert_eq!(h.check_interrupt(), Ok(()));
    assert_eq!(h.recv_request(), Some(PowerRequest::EnableBoostConverter(true)));
    assert_eq!(h.recv_request(), Some(PowerRequest::SetMode(PowerControllerMode::Otg)));
    assert_eq!(h.recv_request(), Some(PowerRequest::CheckInterrupt));
    assert_eq!(h.recv_request(), None);
}

#[test]
fn full_mailbox_returns_request() {
    let mut h = PowerHandle::new();
    assert_eq!(h.state(), None);
    for _ in 0..POWER_MAILBOX_CAPACITY {
        assert_eq!(h.check_interrupt(), Ok(()));
    }
    assert_eq!(h.set_boost_converter(true), Err(PowerRequest::EnableBoostConverter(true)));
    assert_eq!(h.recv_request(), Some(PowerRequest::CheckInterrupt));
    assert_eq!(h.set_boost_converter(true), Ok(()));
    for _ in 0..POWER_MAILBOX_CAPACITY {
        assert_eq!(h.send_response(Ok(())), Ok(()));
    }
    assert_eq!(h.send_response(Ok(())), Err(Ok(())));
}
