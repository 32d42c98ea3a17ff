use runtime::connect::{next_connect_step, ConnectStep};
use runtime::session::ClientError;

#[test]
fn connect_retries_until_deadline() {
    assert_eq!(next_connect_step(0, 1000, 100), ConnectStep::RetryAfter(100));
    assert_eq!(next_connect_step(950, 1000, 100), ConnectStep::RetryAfter(50));
    assert_eq!(next_connect_step(1000, 1000, 100), ConnectStep::GiveUp(ClientError::ConnectTimeout));
    assert_eq!(next_connect_step(1500, 1000, 100), ConnectStep::GiveUp(ClientError::ConnectTimeout));
}

#[test]
fn connect_timeout_after_about_the_deadline() {
    // Nothing listens: every attempt fails at once. The waits add up to the
    // deadline exactly, so giving up takes about one second, not zero.
    let mut elapsed: u64 = 0;
    let mut attempts = 0;
    loop {
        attempts += 1;
        match next_connect_step(elapsed, 1000, 300) {
            ConnectStep::RetryAfter(ms) => elapsed += ms,
            ConnectStep::GiveUp(e) => {
                assert_eq!(e, ClientError::ConnectTimeout);
                break;
            }
        }
    }
    assert_eq!(elapsed, 1000);
    assert_eq!(attempts, 5);
}

#[test]
fn connect_zero_timeout_gives_up_at_once() {
    assert_eq!(next_connect_step(0, 0, 100), ConnectStep::GiveUp(ClientError::ConnectTimeout));
}
