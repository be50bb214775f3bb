use adm_updater::comms::{ApiResponse, PipeError};
use adm_updater::exchange::{send_message_and_get_reply, Exchange, ExchangeEvent, ExchangeStep};

fn refused(detail: &str) -> ExchangeEvent {
    ExchangeEvent::ConnectFailed { detail: detail.to_string() }
}

fn finish(exchange: &Exchange) -> Result<ApiResponse, PipeError> {
    assert_eq!(exchange.pending(), ExchangeStep::Done);
    exchange.result().unwrap()
}

#[test]
fn test_message_capabilities() {
    let mut exchange = send_message_and_get_reply("--alive", 5000, "sam");
    assert_eq!(exchange.timeout(), 5000);
    assert_eq!(exchange.request_address(), "\\\\.\\pipe\\admpipe_request_sam");
    let body = exchange.body();
    let (command, id) = body.split_once('\n').unwrap();
    assert_eq!(command, "--alive");
    assert_eq!(exchange.response_address(), format!("\\\\.\\pipe\\admpipe_response_{}", id));
    assert_eq!(exchange.pending(), ExchangeStep::ConnectRequest);
    exchange = exchange.advance(ExchangeEvent::Connected);
    assert_eq!(exchange.pending(), ExchangeStep::Write);
    exchange = exchange.advance(ExchangeEvent::Written);
    assert_eq!(exchange.pending(), ExchangeStep::ConnectResponse);
    exchange = exchange.advance(ExchangeEvent::Connected);
    assert_eq!(exchange.pending(), ExchangeStep::Read);
    let reply = "Ok\nAdmApiDataRow=alive".as_bytes().to_vec();
    exchange = exchange.advance(ExchangeEvent::Received { bytes: reply });
    let response = finish(&exchange).unwrap();
    println!("{:?}", response);
    assert_eq!(response.status_code, "Ok");
    assert_eq!(response.message, "alive");
    assert_eq!(response.details, "");
}

#[test]
fn every_exchange_gets_its_own_response_channel() {
    let a = send_message_and_get_reply("--alive", 1000, "sam").response_address();
    let b = send_message_and_get_reply("--alive", 1000, "sam").response_address();
    let c = send_message_and_get_reply("--alive", 1000, "sam").response_address();
    assert!(a != b || b != c);
    assert_eq!(a.len(), "\\\\.\\pipe\\admpipe_response_rust_".len() + 10);
}

#[test]
fn no_listener_gives_a_timeout_after_the_full_window() {
    let mut exchange = Exchange::start("--alive", 5000, "sam", "rust_0000000000");
    let mut attempts = 0;
    let mut waited: u64 = 0;
    loop {
        match exchange.pending() {
            ExchangeStep::ConnectRequest => {
                attempts += 1;
                exchange = exchange.advance(refused(&format!("attempt {}", attempts)));
            }
            ExchangeStep::PauseRequest => {
                waited += exchange.pause_ms() as u64;
                exchange = exchange.advance(ExchangeEvent::Paused);
            }
            ExchangeStep::Done => break,
            other => panic!("unexpected step {:?}", other),
        }
    }
    assert_eq!(attempts, 50);
    assert_eq!(waited, 5000);
    let e = finish(&exchange).unwrap_err();
    assert!(e.is_timeout);
    assert_eq!(e.message, "attempt 50");
}

#[test]
fn a_timeout_that_is_no_multiple_of_the_interval_is_rounded_down() {
    let mut exchange = Exchange::start("--alive", 250, "sam", "rust_0000000000");
    exchange = exchange.advance(refused("first"));
    assert_eq!(exchange.pending(), ExchangeStep::PauseRequest);
    exchange = exchange.advance(ExchangeEvent::Paused);
    assert_eq!(exchange.pending(), ExchangeStep::ConnectRequest);
    exchange = exchange.advance(refused("second"));
    assert_eq!(exchange.pending(), ExchangeStep::PauseRequest);
    assert!(exchange.result().is_none());
    exchange = exchange.advance(ExchangeEvent::Paused);
    let e = finish(&exchange).unwrap_err();
    assert!(e.is_timeout);
    assert_eq!(e.message, "second");
}

#[test]
fn a_timeout_below_the_interval_never_connects() {
    let exchange = Exchange::start("--alive", 99, "sam", "rust_0000000000");
    let e = finish(&exchange).unwrap_err();
    assert!(e.is_timeout);
    assert_eq!(e.message, "never connected");
    let exchange = Exchange::start("--alive", 0, "sam", "rust_0000000000");
    assert!(finish(&exchange).unwrap_err().is_timeout);
    let exchange = Exchange::start("--alive", 100, "sam", "rust_0000000000");
    assert_eq!(exchange.pending(), ExchangeStep::ConnectRequest);
}

#[test]
fn a_connection_after_failed_attempts_goes_on() {
    let mut exchange = Exchange::start("--exit", 3000, "sam", "rust_0000000000");
    exchange = exchange.advance(refused("busy"));
    exchange = exchange.advance(ExchangeEvent::Paused);
    exchange = exchange.advance(ExchangeEvent::Connected);
    assert_eq!(exchange.pending(), ExchangeStep::Write);
    assert_eq!(exchange.body(), "--exit\nrust_0000000000");
}

#[test]
fn a_failed_write_is_an_error_but_no_timeout() {
    let mut exchange = Exchange::start("--exit", 3000, "sam", "rust_0000000000");
    exchange = exchange.advance(ExchangeEvent::Connected);
    exchange = exchange.advance(ExchangeEvent::WriteFailed { detail: "broken pipe".to_string() });
    let e = finish(&exchange).unwrap_err();
    assert!(!e.is_timeout);
    assert_eq!(e.message, "broken pipe");
}

#[test]
fn a_listener_that_never_replies_is_an_error_but_no_timeout() {
    let mut exchange = Exchange::start("--alive", 1000, "sam", "rust_0000000000");
    exchange = exchange.advance(ExchangeEvent::Connected);
    exchange = exchange.advance(ExchangeEvent::Written);
    exchange = exchange.advance(ExchangeEvent::Connected);
    assert_eq!(exchange.pending(), ExchangeStep::Read);
    exchange = exchange.advance(ExchangeEvent::ReadFailed { detail: "timed out".to_string() });
    let e = finish(&exchange).unwrap_err();
    assert!(!e.is_timeout);
    assert_eq!(e.message, "timed out");
}

#[test]
fn a_response_channel_that_never_opens_is_a_timeout() {
    let mut exchange = Exchange::start("--alive", 200, "sam", "rust_0000000000");
    exchange = exchange.advance(ExchangeEvent::Connected);
    exchange = exchange.advance(ExchangeEvent::Written);
    assert_eq!(exchange.pending(), ExchangeStep::ConnectResponse);
    exchange = exchange.advance(refused("not found"));
    assert_eq!(exchange.pending(), ExchangeStep::PauseResponse);
    exchange = exchange.advance(ExchangeEvent::Paused);
    exchange = exchange.advance(refused("still not found"));
    exchange = exchange.advance(ExchangeEvent::Paused);
    let e = finish(&exchange).unwrap_err();
    assert!(e.is_timeout);
    assert_eq!(e.message, "still not found");
}

#[test]
fn a_reply_that_is_no_text_is_an_error_but_no_timeout() {
    let mut exchange = Exchange::start("--alive", 1000, "sam", "rust_0000000000");
    exchange = exchange.advance(ExchangeEvent::Connected);
    exchange = exchange.advance(ExchangeEvent::Written);
    exchange = exchange.advance(ExchangeEvent::Connected);
    exchange = exchange.advance(ExchangeEvent::Received { bytes: vec![0xc3, 0x28] });
    let e = finish(&exchange).unwrap_err();
    assert!(!e.is_timeout);
}

#[test]
fn an_event_that_answers_nothing_changes_nothing() {
    let mut exchange = Exchange::start("--alive", 1000, "sam", "rust_0000000000");
    exchange = exchange.advance(ExchangeEvent::Paused);
    exchange = exchange.advance(ExchangeEvent::Written);
    exchange = exchange.advance(ExchangeEvent::Received { bytes: vec![] });
    assert_eq!(exchange.pending(), ExchangeStep::ConnectRequest);
    assert!(exchange.result().is_none());
    let mut done = Exchange::start("--alive", 0, "sam", "rust_0000000000");
    done = done.advance(ExchangeEvent::Connected);
    assert_eq!(done.pending(), ExchangeStep::Done);
    assert!(done.result().unwrap().unwrap_err().is_timeout);
}
