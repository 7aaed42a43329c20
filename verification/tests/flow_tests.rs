use deso_client::crypto_lib::sign;
use deso_client::errors::DesoError;
use deso_client::flow::{FlowAction, FlowEvent, FlowState, SubmitFlow};
use deso_client::{DesoAccountBuilder, Node};

const SEED_HEX: &str = "1111111111111111111111111111111111111111111111111111111111111111";
const TX_HEX: &str = "01020300aabb";

fn account(derived: Option<&str>) -> deso_client::DesoAccount {
    let mut b = DesoAccountBuilder::new()
        .public_key(String::from("BC1YLexample"))
        .seed_hex_key(String::from(SEED_HEX))
        .node(Node::TEST);
    if let Some(d) = derived {
        b = b.derived_public_key(String::from(d));
    }
    b.build().unwrap()
}

#[test]
fn full_pipeline_reaches_a_confirmed_success() {
    let flow = SubmitFlow::new(&account(None), 1);
    assert!(matches!(flow.state, FlowState::SubmitRequested));

    // The submit-post endpoint answers with the unsigned transaction hex.
    let (flow, action) = flow.on_event(FlowEvent::TransactionHex(String::from(TX_HEX)));
    match &action {
        FlowAction::RequestSignatureIndex { transaction_hex } => {
            assert_eq!(transaction_hex, TX_HEX)
        }
        _ => panic!("expected a signature-index request"),
    }

    // The signature-index endpoint answers; the machine signs locally.
    let (flow, action) = flow.on_event(FlowEvent::SignatureIndex(3));
    let expected_signed = sign(String::from(TX_HEX), String::from(SEED_HEX), 3).unwrap();
    match &action {
        FlowAction::RequestSubmitTransaction {
            transaction_hex,
            delay_seconds,
        } => {
            assert_eq!(transaction_hex, &expected_signed);
            assert_eq!(*delay_seconds, 0);
        }
        _ => panic!("expected a submit-transaction request"),
    }

    // The node accepts the transaction; the machine starts polling after
    // one second.
    let (flow, action) = flow.on_event(FlowEvent::Submitted {
        response: String::from("{\"TxnHashHex\":\"cafe\"}"),
        txn_hash_hex: String::from("cafe"),
    });
    match &action {
        FlowAction::RequestGetTxn {
            txn_hash_hex,
            delay_seconds,
        } => {
            assert_eq!(txn_hash_hex, "cafe");
            assert_eq!(*delay_seconds, 1);
        }
        _ => panic!("expected a get-txn poll"),
    }

    // Two unsuccessful polls double the delay each time.
    let (flow, action) = flow.on_event(FlowEvent::TxnFound(false));
    match &action {
        FlowAction::RequestGetTxn { delay_seconds, .. } => assert_eq!(*delay_seconds, 2),
        _ => panic!("expected a second poll"),
    }
    let (flow, action) = flow.on_event(FlowEvent::PollFailed);
    match &action {
        FlowAction::RequestGetTxn { delay_seconds, .. } => assert_eq!(*delay_seconds, 4),
        _ => panic!("expected a third poll"),
    }

    // The node reports the transaction as found.
    let (flow, action) = flow.on_event(FlowEvent::TxnFound(true));
    match action {
        FlowAction::Succeed {
            response,
            confirmed,
        } => {
            assert_eq!(response, "{\"TxnHashHex\":\"cafe\"}");
            assert!(confirmed);
        }
        _ => panic!("expected the confirmed success"),
    }
    assert!(matches!(flow.state, FlowState::Finished));

    // A terminal machine ignores anything further.
    let (flow, action) = flow.on_event(FlowEvent::TxnFound(true));
    assert!(matches!(action, FlowAction::Ignore));
    assert!(matches!(flow.state, FlowState::Finished));
}

#[test]
fn derived_key_is_appended_before_the_signature_index() {
    let flow = SubmitFlow::new(&account(Some("BC1YLderived")), 1);
    let (flow, action) = flow.on_event(FlowEvent::TransactionHex(String::from(TX_HEX)));
    match &action {
        FlowAction::RequestAppendExtraData {
            transaction_hex,
            derived_public_key,
        } => {
            assert_eq!(transaction_hex, TX_HEX);
            assert_eq!(derived_public_key, "BC1YLderived");
        }
        _ => panic!("expected an append-extra-data request"),
    }
    assert!(matches!(flow.state, FlowState::AppendRequested));

    // The amended hex is what goes to the signature-index endpoint.
    let (_, action) = flow.on_event(FlowEvent::TransactionHex(String::from("0102030400aabb")));
    match &action {
        FlowAction::RequestSignatureIndex { transaction_hex } => {
            assert_eq!(transaction_hex, "0102030400aabb")
        }
        _ => panic!("expected a signature-index request"),
    }
}

#[test]
fn submit_retries_with_exponential_backoff_then_fails() {
    let flow = SubmitFlow::new(&account(None), 2);
    let (flow, _) = flow.on_event(FlowEvent::TransactionHex(String::from(TX_HEX)));
    let (flow, _) = flow.on_event(FlowEvent::SignatureIndex(3));

    // First attempt fails: retry after 2^1 seconds.
    let (flow, action) = flow.on_event(FlowEvent::SubmitFailed);
    match &action {
        FlowAction::RequestSubmitTransaction { delay_seconds, .. } => {
            assert_eq!(*delay_seconds, 2)
        }
        _ => panic!("expected a retry"),
    }

    // Second attempt fails: the retry budget is spent.
    let (flow, action) = flow.on_event(FlowEvent::SubmitFailed);
    match action {
        FlowAction::Fail { error } => {
            assert_eq!(
                error.message(),
                "Problem Sending `posting` Transaction: `Transaction Failed :/`"
            );
        }
        _ => panic!("expected the failure"),
    }
    assert!(matches!(flow.state, FlowState::Failed));
}

#[test]
fn seven_unsuccessful_polls_end_unconfirmed() {
    let flow = SubmitFlow::new(&account(None), 1);
    let (flow, _) = flow.on_event(FlowEvent::TransactionHex(String::from(TX_HEX)));
    let (flow, _) = flow.on_event(FlowEvent::SignatureIndex(3));
    let (mut flow, action) = flow.on_event(FlowEvent::Submitted {
        response: String::from("ok"),
        txn_hash_hex: String::from("cafe"),
    });
    match &action {
        FlowAction::RequestGetTxn { delay_seconds, .. } => assert_eq!(*delay_seconds, 1),
        _ => panic!("expected the first poll"),
    }

    // Six more polls come back empty, with doubling delays.
    for expected_delay in [2u64, 4, 8, 16, 32, 64] {
        let (next, action) = flow.on_event(FlowEvent::TxnFound(false));
        flow = next;
        match &action {
            FlowAction::RequestGetTxn { delay_seconds, .. } => {
                assert_eq!(*delay_seconds, expected_delay)
            }
            _ => panic!("expected another poll"),
        }
    }

    // The seventh outcome spends the budget: success, unconfirmed.
    let (flow, action) = flow.on_event(FlowEvent::TxnFound(false));
    match action {
        FlowAction::Succeed {
            response,
            confirmed,
        } => {
            assert_eq!(response, "ok");
            assert!(!confirmed);
        }
        _ => panic!("expected the unconfirmed success"),
    }
    assert!(matches!(flow.state, FlowState::Finished));
}

#[test]
fn empty_transaction_hash_fails_the_flow() {
    let flow = SubmitFlow::new(&account(None), 1);
    let (flow, _) = flow.on_event(FlowEvent::TransactionHex(String::from(TX_HEX)));
    let (flow, _) = flow.on_event(FlowEvent::SignatureIndex(3));
    let (flow, action) = flow.on_event(FlowEvent::Submitted {
        response: String::from("ok"),
        txn_hash_hex: String::new(),
    });
    match action {
        FlowAction::Fail { error } => {
            assert!(matches!(error, DesoError::TransactionError(_, _)));
        }
        _ => panic!("expected the failure"),
    }
    assert!(matches!(flow.state, FlowState::Failed));
}

#[test]
fn invalid_seed_fails_at_signing_time() {
    let account = DesoAccountBuilder::new()
        .public_key(String::from("BC1YLexample"))
        .seed_hex_key(String::from("not hex at all"))
        .build()
        .unwrap();
    let flow = SubmitFlow::new(&account, 1);
    let (flow, _) = flow.on_event(FlowEvent::TransactionHex(String::from(TX_HEX)));
    let (flow, action) = flow.on_event(FlowEvent::SignatureIndex(3));
    match action {
        FlowAction::Fail { error } => {
            assert!(matches!(error, DesoError::SigningError(_)));
        }
        _ => panic!("expected a signing failure"),
    }
    assert!(matches!(flow.state, FlowState::Failed));
}

#[test]
fn transport_error_at_submit_post_names_the_step() {
    let flow = SubmitFlow::new(&account(None), 1);
    let (flow, action) = flow.on_event(FlowEvent::TransportError(String::from("boom")));
    match action {
        FlowAction::Fail { error } => {
            assert_eq!(
                error.message(),
                "Problem Sending `posting` Transaction: `Error on Post: boom`"
            );
        }
        _ => panic!("expected the failure"),
    }
    assert!(matches!(flow.state, FlowState::Failed));
}

#[test]
fn parse_error_at_submit_post_carries_the_body() {
    let flow = SubmitFlow::new(&account(None), 1);
    let (_, action) = flow.on_event(FlowEvent::ParseError {
        body: String::from("<html>"),
        detail: String::from("expected value"),
    });
    match action {
        FlowAction::Fail { error } => {
            assert_eq!(
                error.message(),
                "Problem Sending `posting` Transaction: `Problem in Response: <html>; expected value`"
            );
        }
        _ => panic!("expected the failure"),
    }
}

#[test]
fn append_failure_wraps_the_underlying_error() {
    let flow = SubmitFlow::new(&account(Some("BC1YLderived")), 1);
    let (flow, _) = flow.on_event(FlowEvent::TransactionHex(String::from(TX_HEX)));
    let (_, action) = flow.on_event(FlowEvent::TransportError(String::from("boom")));
    match action {
        FlowAction::Fail { error } => {
            assert_eq!(
                error.message(),
                "Problem Sending `Error appending derived public key tx` Transaction: \
                 `Reqwest parsing text error: `boom``"
            );
        }
        _ => panic!("expected the wrapped failure"),
    }
}

#[test]
fn index_parse_error_names_the_index_step() {
    let flow = SubmitFlow::new(&account(None), 1);
    let (flow, _) = flow.on_event(FlowEvent::TransactionHex(String::from(TX_HEX)));
    let (_, action) = flow.on_event(FlowEvent::ParseError {
        body: String::from("<html>"),
        detail: String::from("expected value"),
    });
    match action {
        FlowAction::Fail { error } => {
            assert_eq!(
                error.message(),
                "Problem Getting Index: `Problem parsing index response: expected value`"
            );
        }
        _ => panic!("expected the failure"),
    }
}

#[test]
fn retry_of_zero_never_submits() {
    let flow = SubmitFlow::new(&account(None), 0);
    let (flow, _) = flow.on_event(FlowEvent::TransactionHex(String::from(TX_HEX)));
    let (flow, action) = flow.on_event(FlowEvent::SignatureIndex(3));
    match action {
        FlowAction::Fail { error } => {
            assert_eq!(
                error.message(),
                "Problem Sending `posting` Transaction: `Transaction Failed :/`"
            );
        }
        _ => panic!("expected the failure"),
    }
    assert!(matches!(flow.state, FlowState::Failed));
}

#[test]
fn mismatched_events_are_ignored() {
    let flow = SubmitFlow::new(&account(None), 1);
    let (flow, action) = flow.on_event(FlowEvent::TxnFound(true));
    assert!(matches!(action, FlowAction::Ignore));
    assert!(matches!(flow.state, FlowState::SubmitRequested));
}
