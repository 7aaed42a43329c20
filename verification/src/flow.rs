//! The submit-and-sign exchange with a node, as a state machine.
//!
//! A post transaction goes through a fixed sequence of requests: submit the
//! payload, optionally append the derived public key as extra data, fetch
//! the signature index, sign locally, submit the signed transaction with a
//! bounded retry, and poll until the node reports the transaction as found
//! or the poll budget runs out. The machine decides each step from the
//! current state and the observed outcome of the last request; the caller
//! performs the requests and the waits.

use vstd::prelude::*;
use vstd::string::StringExecFns;
use crate::DesoAccount;
use crate::errors::{message_spec, DesoError};
use crate::crypto_lib::{sign, sign_accepts, signed_transaction_hex};

verus! {

/// Where the exchange stands.
pub enum FlowState {
    /// The post payload is with the submit-post endpoint; awaiting the
    /// unsigned transaction hex.
    SubmitRequested,
    /// The transaction hex is with the append-extra-data endpoint; awaiting
    /// the amended hex.
    AppendRequested,
    /// The transaction hex is with the signature-index endpoint; awaiting
    /// the index.
    IndexRequested { transaction_hex: String },
    /// The signed transaction is with the submit-transaction endpoint;
    /// `attempts` counts the requests issued so far.
    SubmitAttempted { transaction_hex: String, attempts: u8 },
    /// The transaction hash is being polled on the get-txn endpoint;
    /// `polls` counts the polls that have come back.
    Polling { txn_hash_hex: String, response_message: String, polls: u8 },
    /// The exchange ended with a response for the caller.
    Finished,
    /// The exchange ended in an error.
    Failed,
}

/// What the caller observed of the last request.
pub enum FlowEvent {
    /// The endpoint answered with a transaction hex.
    TransactionHex(String),
    /// The signature-index endpoint answered with an index.
    SignatureIndex(u32),
    /// The submit-transaction endpoint accepted: the raw response body and
    /// the transaction hash it carried.
    Submitted { response: String, txn_hash_hex: String },
    /// The submit-transaction endpoint accepted, but its body did not parse.
    SubmittedUnparsed { detail: String },
    /// The submit-transaction request failed, whether in transport or by a
    /// rejection from the node.
    SubmitFailed,
    /// The get-txn endpoint answered whether the transaction was found.
    TxnFound(bool),
    /// The get-txn request failed or its body did not parse.
    PollFailed,
    /// The request failed in transport.
    TransportError(String),
    /// The response body could not be read.
    BodyError(String),
    /// The response body could not be parsed as the expected record.
    ParseError { body: String, detail: String },
}

/// What the caller should do next.
pub enum FlowAction {
    /// POST the transaction hex with the derived key to append-extra-data.
    RequestAppendExtraData { transaction_hex: String, derived_public_key: String },
    /// POST the transaction hex to signature-index.
    RequestSignatureIndex { transaction_hex: String },
    /// Wait `delay_seconds`, then POST the signed hex to submit-transaction.
    RequestSubmitTransaction { transaction_hex: String, delay_seconds: u64 },
    /// Wait `delay_seconds`, then POST the hash to get-txn.
    RequestGetTxn { txn_hash_hex: String, delay_seconds: u64 },
    /// The exchange is over: hand the response to the caller. `confirmed`
    /// says whether the node ever reported the transaction as found.
    Succeed { response: String, confirmed: bool },
    /// The exchange is over: hand the error to the caller.
    Fail { error: DesoError },
    /// The event does not belong to the current state; nothing to do.
    Ignore,
}

/// The failure reported when the signed transaction never got through.
pub open spec fn is_transaction_failed(a: FlowAction) -> bool {
    a matches FlowAction::Fail { error: DesoError::TransactionError(k, d) } && k@ == "posting"@
        && d@ == "Transaction Failed :/"@
}

/// The failure reported when appending the derived key failed for the
/// given underlying error.
pub open spec fn is_append_failure(a: FlowAction, inner: DesoError) -> bool {
    a matches FlowAction::Fail { error: DesoError::TransactionError(k, d) } && k@
        == "Error appending derived public key tx"@ && d@ == message_spec(inner)
}

/// The submit-and-sign exchange for one post transaction.
pub struct SubmitFlow {
    /// The seed hex key that signs the transaction.
    pub seed_hex_key: String,
    /// The derived public key to embed as extra data, if one is in use.
    pub derived_public_key: Option<String>,
    /// How many submit-transaction attempts to make.
    pub retry: u8,
    /// Where the exchange stands.
    pub state: FlowState,
}

impl SubmitFlow {
    /// The machine's internal bounds: the retry count leaves room for the
    /// exponential backoff, submit attempts never pass the retry count, and
    /// polls never pass the poll budget.
    pub open spec fn wf(self) -> bool {
        &&& self.retry < 64
        &&& match self.state {
            FlowState::SubmitAttempted { attempts, .. } => 1 <= attempts <= self.retry,
            FlowState::Polling { polls, .. } => polls < 7,
            _ => true,
        }
    }

    /// A flow for one post transaction signed with the account's key,
    /// starting from the submit-post request the caller is about to make.
    pub fn new(account: &DesoAccount, retry: u8) -> (r: SubmitFlow)
        requires
            retry < 64,
        ensures
            r.wf(),
            r.seed_hex_key == account.seed_hex_key,
            r.derived_public_key == account.derived_public_key,
            r.retry == retry,
            r.state is SubmitRequested,
    {
        let derived = match &account.derived_public_key {
            Some(k) => Some(k.clone()),
            None => None,
        };
        SubmitFlow {
            seed_hex_key: account.seed_hex_key.clone(),
            derived_public_key: derived,
            retry,
            state: FlowState::SubmitRequested,
        }
    }
}

/// The transition relation of the exchange: from the machine `pre` and the
/// observed event, the state and action that follow.
pub open spec fn transition(
    pre: SubmitFlow,
    event: FlowEvent,
    post: FlowState,
    action: FlowAction,
) -> bool {
    match (pre.state, event) {
        (FlowState::SubmitRequested, FlowEvent::TransactionHex(h)) => match pre
            .derived_public_key {
            Some(key) => {
                &&& post is AppendRequested
                &&& action matches FlowAction::RequestAppendExtraData {
                    transaction_hex: t,
                    derived_public_key: k,
                } && t == h && k@ == key@
            },
            None => {
                &&& post matches FlowState::IndexRequested { transaction_hex: t } && t == h
                &&& action matches FlowAction::RequestSignatureIndex { transaction_hex: t2 } && t2@
                    == h@
            },
        },
        (FlowState::SubmitRequested, FlowEvent::TransportError(m)) => {
            &&& post is Failed
            &&& action matches FlowAction::Fail { error: DesoError::TransactionError(k, d) } && k@
                == "posting"@ && d@ == "Error on Post: "@ + m@
        },
        (FlowState::SubmitRequested, FlowEvent::BodyError(m)) => {
            &&& post is Failed
            &&& action matches FlowAction::Fail { error: DesoError::ReqwestError(d) } && d == m
        },
        (FlowState::SubmitRequested, FlowEvent::ParseError { body, detail }) => {
            &&& post is Failed
            &&& action matches FlowAction::Fail { error: DesoError::TransactionError(k, d) } && k@
                == "posting"@ && d@ == "Problem in Response: "@ + body@ + "; "@ + detail@
        },
        (FlowState::AppendRequested, FlowEvent::TransactionHex(h)) => {
            &&& post matches FlowState::IndexRequested { transaction_hex: t } && t == h
            &&& action matches FlowAction::RequestSignatureIndex { transaction_hex: t2 } && t2@
                == h@
        },
        (FlowState::AppendRequested, FlowEvent::TransportError(m)) => {
            &&& post is Failed
            &&& is_append_failure(action, DesoError::ReqwestError(m))
        },
        (FlowState::AppendRequested, FlowEvent::BodyError(m)) => {
            &&& post is Failed
            &&& is_append_failure(action, DesoError::ReqwestError(m))
        },
        (FlowState::AppendRequested, FlowEvent::ParseError { body: _, detail }) => {
            &&& post is Failed
            &&& action matches FlowAction::Fail { error: DesoError::TransactionError(k, d) } && k@
                == "Error appending derived public key tx"@ && d@ == "Serde Json Error at `"@
                + "APPEND DATA"@ + "`: `"@ + detail@ + "`"@
        },
        (FlowState::IndexRequested { transaction_hex: h }, FlowEvent::SignatureIndex(idx)) => {
            if sign_accepts(h@, pre.seed_hex_key@, idx as int) {
                if pre.retry == 0 {
                    &&& post is Failed
                    &&& is_transaction_failed(action)
                } else {
                    &&& post matches FlowState::SubmitAttempted {
                        transaction_hex: t,
                        attempts: 1u8,
                    } && t@ == signed_transaction_hex(h@, pre.seed_hex_key@, idx as int)
                    &&& action matches FlowAction::RequestSubmitTransaction {
                        transaction_hex: t2,
                        delay_seconds: 0u64,
                    } && t2@ == signed_transaction_hex(h@, pre.seed_hex_key@, idx as int)
                }
            } else {
                &&& post is Failed
                &&& action matches FlowAction::Fail { error: e } && e is SigningError
            }
        },
        (FlowState::IndexRequested { transaction_hex: _ }, FlowEvent::TransportError(m)) => {
            &&& post is Failed
            &&& action matches FlowAction::Fail { error: DesoError::SigningError(d) } && d@
                == "Problem getting index response: "@ + m@
        },
        (FlowState::IndexRequested { transaction_hex: _ }, FlowEvent::BodyError(m)) => {
            &&& post is Failed
            &&& action matches FlowAction::Fail { error: DesoError::ReqwestError(d) } && d == m
        },
        (
            FlowState::IndexRequested { transaction_hex: _ },
            FlowEvent::ParseError { body: _, detail },
        ) => {
            &&& post is Failed
            &&& action matches FlowAction::Fail { error: DesoError::SigningError(d) } && d@
                == "Problem parsing index response: "@ + detail@
        },
        (
            FlowState::SubmitAttempted { transaction_hex: _, attempts: _ },
            FlowEvent::Submitted { response, txn_hash_hex },
        ) => {
            if txn_hash_hex@.len() == 0 {
                &&& post is Failed
                &&& is_transaction_failed(action)
            } else {
                &&& post matches FlowState::Polling {
                    txn_hash_hex: hh,
                    response_message: rm,
                    polls: 0u8,
                } && hh == txn_hash_hex && rm == response
                &&& action matches FlowAction::RequestGetTxn {
                    txn_hash_hex: hh2,
                    delay_seconds: 1u64,
                } && hh2@ == txn_hash_hex@
            }
        },
        (
            FlowState::SubmitAttempted { transaction_hex: _, attempts: _ },
            FlowEvent::SubmittedUnparsed { detail },
        ) => {
            &&& post is Failed
            &&& action matches FlowAction::Fail { error: DesoError::JsonError(p, d) } && p@
                == "SUBMIT TX"@ && d == detail
        },
        (
            FlowState::SubmitAttempted { transaction_hex: t, attempts: a },
            FlowEvent::SubmitFailed,
        ) => {
            if a < pre.retry {
                &&& post matches FlowState::SubmitAttempted {
                    transaction_hex: t_kept,
                    attempts: a_next,
                } && t_kept == t && a_next == a + 1
                &&& action matches FlowAction::RequestSubmitTransaction {
                    transaction_hex: t2,
                    delay_seconds: d,
                } && t2@ == t@ && d == (1u64 << (a as u64))
            } else {
                &&& post is Failed
                &&& is_transaction_failed(action)
            }
        },
        (
            FlowState::Polling { txn_hash_hex: hh, response_message: rm, polls: p },
            FlowEvent::TxnFound(found),
        ) => {
            if found {
                &&& post is Finished
                &&& action matches FlowAction::Succeed { response, confirmed: true } && response
                    == rm
            } else {
                polling_continues(hh, rm, p, post, action)
            }
        },
        (
            FlowState::Polling { txn_hash_hex: hh, response_message: rm, polls: p },
            FlowEvent::PollFailed,
        ) => polling_continues(hh, rm, p, post, action),
        (st, _) => post == st && action is Ignore,
    }
}

/// After an unsuccessful poll: either the next poll is requested with a
/// doubled delay, or the budget of seven polls is spent and the exchange
/// ends unconfirmed.
pub open spec fn polling_continues(
    hh: String,
    rm: String,
    p: u8,
    post: FlowState,
    action: FlowAction,
) -> bool {
    if p + 1 < 7 {
        &&& post matches FlowState::Polling {
            txn_hash_hex: hh2,
            response_message: rm2,
            polls: p2,
        } && hh2 == hh && rm2 == rm && p2 == p + 1
        &&& action matches FlowAction::RequestGetTxn { txn_hash_hex: hh3, delay_seconds: d } && hh3@
            == hh@ && d == (1u64 << ((p + 1) as u64))
    } else {
        &&& post is Finished
        &&& action matches FlowAction::Succeed { response, confirmed: false } && response == rm
    }
}

impl SubmitFlow {
    /// Feeds the machine the outcome of the last request; the machine moves
    /// to its next state and says what to do next.
    pub fn on_event(self, event: FlowEvent) -> (r: (SubmitFlow, FlowAction))
        requires
            self.wf(),
        ensures
            r.0.wf(),
            r.0.seed_hex_key == self.seed_hex_key,
            r.0.derived_public_key == self.derived_public_key,
            r.0.retry == self.retry,
            transition(self, event, r.0.state, r.1),
    {
        let SubmitFlow { seed_hex_key, derived_public_key, retry, state } = self;
        let (new_state, action) = match (state, event) {
            (FlowState::SubmitRequested, FlowEvent::TransactionHex(h)) => {
                match &derived_public_key {
                    Some(key) => (
                        FlowState::AppendRequested,
                        FlowAction::RequestAppendExtraData {
                            transaction_hex: h,
                            derived_public_key: key.clone(),
                        },
                    ),
                    None => {
                        let h2 = h.clone();
                        (
                            FlowState::IndexRequested { transaction_hex: h },
                            FlowAction::RequestSignatureIndex { transaction_hex: h2 },
                        )
                    },
                }
            },
            (FlowState::SubmitRequested, FlowEvent::TransportError(m)) => (
                FlowState::Failed,
                FlowAction::Fail {
                    error: DesoError::TransactionError(
                        "posting".to_owned(),
                        "Error on Post: ".to_owned().concat(m.as_str()),
                    ),
                },
            ),
            (FlowState::SubmitRequested, FlowEvent::BodyError(m)) => (
                FlowState::Failed,
                FlowAction::Fail { error: DesoError::ReqwestError(m) },
            ),
            (FlowState::SubmitRequested, FlowEvent::ParseError { body, detail }) => {
                let mut d = "Problem in Response: ".to_owned();
                d.append(body.as_str());
                d.append("; ");
                d.append(detail.as_str());
                (
                    FlowState::Failed,
                    FlowAction::Fail { error: DesoError::TransactionError("posting".to_owned(), d) },
                )
            },
            (FlowState::AppendRequested, FlowEvent::TransactionHex(h)) => {
                let h2 = h.clone();
                (
                    FlowState::IndexRequested { transaction_hex: h },
                    FlowAction::RequestSignatureIndex { transaction_hex: h2 },
                )
            },
            (FlowState::AppendRequested, FlowEvent::TransportError(m)) => (
                FlowState::Failed,
                FlowAction::Fail { error: append_failure(DesoError::ReqwestError(m)) },
            ),
            (FlowState::AppendRequested, FlowEvent::BodyError(m)) => (
                FlowState::Failed,
                FlowAction::Fail { error: append_failure(DesoError::ReqwestError(m)) },
            ),
            (FlowState::AppendRequested, FlowEvent::ParseError { body: _, detail }) => (
                FlowState::Failed,
                FlowAction::Fail {
                    error: append_failure(DesoError::JsonError("APPEND DATA".to_owned(), detail)),
                },
            ),
            (
                FlowState::IndexRequested { transaction_hex: h },
                FlowEvent::SignatureIndex(idx),
            ) => {
                match sign(h, seed_hex_key.clone(), idx as usize) {
                    Ok(signed) => {
                        if retry == 0 {
                            (FlowState::Failed, transaction_failed())
                        } else {
                            let s2 = signed.clone();
                            (
                                FlowState::SubmitAttempted {
                                    transaction_hex: signed,
                                    attempts: 1,
                                },
                                FlowAction::RequestSubmitTransaction {
                                    transaction_hex: s2,
                                    delay_seconds: 0,
                                },
                            )
                        }
                    },
                    Err(e) => (FlowState::Failed, FlowAction::Fail { error: e }),
                }
            },
            (
                FlowState::IndexRequested { transaction_hex: _ },
                FlowEvent::TransportError(m),
            ) => (
                FlowState::Failed,
                FlowAction::Fail {
                    error: DesoError::SigningError(
                        "Problem getting index response: ".to_owned().concat(m.as_str()),
                    ),
                },
            ),
            (FlowState::IndexRequested { transaction_hex: _ }, FlowEvent::BodyError(m)) => (
                FlowState::Failed,
                FlowAction::Fail { error: DesoError::ReqwestError(m) },
            ),
            (
                FlowState::IndexRequested { transaction_hex: _ },
                FlowEvent::ParseError { body: _, detail },
            ) => (
                FlowState::Failed,
                FlowAction::Fail {
                    error: DesoError::SigningError(
                        "Problem parsing index response: ".to_owned().concat(detail.as_str()),
                    ),
                },
            ),
            (
                FlowState::SubmitAttempted { transaction_hex: _, attempts: _ },
                FlowEvent::Submitted { response, txn_hash_hex },
            ) => {
                if txn_hash_hex.as_str().is_empty() {
                    (FlowState::Failed, transaction_failed())
                } else {
                    let hh2 = txn_hash_hex.clone();
                    (
                        FlowState::Polling {
                            txn_hash_hex,
                            response_message: response,
                            polls: 0,
                        },
                        FlowAction::RequestGetTxn { txn_hash_hex: hh2, delay_seconds: 1 },
                    )
                }
            },
            (
                FlowState::SubmitAttempted { transaction_hex: _, attempts: _ },
                FlowEvent::SubmittedUnparsed { detail },
            ) => (
                FlowState::Failed,
                FlowAction::Fail { error: DesoError::JsonError("SUBMIT TX".to_owned(), detail) },
            ),
            (
                FlowState::SubmitAttempted { transaction_hex: t, attempts: a },
                FlowEvent::SubmitFailed,
            ) => {
                if a < retry {
                    let t2 = t.clone();
                    let delay: u64 = 1u64 << (a as u64);
                    (
                        FlowState::SubmitAttempted { transaction_hex: t, attempts: a + 1 },
                        FlowAction::RequestSubmitTransaction {
                            transaction_hex: t2,
                            delay_seconds: delay,
                        },
                    )
                } else {
                    (FlowState::Failed, transaction_failed())
                }
            },
            (
                FlowState::Polling { txn_hash_hex: hh, response_message: rm, polls: p },
                FlowEvent::TxnFound(found),
            ) => {
                if found {
                    (
                        FlowState::Finished,
                        FlowAction::Succeed { response: rm, confirmed: true },
                    )
                } else {
                    next_poll(hh, rm, p)
                }
            },
            (
                FlowState::Polling { txn_hash_hex: hh, response_message: rm, polls: p },
                FlowEvent::PollFailed,
            ) => next_poll(hh, rm, p),
            (st, _) => (st, FlowAction::Ignore),
        };
        (SubmitFlow { seed_hex_key, derived_public_key, retry, state: new_state }, action)
    }
}

/// The error handed out when the signed transaction never got through.
fn transaction_failed() -> (a: FlowAction)
    ensures
        is_transaction_failed(a),
{
    FlowAction::Fail {
        error: DesoError::TransactionError(
            "posting".to_owned(),
            "Transaction Failed :/".to_owned(),
        ),
    }
}

/// The error handed out when appending the derived key failed.
fn append_failure(inner: DesoError) -> (e: DesoError)
    ensures
        e matches DesoError::TransactionError(k, d) && k@
            == "Error appending derived public key tx"@ && d@ == message_spec(inner),
{
    let detail = inner.message();
    DesoError::TransactionError("Error appending derived public key tx".to_owned(), detail)
}

/// The step after an unsuccessful poll: the next poll with a doubled delay,
/// or the unconfirmed success once the poll budget is spent.
fn next_poll(hh: String, rm: String, p: u8) -> (r: (FlowState, FlowAction))
    requires
        p < 7,
    ensures
        polling_continues(hh, rm, p, r.0, r.1),
        r.0 matches FlowState::Polling { polls, .. } ==> polls < 7,
{
    if p + 1 < 7 {
        let hh2 = hh.clone();
        let delay: u64 = 1u64 << ((p + 1) as u64);
        (
            FlowState::Polling { txn_hash_hex: hh, response_message: rm, polls: p + 1 },
            FlowAction::RequestGetTxn { txn_hash_hex: hh2, delay_seconds: delay },
        )
    } else {
        (FlowState::Finished, FlowAction::Succeed { response: rm, confirmed: false })
    }
}

/// Once the exchange has ended, no event moves it or asks for anything
/// more.
pub proof fn lemma_terminal_states_stable(
    pre: SubmitFlow,
    event: FlowEvent,
    post: FlowState,
    action: FlowAction,
)
    requires
        pre.state is Finished || pre.state is Failed,
        transition(pre, event, post, action),
    ensures
        post == pre.state,
        action is Ignore,
{
}

} // verus!
