//! Whole runs of a command: what is asked of the outside world, what is
//! shown, and how the run ends, for every way in which the outside world
//! may answer.

use vstd::prelude::*;
use crate::base58::base58_encoding;
use crate::command::WalletCommand;
use crate::config::WalletConfig;
use crate::error::WalletErrorView;
use crate::executor::{airdrop_request_of, airdropping_line, balance_line, error_line, step_of};
use crate::executor::{EventView, NextView, Progress, ReferenceId, Request};
use crate::executor::AIRDROP_SETTLE_MILLIS;
use crate::keys::{PublicKey, Signature};

verus! {

/// What a run did: the requests it made, in order, the lines it showed, in
/// order, and how it ended, if it has ended.
pub struct Trace {
    pub requests: Seq<Request>,
    pub output: Seq<Seq<char>>,
    pub result: Option<Result<(), WalletErrorView>>,
}

/// What a run does from `progress` on, when the caller comes back with
/// `event` and then answers the requests of the run with `later`, one
/// answer for each request, for as long as there are answers.
pub open spec fn run_from(
    config: WalletConfig,
    progress: Progress,
    event: EventView,
    later: Seq<EventView>,
) -> Trace
    decreases later.len(),
{
    let step = step_of(config, progress, event);
    match step.next {
        NextView::Exit(result) => Trace {
            requests: Seq::empty(),
            output: step.output,
            result: Some(result),
        },
        NextView::Call(request, then) => if later.len() == 0 {
            Trace { requests: seq![request], output: step.output, result: None }
        } else {
            let rest = run_from(config, then, later[0], later.skip(1));
            Trace {
                requests: seq![request] + rest.requests,
                output: step.output + rest.output,
                result: rest.result,
            }
        },
    }
}

/// What the run of `config` does when the outside world answers its
/// requests with `answers`.
pub open spec fn run(config: WalletConfig, answers: Seq<EventView>) -> Trace {
    run_from(config, Progress::Start, EventView::Begin, answers)
}

/// Showing the address needs no outside work: the run shows the caller's
/// key as text and ends in success, whatever answers stand ready.
pub proof fn lemma_address_run(config: WalletConfig, answers: Seq<EventView>)
    requires
        config.command == WalletCommand::Address,
    ensures
        run(config, answers) == (Trace {
            requests: Seq::empty(),
            output: seq![base58_encoding(config.id@)],
            result: Some(Ok(())),
        }),
{
}

/// The text shown for an account without a record.
pub open spec fn no_account_line() -> Seq<char> {
    "No account found! Request an airdrop to get started."@
}

/// The line that the balance command shows for an answer to its query.
pub open spec fn balance_answer_line(answer: EventView) -> Seq<char> {
    match answer {
        EventView::Balance(balance) => balance_line(balance),
        EventView::NoAccount(_) => no_account_line(),
        EventView::Failed(detail) => error_line(detail),
        _ => Seq::empty(),
    }
}

/// The balance command asks for the balance of the caller's account once
/// and ends in success however the query went: with the balance, with the
/// advice to request an airdrop where the account has no record, and with
/// the failure's detail after any other failure.
pub proof fn lemma_balance_run(config: WalletConfig, answer: EventView)
    requires
        config.command == WalletCommand::Balance,
        answer is Balance || answer is NoAccount || answer is Failed,
    ensures
        run(config, seq![answer]) == (Trace {
            requests: seq![Request::GetBalance(config.id)],
            output: seq!["Balance requested..."@, balance_answer_line(answer)],
            result: Some(Ok(())),
        }),
{
    reveal_with_fuel(run_from, 2);
    let trace = run(config, seq![answer]);
    assert(trace.requests =~= seq![Request::GetBalance(config.id)]);
    assert(trace.output =~= seq!["Balance requested..."@, balance_answer_line(answer)]);
}

/// What is shown for an account without a record is never what is shown
/// for another failure.
pub proof fn lemma_no_account_is_told_apart(detail: Seq<char>)
    ensures
        error_line(detail) != no_account_line(),
{
    reveal_strlit("An error occurred: ");
    reveal_strlit("No account found! Request an airdrop to get started.");
    assert("An error occurred: "@.len() > 0);
    assert(error_line(detail)[0] == 'A');
    assert(no_account_line()[0] == 'N');
}

/// An airdrop whose request is written and whose balance query is answered
/// makes exactly three requests: the grant of the amount to the caller's
/// key, the wait, and one balance query. It shows the new balance and ends
/// in success.
pub proof fn lemma_airdrop_run(config: WalletConfig, tokens: i64, balance: i64)
    requires
        config.command == WalletCommand::AirDrop(tokens),
    ensures
        run(config, seq![EventView::AirdropSent, EventView::Slept, EventView::Balance(balance)])
            == (Trace {
            requests: seq![
                airdrop_request_of(config, tokens),
                Request::Sleep(AIRDROP_SETTLE_MILLIS),
                Request::GetBalance(config.id),
            ],
            output: seq![
                "Airdrop requested..."@,
                airdropping_line(tokens),
                balance_line(balance),
            ],
            result: Some(Ok(())),
        }),
{
    reveal_with_fuel(run_from, 4);
    let trace = run(
        config,
        seq![EventView::AirdropSent, EventView::Slept, EventView::Balance(balance)],
    );
    assert(trace.requests =~= seq![
        airdrop_request_of(config, tokens),
        Request::Sleep(AIRDROP_SETTLE_MILLIS),
        Request::GetBalance(config.id),
    ]);
    assert(trace.output =~= seq![
        "Airdrop requested..."@,
        airdropping_line(tokens),
        balance_line(balance),
    ]);
}

/// An airdrop whose request cannot be written ends at once with that
/// failure: it neither waits nor asks for the balance.
pub proof fn lemma_airdrop_write_failure(
    config: WalletConfig,
    tokens: i64,
    detail: Seq<char>,
    later: Seq<EventView>,
)
    requires
        config.command == WalletCommand::AirDrop(tokens),
    ensures
        run(config, seq![EventView::Failed(detail)] + later) == (Trace {
            requests: seq![airdrop_request_of(config, tokens)],
            output: seq!["Airdrop requested..."@, airdropping_line(tokens)],
            result: Some(Err(WalletErrorView::Transport(detail))),
        }),
{
    reveal_with_fuel(run_from, 2);
    let trace = run(config, seq![EventView::Failed(detail)] + later);
    assert(trace.requests =~= seq![airdrop_request_of(config, tokens)]);
    assert(trace.output =~= seq!["Airdrop requested..."@, airdropping_line(tokens)]);
}

/// The balance query that ends an airdrop is not guarded: where it fails,
/// for an account without a record as for any other reason, the run fails
/// with the failure's detail and shows no balance.
pub proof fn lemma_airdrop_poll_failure(config: WalletConfig, tokens: i64, answer: EventView)
    requires
        config.command == WalletCommand::AirDrop(tokens),
        answer is NoAccount || answer is Failed,
    ensures
        run(config, seq![EventView::AirdropSent, EventView::Slept, answer]).result == Some(
            Err::<(), WalletErrorView>(
                WalletErrorView::Transport(
                    match answer {
                        EventView::NoAccount(detail) => detail,
                        EventView::Failed(detail) => detail,
                        _ => Seq::empty(),
                    },
                ),
            ),
        ),
        run(config, seq![EventView::AirdropSent, EventView::Slept, answer]).output == seq![
            "Airdrop requested..."@,
            airdropping_line(tokens),
        ],
{
    reveal_with_fuel(run_from, 4);
    let trace = run(config, seq![EventView::AirdropSent, EventView::Slept, answer]);
    assert(trace.output =~= seq!["Airdrop requested..."@, airdropping_line(tokens)]);
}

/// A payment that goes through makes exactly two requests: it fetches one
/// reference id and submits one transfer of the amount, from the caller's
/// key to the recipient, that carries this id. It shows the signature of
/// the transfer as text and ends in success.
pub proof fn lemma_pay_run(
    config: WalletConfig,
    tokens: i64,
    to: PublicKey,
    last_id: ReferenceId,
    signature: Signature,
)
    requires
        config.command == WalletCommand::Pay(tokens, to),
    ensures
        run(config, seq![EventView::LastId(last_id), EventView::Transferred(signature)]) == (Trace {
            requests: seq![
                Request::GetLastId,
                Request::Transfer { tokens, from: config.id, to, last_id },
            ],
            output: seq![base58_encoding(signature@)],
            result: Some(Ok(())),
        }),
{
    reveal_with_fuel(run_from, 3);
    let trace = run(
        config,
        seq![EventView::LastId(last_id), EventView::Transferred(signature)],
    );
    assert(trace.requests =~= seq![
        Request::GetLastId,
        Request::Transfer { tokens, from: config.id, to, last_id },
    ]);
    assert(trace.output =~= seq![base58_encoding(signature@)]);
}

/// A payment fails as a whole with the first request that fails: without a
/// reference id no transfer is submitted, and nothing is shown either way.
pub proof fn lemma_pay_failure(
    config: WalletConfig,
    tokens: i64,
    to: PublicKey,
    last_id: ReferenceId,
    detail: Seq<char>,
    later: Seq<EventView>,
)
    requires
        config.command == WalletCommand::Pay(tokens, to),
    ensures
        run(config, seq![EventView::Failed(detail)] + later) == (Trace {
            requests: seq![Request::GetLastId],
            output: Seq::empty(),
            result: Some(Err(WalletErrorView::Transport(detail))),
        }),
        run(config, seq![EventView::LastId(last_id), EventView::Failed(detail)] + later) == (Trace {
            requests: seq![
                Request::GetLastId,
                Request::Transfer { tokens, from: config.id, to, last_id },
            ],
            output: Seq::empty(),
            result: Some(Err(WalletErrorView::Transport(detail))),
        }),
{
    reveal_with_fuel(run_from, 3);
    let early = run(config, seq![EventView::Failed(detail)] + later);
    assert(early.requests =~= seq![Request::GetLastId]);
    assert(early.output =~= Seq::<Seq<char>>::empty());
    let late = run(config, seq![EventView::LastId(last_id), EventView::Failed(detail)] + later);
    assert(late.requests =~= seq![
        Request::GetLastId,
        Request::Transfer { tokens, from: config.id, to, last_id },
    ]);
    assert(late.output =~= Seq::<Seq<char>>::empty());
}

/// A confirmation asks once whether the signature is known and shows one
/// of two lines, as the answer says: `Confirmed` or `Not found`. It ends in
/// success either way.
pub proof fn lemma_confirm_run(config: WalletConfig, signature: Signature, known: bool)
    requires
        config.command == WalletCommand::Confirm(signature),
    ensures
        run(config, seq![EventView::SignatureStatus(known)]) == (Trace {
            requests: seq![Request::CheckSignature(signature)],
            output: seq![
                if known {
                    "Confirmed"@
                } else {
                    "Not found"@
                },
            ],
            result: Some(Ok(())),
        }),
{
    reveal_with_fuel(run_from, 2);
    let trace = run(config, seq![EventView::SignatureStatus(known)]);
    assert(trace.requests =~= seq![Request::CheckSignature(signature)]);
    assert(trace.output =~= seq![
        if known {
            "Confirmed"@
        } else {
            "Not found"@
        },
    ]);
}

/// Every run ends: once three requests have been answered, whatever the
/// answers were, the run has ended and has made no fourth request.
pub proof fn lemma_run_ends(config: WalletConfig, answers: Seq<EventView>)
    requires
        answers.len() >= 3,
    ensures
        run(config, answers).result is Some,
        run(config, answers).requests.len() <= 3,
{
    reveal_with_fuel(run_from, 4);
}

} // verus!
