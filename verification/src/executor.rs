//! Carrying out a command.
//!
//! A command is carried out in steps. Each step shows some lines to the
//! user and then either asks for one piece of outside work (a query, a
//! write, a wait) or ends the run. The caller does the work and comes back
//! with what happened; [`process_command`] decides what follows.

use vstd::prelude::*;
use vstd::string::*;
use crate::airdrop::{airdrop_amount, request_airdrop, unsigned_amount, AirdropDelivery};
use crate::airdrop::DroneRequest;
use crate::base58::base58_encoding;
use crate::command::WalletCommand;
use crate::config::WalletConfig;
use crate::decimal::{decimal_text, format_amount};
use crate::error::{WalletError, WalletErrorView};
use crate::keys::{PublicKey, Signature};
use crate::text::{lines_view, no_lines, push_line, push_text};

verus! {

/// How long the wallet waits after a grant request before it asks for the
/// balance, in milliseconds. The service credits the account on its own
/// time; the wait is a courtesy to it and promises nothing.
pub const AIRDROP_SETTLE_MILLIS: u64 = 100;

/// The freshness token of the ledger that a new transfer has to carry.
#[derive(Clone, Copy, Debug, PartialEq, Eq)]
pub struct ReferenceId {
    pub bytes: [u8; 32],
}

/// One piece of outside work.
#[derive(Clone, Copy, Debug, PartialEq, Eq)]
pub enum Request {
    /// Ask the leader for the balance of the account.
    GetBalance(PublicKey),
    /// Write the request to the token-grant service.
    Airdrop(AirdropDelivery),
    /// Wait for so many milliseconds.
    Sleep(u64),
    /// Ask the leader for its latest reference id.
    GetLastId,
    /// Sign a transfer of `tokens` from `from` to `to` that carries
    /// `last_id`, and submit it.
    Transfer { tokens: i64, from: PublicKey, to: PublicKey, last_id: ReferenceId },
    /// Ask the leader whether it has accepted the signature.
    CheckSignature(Signature),
}

/// Where a run stands: at its start, or waiting for the outcome of a request.
#[derive(Clone, Copy, Debug, PartialEq, Eq)]
pub enum Progress {
    /// Nothing has happened yet.
    Start,
    /// The balance command waits for the balance.
    Balance,
    /// The airdrop command waits for its request to be written.
    AirdropRequest,
    /// The airdrop command waits for the settle time to pass.
    AirdropSettle,
    /// The airdrop command waits for the new balance.
    AirdropBalance,
    /// The pay command waits for the reference id.
    PayLastId,
    /// The pay command waits for the transfer to be submitted.
    PayTransfer,
    /// The confirm command waits for the status of the signature.
    Confirm,
}

/// What the caller comes back with.
#[derive(Clone, Debug, PartialEq, Eq)]
pub enum Event {
    /// The run begins.
    Begin,
    /// The leader answered with a balance.
    Balance(i64),
    /// The leader answered that it has no record of the account. Holds the
    /// answer's detail.
    NoAccount(String),
    /// The grant request was written in full.
    AirdropSent,
    /// The wait is over.
    Slept,
    /// The leader answered with its latest reference id.
    LastId(ReferenceId),
    /// The transfer was submitted, under this signature.
    Transferred(Signature),
    /// The leader answered whether it has accepted the signature.
    SignatureStatus(bool),
    /// The request failed: no answer in time, an answer that cannot be
    /// read, or an error of the transport. Holds the failure's detail. A
    /// wait and a query for a signature's status have no such outcome.
    Failed(String),
}

/// An [`Event`] with its texts as sequences of characters.
pub enum EventView {
    Begin,
    Balance(i64),
    NoAccount(Seq<char>),
    AirdropSent,
    Slept,
    LastId(ReferenceId),
    Transferred(Signature),
    SignatureStatus(bool),
    Failed(Seq<char>),
}

impl View for Event {
    type V = EventView;

    open spec fn view(&self) -> EventView {
        match self {
            Event::Begin => EventView::Begin,
            Event::Balance(balance) => EventView::Balance(*balance),
            Event::NoAccount(detail) => EventView::NoAccount(detail@),
            Event::AirdropSent => EventView::AirdropSent,
            Event::Slept => EventView::Slept,
            Event::LastId(id) => EventView::LastId(*id),
            Event::Transferred(signature) => EventView::Transferred(*signature),
            Event::SignatureStatus(known) => EventView::SignatureStatus(*known),
            Event::Failed(detail) => EventView::Failed(detail@),
        }
    }
}

/// What follows a step: a request and the place from which the run goes on
/// when its outcome is known, or the end of the run.
#[derive(Debug, PartialEq, Eq)]
pub enum Next {
    Call(Request, Progress),
    Exit(Result<(), WalletError>),
}

/// A [`Next`] with the texts of its error as sequences of characters.
pub enum NextView {
    Call(Request, Progress),
    Exit(Result<(), WalletErrorView>),
}

impl View for Next {
    type V = NextView;

    open spec fn view(&self) -> NextView {
        match self {
            Next::Call(request, progress) => NextView::Call(*request, *progress),
            Next::Exit(Ok(())) => NextView::Exit(Ok(())),
            Next::Exit(Err(error)) => NextView::Exit(Err(error@)),
        }
    }
}

/// One step of a run: the lines to show, then what follows.
#[derive(Debug, PartialEq, Eq)]
pub struct Step {
    pub output: Vec<String>,
    pub next: Next,
}

/// A [`Step`] with its texts as sequences of characters.
pub struct StepView {
    pub output: Seq<Seq<char>>,
    pub next: NextView,
}

impl View for Step {
    type V = StepView;

    open spec fn view(&self) -> StepView {
        StepView { output: lines_view(self.output@), next: self.next@ }
    }
}

/// The step that shows `output` and ends the run in success.
pub open spec fn done(output: Seq<Seq<char>>) -> StepView {
    StepView { output, next: NextView::Exit(Ok(())) }
}

/// The step that shows nothing and ends the run with a failed call.
pub open spec fn failed(detail: Seq<char>) -> StepView {
    StepView {
        output: Seq::empty(),
        next: NextView::Exit(Err(WalletErrorView::Transport(detail))),
    }
}

/// The step that shows `output` and asks for `request`.
pub open spec fn call(output: Seq<Seq<char>>, request: Request, then: Progress) -> StepView {
    StepView { output, next: NextView::Call(request, then) }
}

/// The step taken when the caller comes back with something that answers
/// no request of the run: the run ends with a failure.
pub open spec fn unexpected() -> StepView {
    failed("unexpected event"@)
}

/// The line that shows a balance.
pub open spec fn balance_line(balance: i64) -> Seq<char> {
    "Your balance is: "@ + decimal_text(balance as int)
}

/// The line that names the amount of a grant request.
pub open spec fn airdropping_line(tokens: i64) -> Seq<char> {
    "Airdropping "@ + decimal_text(tokens as int) + " tokens"@
}

/// The line that shows why a balance query failed.
pub open spec fn error_line(detail: Seq<char>) -> Seq<char> {
    "An error occurred: "@ + detail
}

/// The request that grants `tokens` tokens to the caller of `config`.
pub open spec fn airdrop_request_of(config: WalletConfig, tokens: i64) -> Request {
    Request::Airdrop(
        AirdropDelivery {
            drone_addr: config.drone_addr,
            request: DroneRequest::GetAirdrop {
                airdrop_request_amount: unsigned_amount(tokens as int) as u64,
                client_public_key: config.id,
            },
        },
    )
}

/// The first step of a run.
///
/// The address is shown without any outside work. Every other command
/// begins with a request.
pub open spec fn first_step(config: WalletConfig) -> StepView {
    match config.command {
        WalletCommand::Address => done(seq![base58_encoding(config.id@)]),
        WalletCommand::Balance => call(
            seq!["Balance requested..."@],
            Request::GetBalance(config.id),
            Progress::Balance,
        ),
        WalletCommand::AirDrop(tokens) => call(
            seq!["Airdrop requested..."@, airdropping_line(tokens)],
            airdrop_request_of(config, tokens),
            Progress::AirdropRequest,
        ),
        WalletCommand::Pay(_, _) => call(Seq::empty(), Request::GetLastId, Progress::PayLastId),
        WalletCommand::Confirm(signature) => call(
            Seq::empty(),
            Request::CheckSignature(signature),
            Progress::Confirm,
        ),
    }
}

/// The step of the balance command after its query. A failed query does not
/// fail the run: an account without a record and any other failure are
/// shown, each in its own words.
pub open spec fn balance_step(event: EventView) -> StepView {
    match event {
        EventView::Balance(balance) => done(seq![balance_line(balance)]),
        EventView::NoAccount(_) => done(
            seq!["No account found! Request an airdrop to get started."@],
        ),
        EventView::Failed(detail) => done(seq![error_line(detail)]),
        _ => unexpected(),
    }
}

/// The step of the airdrop command after its last query. Here a failed
/// query fails the run, whatever the reason.
pub open spec fn airdrop_balance_step(event: EventView) -> StepView {
    match event {
        EventView::Balance(balance) => done(seq![balance_line(balance)]),
        EventView::NoAccount(detail) => failed(detail),
        EventView::Failed(detail) => failed(detail),
        _ => unexpected(),
    }
}

/// The step of the pay command once the reference id is known.
pub open spec fn pay_step(config: WalletConfig, event: EventView) -> StepView {
    match event {
        EventView::LastId(last_id) => match config.command {
            WalletCommand::Pay(tokens, to) => call(
                Seq::empty(),
                Request::Transfer { tokens, from: config.id, to, last_id },
                Progress::PayTransfer,
            ),
            _ => unexpected(),
        },
        EventView::Failed(detail) => failed(detail),
        _ => unexpected(),
    }
}

/// The step that follows when the run stands at `progress` and the caller
/// comes back with `event`.
pub open spec fn step_of(config: WalletConfig, progress: Progress, event: EventView) -> StepView {
    match progress {
        Progress::Start => match event {
            EventView::Begin => first_step(config),
            _ => unexpected(),
        },
        Progress::Balance => balance_step(event),
        Progress::AirdropRequest => match event {
            EventView::AirdropSent => call(
                Seq::empty(),
                Request::Sleep(AIRDROP_SETTLE_MILLIS),
                Progress::AirdropSettle,
            ),
            EventView::Failed(detail) => failed(detail),
            _ => unexpected(),
        },
        Progress::AirdropSettle => match event {
            EventView::Slept => call(
                Seq::empty(),
                Request::GetBalance(config.id),
                Progress::AirdropBalance,
            ),
            _ => unexpected(),
        },
        Progress::AirdropBalance => airdrop_balance_step(event),
        Progress::PayLastId => pay_step(config, event),
        Progress::PayTransfer => match event {
            EventView::Transferred(signature) => done(seq![base58_encoding(signature@)]),
            EventView::Failed(detail) => failed(detail),
            _ => unexpected(),
        },
        Progress::Confirm => match event {
            EventView::SignatureStatus(known) => if known {
                done(seq!["Confirmed"@])
            } else {
                done(seq!["Not found"@])
            },
            _ => unexpected(),
        },
    }
}

/// Ends the run in success after showing `line`.
fn finish(line: String) -> (step: Step)
    ensures
        step@ == done(seq![line@]),
{
    let mut output = no_lines();
    push_line(&mut output, line);
    let step = Step { output, next: Next::Exit(Ok(())) };
    assert(step@.output =~= seq![line@]);
    step
}

/// Ends the run with a failed call.
fn fail(detail: String) -> (step: Step)
    ensures
        step@ == failed(detail@),
{
    Step { output: no_lines(), next: Next::Exit(Err(WalletError::Transport(detail))) }
}

/// Ends the run because the event answers no request of it.
fn reject() -> (step: Step)
    ensures
        step@ == unexpected(),
{
    fail(String::from_str("unexpected event"))
}

/// Asks for `request` without showing anything.
fn ask(request: Request, then: Progress) -> (step: Step)
    ensures
        step@ == call(Seq::empty(), request, then),
{
    Step { output: no_lines(), next: Next::Call(request, then) }
}

/// The line that shows a balance.
fn show_balance(balance: i64) -> (line: String)
    ensures
        line@ == balance_line(balance),
{
    let mut line = String::from_str("Your balance is: ");
    let digits = format_amount(balance);
    line.append(digits.as_str());
    line
}

/// Takes the first step of a run.
fn begin(config: &WalletConfig) -> (step: Step)
    ensures
        step@ == first_step(*config),
{
    match config.command {
        WalletCommand::Address => finish(config.id.to_base58()),
        WalletCommand::Balance => {
            let mut output = no_lines();
            push_text(&mut output, "Balance requested...");
            let step = Step {
                output,
                next: Next::Call(Request::GetBalance(config.id), Progress::Balance),
            };
            assert(step@.output =~= seq!["Balance requested..."@]);
            step
        },
        WalletCommand::AirDrop(tokens) => {
            let mut output = no_lines();
            push_text(&mut output, "Airdrop requested...");
            let mut line = String::from_str("Airdropping ");
            let digits = format_amount(tokens);
            line.append(digits.as_str());
            line.append(" tokens");
            push_line(&mut output, line);
            let delivery = request_airdrop(&config.drone_addr, &config.id, airdrop_amount(tokens));
            let step = Step {
                output,
                next: Next::Call(Request::Airdrop(delivery), Progress::AirdropRequest),
            };
            assert(step@.output =~= seq!["Airdrop requested..."@, airdropping_line(tokens)]);
            step
        },
        WalletCommand::Pay(_, _) => ask(Request::GetLastId, Progress::PayLastId),
        WalletCommand::Confirm(signature) => ask(
            Request::CheckSignature(signature),
            Progress::Confirm,
        ),
    }
}

/// Decides what follows when the run of `config` stands at `progress` and
/// the caller comes back with `event`.
///
/// A run begins at [`Progress::Start`] with [`Event::Begin`]. From then on
/// the caller does the work that each step asks for and comes back with its
/// outcome and with the progress that the step named, until a step ends the
/// run. An event that answers no request of the run ends it with a failure.
pub fn process_command(config: &WalletConfig, progress: Progress, event: &Event) -> (step: Step)
    ensures
        step@ == step_of(*config, progress, event@),
{
    match progress {
        Progress::Start => match event {
            Event::Begin => begin(config),
            _ => reject(),
        },
        Progress::Balance => match event {
            Event::Balance(balance) => finish(show_balance(*balance)),
            Event::NoAccount(_) => finish(
                String::from_str("No account found! Request an airdrop to get started."),
            ),
            Event::Failed(detail) => {
                let mut line = String::from_str("An error occurred: ");
                line.append(detail.as_str());
                finish(line)
            },
            _ => reject(),
        },
        Progress::AirdropRequest => match event {
            Event::AirdropSent => ask(
                Request::Sleep(AIRDROP_SETTLE_MILLIS),
                Progress::AirdropSettle,
            ),
            Event::Failed(detail) => fail(detail.clone()),
            _ => reject(),
        },
        Progress::AirdropSettle => match event {
            Event::Slept => ask(Request::GetBalance(config.id), Progress::AirdropBalance),
            _ => reject(),
        },
        Progress::AirdropBalance => match event {
            Event::Balance(balance) => finish(show_balance(*balance)),
            Event::NoAccount(detail) => fail(detail.clone()),
            Event::Failed(detail) => fail(detail.clone()),
            _ => reject(),
        },
        Progress::PayLastId => match event {
            Event::LastId(last_id) => match config.command {
                WalletCommand::Pay(tokens, to) => ask(
                    Request::Transfer { tokens, from: config.id, to, last_id: *last_id },
                    Progress::PayTransfer,
                ),
                _ => reject(),
            },
            Event::Failed(detail) => fail(detail.clone()),
            _ => reject(),
        },
        Progress::PayTransfer => match event {
            Event::Transferred(signature) => finish(signature.to_base58()),
            Event::Failed(detail) => fail(detail.clone()),
            _ => reject(),
        },
        Progress::Confirm => match event {
            Event::SignatureStatus(known) => if *known {
                finish(String::from_str("Confirmed"))
            } else {
                finish(String::from_str("Not found"))
            },
            _ => reject(),
        },
    }
}

} // verus!
