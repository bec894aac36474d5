use wallet::airdrop::{request_airdrop, AirdropDelivery, DroneRequest};
use wallet::command::{CommandLine, WalletCommand};
use wallet::config::WalletConfig;
use wallet::endpoint::{ContactInfo, IpAddress, NodeInfo, SocketAddress};
use wallet::error::WalletError;
use wallet::executor::{
    process_command, Event, Next, Progress, ReferenceId, Request, Step, AIRDROP_SETTLE_MILLIS,
};
use wallet::invocation::start;
use wallet::keys::{PublicKey, Signature};
use wallet::text::{chars_of, same_text};

fn caller() -> PublicKey {
    PublicKey { bytes: [9u8; 32] }
}

fn payee() -> PublicKey {
    let mut bytes = [0u8; 32];
    for (i, byte) in bytes.iter_mut().enumerate() {
        *byte = 255 - i as u8;
    }
    PublicKey { bytes }
}

fn a_signature() -> Signature {
    let mut bytes = [0u8; 64];
    for (i, byte) in bytes.iter_mut().enumerate() {
        *byte = (i as u8) ^ 0x5a;
    }
    Signature { bytes }
}

fn a_leader() -> NodeInfo {
    NodeInfo {
        contact_info: ContactInfo {
            rpu: SocketAddress { ip: IpAddress::V4([127, 0, 0, 1]), port: 8003 },
            tpu: SocketAddress { ip: IpAddress::V4([127, 0, 0, 1]), port: 8000 },
        },
    }
}

fn drone() -> SocketAddress {
    SocketAddress { ip: IpAddress::V4([127, 0, 0, 1]), port: 9900 }
}

fn config_for(command: WalletCommand) -> WalletConfig {
    WalletConfig { leader: a_leader(), id: caller(), drone_addr: drone(), command }
}

struct Ran {
    requests: Vec<Request>,
    output: Vec<String>,
    result: Option<Result<(), WalletError>>,
    unused: usize,
}

/// Plays the part of the outside world: answers each request of the run with
/// the next of `answers`.
fn drive(config: &WalletConfig, answers: Vec<Event>) -> Ran {
    let mut ran = Ran { requests: Vec::new(), output: Vec::new(), result: None, unused: 0 };
    let mut answers = answers.into_iter();
    let mut step: Step = process_command(config, Progress::Start, &Event::Begin);
    loop {
        ran.output.extend(step.output);
        match step.next {
            Next::Exit(result) => {
                ran.result = Some(result);
                break;
            }
            Next::Call(request, progress) => {
                ran.requests.push(request);
                match answers.next() {
                    Some(answer) => step = process_command(config, progress, &answer),
                    None => break,
                }
            }
        }
    }
    ran.unused = answers.count();
    ran
}

fn lines(texts: &[&str]) -> Vec<String> {
    texts.iter().map(|t| t.to_string()).collect()
}

#[test]
fn address_needs_no_outside_work() {
    let ran = drive(&config_for(WalletCommand::Address), vec![Event::Balance(1)]);
    assert_eq!(ran.requests, vec![]);
    assert_eq!(ran.output, vec![caller().to_base58()]);
    assert_eq!(ran.output, lines(&["cGfHiC6Kgg3FpFZvgwGcswsCRtp4aBP2fzuXRQPizuN"]));
    assert_eq!(ran.result, Some(Ok(())));
    assert_eq!(ran.unused, 1);
}

#[test]
fn balance_shows_the_balance() {
    let ran = drive(&config_for(WalletCommand::Balance), vec![Event::Balance(1234)]);
    assert_eq!(ran.requests, vec![Request::GetBalance(caller())]);
    assert_eq!(ran.output, lines(&["Balance requested...", "Your balance is: 1234"]));
    assert_eq!(ran.result, Some(Ok(())));
}

#[test]
fn balance_shows_negative_and_zero_balances() {
    let ran = drive(&config_for(WalletCommand::Balance), vec![Event::Balance(0)]);
    assert_eq!(ran.output, lines(&["Balance requested...", "Your balance is: 0"]));
    let ran = drive(&config_for(WalletCommand::Balance), vec![Event::Balance(-3)]);
    assert_eq!(ran.output, lines(&["Balance requested...", "Your balance is: -3"]));
}

#[test]
fn balance_of_unknown_account_gives_advice() {
    let ran = drive(
        &config_for(WalletCommand::Balance),
        vec![Event::NoAccount("nokey".to_string())],
    );
    assert_eq!(ran.requests, vec![Request::GetBalance(caller())]);
    assert_eq!(
        ran.output,
        lines(&["Balance requested...", "No account found! Request an airdrop to get started."])
    );
    assert_eq!(ran.result, Some(Ok(())));
}

#[test]
fn balance_after_timeout_shows_the_error() {
    let detail = "Os { code: 11, kind: WouldBlock, message: \"Resource temporarily unavailable\" }";
    let ran = drive(&config_for(WalletCommand::Balance), vec![Event::Failed(detail.to_string())]);
    assert_eq!(ran.requests, vec![Request::GetBalance(caller())]);
    assert_eq!(
        ran.output,
        lines(&[
            "Balance requested...",
            "An error occurred: Os { code: 11, kind: WouldBlock, message: \"Resource temporarily unavailable\" }",
        ])
    );
    assert!(ran.output[1].contains(detail));
    assert_ne!(ran.output[1], "No account found! Request an airdrop to get started.");
    assert_eq!(ran.result, Some(Ok(())));
}

#[test]
fn airdrop_grants_waits_and_shows_the_balance() {
    let ran = drive(
        &config_for(WalletCommand::AirDrop(50)),
        vec![Event::AirdropSent, Event::Slept, Event::Balance(50)],
    );
    assert_eq!(
        ran.requests,
        vec![
            Request::Airdrop(AirdropDelivery {
                drone_addr: drone(),
                request: DroneRequest::GetAirdrop {
                    airdrop_request_amount: 50,
                    client_public_key: caller(),
                },
            }),
            Request::Sleep(100),
            Request::GetBalance(caller()),
        ]
    );
    assert_eq!(
        ran.output,
        lines(&["Airdrop requested...", "Airdropping 50 tokens", "Your balance is: 50"])
    );
    assert_eq!(ran.result, Some(Ok(())));
    assert_eq!(ran.unused, 0);
    assert_eq!(AIRDROP_SETTLE_MILLIS, 100);
}

#[test]
fn airdrop_of_a_negative_amount_keeps_its_bits() {
    let ran = drive(&config_for(WalletCommand::AirDrop(-2)), vec![]);
    assert_eq!(
        ran.requests,
        vec![Request::Airdrop(AirdropDelivery {
            drone_addr: drone(),
            request: DroneRequest::GetAirdrop {
                airdrop_request_amount: 18446744073709551614,
                client_public_key: caller(),
            },
        })]
    );
    assert_eq!(ran.output, lines(&["Airdrop requested...", "Airdropping -2 tokens"]));
    assert_eq!(ran.result, None);
}

#[test]
fn airdrop_that_cannot_be_written_stops_at_once() {
    let ran = drive(
        &config_for(WalletCommand::AirDrop(50)),
        vec![Event::Failed("connection refused".to_string()), Event::Slept, Event::Balance(50)],
    );
    assert_eq!(ran.requests.len(), 1);
    assert_eq!(ran.output, lines(&["Airdrop requested...", "Airdropping 50 tokens"]));
    assert_eq!(ran.result, Some(Err(WalletError::Transport("connection refused".to_string()))));
    assert_eq!(ran.unused, 2);
}

#[test]
fn airdrop_poll_is_not_guarded() {
    let ran = drive(
        &config_for(WalletCommand::AirDrop(50)),
        vec![Event::AirdropSent, Event::Slept, Event::NoAccount("no record".to_string())],
    );
    assert_eq!(ran.requests.len(), 3);
    assert_eq!(ran.output, lines(&["Airdrop requested...", "Airdropping 50 tokens"]));
    assert_eq!(ran.result, Some(Err(WalletError::Transport("no record".to_string()))));
    let ran = drive(
        &config_for(WalletCommand::AirDrop(50)),
        vec![Event::AirdropSent, Event::Slept, Event::Failed("timed out".to_string())],
    );
    assert_eq!(ran.output, lines(&["Airdrop requested...", "Airdropping 50 tokens"]));
    assert_eq!(ran.result, Some(Err(WalletError::Transport("timed out".to_string()))));
}

#[test]
fn pay_fetches_one_id_and_submits_one_transfer() {
    let last_id = ReferenceId { bytes: [42u8; 32] };
    let ran = drive(
        &config_for(WalletCommand::Pay(10, payee())),
        vec![Event::LastId(last_id), Event::Transferred(a_signature())],
    );
    assert_eq!(
        ran.requests,
        vec![
            Request::GetLastId,
            Request::Transfer { tokens: 10, from: caller(), to: payee(), last_id },
        ]
    );
    assert_eq!(ran.output, vec![a_signature().to_base58()]);
    assert_eq!(ran.output, vec![bs58::encode(&a_signature().bytes[..]).into_string()]);
    assert_eq!(ran.result, Some(Ok(())));
    assert_eq!(ran.unused, 0);
}

#[test]
fn pay_without_a_reference_id_submits_nothing() {
    let ran = drive(
        &config_for(WalletCommand::Pay(10, payee())),
        vec![Event::Failed("unreachable".to_string()), Event::Transferred(a_signature())],
    );
    assert_eq!(ran.requests, vec![Request::GetLastId]);
    assert_eq!(ran.output, Vec::<String>::new());
    assert_eq!(ran.result, Some(Err(WalletError::Transport("unreachable".to_string()))));
}

#[test]
fn pay_whose_transfer_fails_shows_nothing() {
    let last_id = ReferenceId { bytes: [1u8; 32] };
    let ran = drive(
        &config_for(WalletCommand::Pay(10, payee())),
        vec![Event::LastId(last_id), Event::Failed("send failed".to_string())],
    );
    assert_eq!(ran.requests.len(), 2);
    assert_eq!(ran.output, Vec::<String>::new());
    assert_eq!(ran.result, Some(Err(WalletError::Transport("send failed".to_string()))));
}

#[test]
fn confirm_of_a_known_signature() {
    let ran = drive(
        &config_for(WalletCommand::Confirm(a_signature())),
        vec![Event::SignatureStatus(true)],
    );
    assert_eq!(ran.requests, vec![Request::CheckSignature(a_signature())]);
    assert_eq!(ran.output, lines(&["Confirmed"]));
    assert_eq!(ran.result, Some(Ok(())));
}

#[test]
fn confirm_of_an_unknown_signature() {
    let ran = drive(
        &config_for(WalletCommand::Confirm(a_signature())),
        vec![Event::SignatureStatus(false)],
    );
    assert_eq!(ran.requests, vec![Request::CheckSignature(a_signature())]);
    assert_eq!(ran.output, lines(&["Not found"]));
    assert_eq!(ran.result, Some(Ok(())));
}

#[test]
fn event_that_answers_nothing_ends_the_run() {
    let unexpected = Some(Err(WalletError::Transport("unexpected event".to_string())));
    let ran = drive(&config_for(WalletCommand::Balance), vec![Event::Slept]);
    assert_eq!(ran.output, lines(&["Balance requested..."]));
    assert_eq!(ran.result, unexpected);
    let ran = drive(&config_for(WalletCommand::Confirm(a_signature())), vec![Event::Balance(5)]);
    assert_eq!(ran.result, unexpected);
    let ran = drive(&config_for(WalletCommand::AirDrop(1)), vec![Event::Begin]);
    assert_eq!(ran.result, unexpected);
    let ran = drive(&config_for(WalletCommand::AirDrop(1)), vec![Event::AirdropSent, Event::AirdropSent]);
    assert_eq!(ran.result, unexpected);
    let config = config_for(WalletCommand::Balance);
    let step = process_command(&config, Progress::Start, &Event::Slept);
    assert_eq!(step.output, Vec::<String>::new());
    assert_eq!(step.next, Next::Exit(Err(WalletError::Transport("unexpected event".to_string()))));
    let step = process_command(&config, Progress::PayLastId, &Event::LastId(ReferenceId { bytes: [0u8; 32] }));
    assert_eq!(step.next, Next::Exit(Err(WalletError::Transport("unexpected event".to_string()))));
}

#[test]
fn a_wait_and_a_status_query_cannot_fail() {
    let unexpected = Some(Err(WalletError::Transport("unexpected event".to_string())));
    let ran = drive(
        &config_for(WalletCommand::Confirm(a_signature())),
        vec![Event::Failed("timed out".to_string())],
    );
    assert_eq!(ran.output, Vec::<String>::new());
    assert_eq!(ran.result, unexpected);
    let ran = drive(
        &config_for(WalletCommand::AirDrop(5)),
        vec![Event::AirdropSent, Event::Failed("interrupted".to_string())],
    );
    assert_eq!(ran.requests.len(), 2);
    assert_eq!(ran.result, unexpected);
}

#[test]
fn every_run_ends_within_three_answers() {
    let answers = || {
        vec![
            Event::Begin,
            Event::Balance(1),
            Event::NoAccount("n".to_string()),
            Event::AirdropSent,
            Event::Slept,
            Event::LastId(ReferenceId { bytes: [0u8; 32] }),
            Event::Transferred(a_signature()),
            Event::SignatureStatus(true),
            Event::Failed("f".to_string()),
        ]
    };
    let commands = [
        WalletCommand::Address,
        WalletCommand::Balance,
        WalletCommand::AirDrop(1),
        WalletCommand::Pay(1, payee()),
        WalletCommand::Confirm(a_signature()),
    ];
    for command in commands.iter() {
        for a in answers() {
            for b in answers() {
                for c in answers() {
                    let ran = drive(&config_for(*command), vec![a.clone(), b.clone(), c.clone()]);
                    assert!(ran.result.is_some());
                    assert!(ran.requests.len() <= 3);
                }
            }
        }
    }
}

#[test]
fn request_airdrop_names_the_service_and_the_caller() {
    assert_eq!(
        request_airdrop(&drone(), &caller(), 77),
        AirdropDelivery {
            drone_addr: drone(),
            request: DroneRequest::GetAirdrop {
                airdrop_request_amount: 77,
                client_public_key: caller(),
            },
        }
    );
}

#[test]
fn invocation_without_subcommand_asks_nothing() {
    let line = CommandLine { subcommand: None, tokens: None, to: None, signature: None };
    let invocation = start(&line, a_leader(), caller());
    assert_eq!(invocation.config, None);
    assert_eq!(
        invocation.step.output,
        lines(&[
            "",
            "Commands:",
            "  address   Get your public key",
            "  balance   Get your account balance",
            "  airdrop   Request a batch of tokens",
            "  pay       Send tokens to a public key",
            "  confirm   Confirm your last payment by signature",
            "",
        ])
    );
    assert_eq!(
        invocation.step.next,
        Next::Exit(Err(WalletError::CommandNotRecognized("no subcommand given".to_string())))
    );
}

#[test]
fn invocation_with_bad_amount_shows_nothing() {
    let line = CommandLine {
        subcommand: Some("airdrop".to_string()),
        tokens: Some("lots".to_string()),
        to: None,
        signature: None,
    };
    let invocation = start(&line, a_leader(), caller());
    assert_eq!(invocation.config, None);
    assert_eq!(invocation.step.output, Vec::<String>::new());
    assert_eq!(
        invocation.step.next,
        Next::Exit(Err(WalletError::InvalidAmount("lots".to_string())))
    );
}

#[test]
fn invocation_of_airdrop_takes_the_first_step() {
    let line = CommandLine {
        subcommand: Some("airdrop".to_string()),
        tokens: Some("50".to_string()),
        to: None,
        signature: None,
    };
    let invocation = start(&line, a_leader(), caller());
    assert_eq!(invocation.config, Some(config_for(WalletCommand::AirDrop(50))));
    assert_eq!(invocation.step.output, lines(&["Airdrop requested...", "Airdropping 50 tokens"]));
    assert_eq!(
        invocation.step.next,
        Next::Call(
            Request::Airdrop(AirdropDelivery {
                drone_addr: drone(),
                request: DroneRequest::GetAirdrop {
                    airdrop_request_amount: 50,
                    client_public_key: caller(),
                },
            }),
            Progress::AirdropRequest
        )
    );
}

#[test]
fn text_helpers_see_characters() {
    assert_eq!(chars_of("a\u{e9}1"), vec!['a', '\u{e9}', '1']);
    assert_eq!(chars_of(""), Vec::<char>::new());
    assert!(same_text("pay", "pay"));
    assert!(!same_text("pay", "pay "));
    assert!(!same_text("pay", "Pay"));
    assert!(same_text("", ""));
}
