//! The command model: the five things a user can ask of the wallet, and how
//! the words of a command line become one of them.

use vstd::prelude::*;
use vstd::string::*;
use crate::decimal::{amount_of_text, parse_amount};
use crate::error::{WalletError, WalletErrorView};
use crate::base58::{base58_decoding, is_base58_text};
use crate::keys::{bytes_of_text, PublicKey, Signature, PUBLIC_KEY_BYTES, SIGNATURE_BYTES};
use crate::text::same_text;

verus! {

/// What the user asks for.
#[derive(Clone, Copy, Debug, PartialEq, Eq)]
pub enum WalletCommand {
    /// Show the caller's own public key.
    Address,
    /// Show the caller's balance.
    Balance,
    /// Ask the token-grant service for this many tokens.
    AirDrop(i64),
    /// Send this many tokens to the holder of the key.
    Pay(i64, PublicKey),
    /// Ask whether the payment with this signature was accepted.
    Confirm(Signature),
}

/// A [`WalletCommand`] with its keys and signatures as byte sequences.
pub enum WalletCommandView {
    Address,
    Balance,
    AirDrop(i64),
    Pay(i64, Seq<u8>),
    Confirm(Seq<u8>),
}

impl View for WalletCommand {
    type V = WalletCommandView;

    open spec fn view(&self) -> WalletCommandView {
        match self {
            WalletCommand::Address => WalletCommandView::Address,
            WalletCommand::Balance => WalletCommandView::Balance,
            WalletCommand::AirDrop(tokens) => WalletCommandView::AirDrop(*tokens),
            WalletCommand::Pay(tokens, to) => WalletCommandView::Pay(*tokens, to@),
            WalletCommand::Confirm(signature) => WalletCommandView::Confirm(signature@),
        }
    }
}

/// The words of a command line, as the argument parser hands them over: the
/// name of the subcommand and the values that were given with it.
#[derive(Clone, Debug, PartialEq, Eq)]
pub struct CommandLine {
    /// The subcommand's name, if one was given.
    pub subcommand: Option<String>,
    /// The value of `--tokens`.
    pub tokens: Option<String>,
    /// The value of `--to`.
    pub to: Option<String>,
    /// The signature given to `confirm`.
    pub signature: Option<String>,
}

/// A [`CommandLine`] with its texts as sequences of characters.
pub struct CommandLineView {
    pub subcommand: Option<Seq<char>>,
    pub tokens: Option<Seq<char>>,
    pub to: Option<Seq<char>>,
    pub signature: Option<Seq<char>>,
}

/// The characters of a text that may be absent.
pub open spec fn text_view(text: Option<String>) -> Option<Seq<char>> {
    match text {
        Some(t) => Some(t@),
        None => None,
    }
}

impl View for CommandLine {
    type V = CommandLineView;

    open spec fn view(&self) -> CommandLineView {
        CommandLineView {
            subcommand: text_view(self.subcommand),
            tokens: text_view(self.tokens),
            to: text_view(self.to),
            signature: text_view(self.signature),
        }
    }
}

/// The amount that the value of `--tokens` stands for. A missing value is a
/// bad parameter; a value that is no amount is an invalid amount.
pub open spec fn tokens_of(tokens: Option<Seq<char>>) -> Result<i64, WalletErrorView> {
    match tokens {
        None => Err(WalletErrorView::BadParameter("Missing tokens"@)),
        Some(text) => match amount_of_text(text) {
            Some(amount) => Ok(amount),
            None => Err(WalletErrorView::InvalidAmount(text)),
        },
    }
}

/// The recipient of a payment: the key that `--to` writes or, without
/// `--to`, the caller's own key `id`. A value that does not decode to the
/// width of a key is a bad parameter.
pub open spec fn recipient_of(to: Option<Seq<char>>, id: Seq<u8>) -> Result<
    Seq<u8>,
    WalletErrorView,
> {
    match to {
        None => Ok(id),
        Some(text) => match bytes_of_text(text, PUBLIC_KEY_BYTES as nat) {
            Some(bytes) => Ok(bytes),
            None => Err(WalletErrorView::BadParameter("Invalid public key"@)),
        },
    }
}

/// The signature that `confirm` was given. A missing value, or one that does
/// not decode to the width of a signature, is a bad parameter.
pub open spec fn signature_of(signature: Option<Seq<char>>) -> Result<Seq<u8>, WalletErrorView> {
    match signature {
        None => Err(WalletErrorView::BadParameter("Missing signature"@)),
        Some(text) => match bytes_of_text(text, SIGNATURE_BYTES as nat) {
            Some(bytes) => Ok(bytes),
            None => Err(WalletErrorView::BadParameter("Invalid signature"@)),
        },
    }
}

/// The command that a `pay` line stands for. The recipient is looked at
/// before the amount, so a bad recipient is reported whatever the amount is.
pub open spec fn pay_of(line: CommandLineView, id: Seq<u8>) -> Result<
    WalletCommandView,
    WalletErrorView,
> {
    match recipient_of(line.to, id) {
        Err(error) => Err(error),
        Ok(to) => match tokens_of(line.tokens) {
            Err(error) => Err(error),
            Ok(tokens) => Ok(WalletCommandView::Pay(tokens, to)),
        },
    }
}

/// The command that `line` stands for when the caller's own key is `id`, or
/// the reason why it stands for none.
pub open spec fn command_of(line: CommandLineView, id: Seq<u8>) -> Result<
    WalletCommandView,
    WalletErrorView,
> {
    match line.subcommand {
        None => Err(WalletErrorView::CommandNotRecognized("no subcommand given"@)),
        Some(name) => if name == "airdrop"@ {
            match tokens_of(line.tokens) {
                Err(error) => Err(error),
                Ok(tokens) => Ok(WalletCommandView::AirDrop(tokens)),
            }
        } else if name == "pay"@ {
            pay_of(line, id)
        } else if name == "confirm"@ {
            match signature_of(line.signature) {
                Err(error) => Err(error),
                Ok(signature) => Ok(WalletCommandView::Confirm(signature)),
            }
        } else if name == "balance"@ {
            Ok(WalletCommandView::Balance)
        } else if name == "address"@ {
            Ok(WalletCommandView::Address)
        } else {
            Err(WalletErrorView::CommandNotRecognized("unrecognized subcommand"@))
        },
    }
}

/// Whether the text that the key or signature of `command` was read from,
/// if there is one, holds only characters of the base-58 alphabet.
pub open spec fn read_from_base58_text(line: CommandLineView, command: WalletCommandView) -> bool {
    match command {
        WalletCommandView::Pay(_, _) => line.to matches Some(to) ==> is_base58_text(to),
        WalletCommandView::Confirm(_) => line.signature matches Some(signature)
            ==> is_base58_text(signature),
        _ => true,
    }
}

/// Reads the value of `--tokens`.
fn parse_tokens(tokens: &Option<String>) -> (amount: Result<i64, WalletError>)
    ensures
        match amount {
            Ok(a) => tokens_of(text_view(*tokens)) == Ok::<i64, WalletErrorView>(a),
            Err(e) => tokens_of(text_view(*tokens)) == Err::<i64, WalletErrorView>(e@),
        },
{
    match tokens {
        None => Err(WalletError::BadParameter(String::from_str("Missing tokens"))),
        Some(text) => match parse_amount(text.as_str()) {
            Some(amount) => Ok(amount),
            None => Err(WalletError::InvalidAmount(text.clone())),
        },
    }
}

/// Reads the recipient of a payment.
fn parse_recipient(to: &Option<String>, id: &PublicKey) -> (recipient: Result<
    PublicKey,
    WalletError,
>)
    ensures
        match recipient {
            Ok(k) => recipient_of(text_view(*to), id@) == Ok::<Seq<u8>, WalletErrorView>(k@),
            Err(e) => recipient_of(text_view(*to), id@) == Err::<Seq<u8>, WalletErrorView>(e@),
        },
        recipient is Ok ==> (text_view(*to) matches Some(text) ==> is_base58_text(text)),
{
    match to {
        None => Ok(*id),
        Some(text) => match PublicKey::from_base58(text.as_str()) {
            Some(key) => Ok(key),
            None => Err(WalletError::BadParameter(String::from_str("Invalid public key"))),
        },
    }
}

/// Reads the signature given to `confirm`.
fn parse_signature(signature: &Option<String>) -> (parsed: Result<Signature, WalletError>)
    ensures
        match parsed {
            Ok(s) => signature_of(text_view(*signature)) == Ok::<Seq<u8>, WalletErrorView>(s@),
            Err(e) => signature_of(text_view(*signature)) == Err::<Seq<u8>, WalletErrorView>(e@),
        },
        parsed is Ok ==> (text_view(*signature) matches Some(text) ==> is_base58_text(text)),
{
    match signature {
        None => Err(WalletError::BadParameter(String::from_str("Missing signature"))),
        Some(text) => match Signature::from_base58(text.as_str()) {
            Some(s) => Ok(s),
            None => Err(WalletError::BadParameter(String::from_str("Invalid signature"))),
        },
    }
}

/// Turns the words of a command line into a command.
///
/// Every textual value is checked before the command is built: an amount
/// must be an integer that fits in 64 signed bits, a recipient and a
/// signature must decode from base-58 to exactly the width of a key and of a
/// signature, so a text with a character outside the base-58 alphabet is
/// never accepted for either. A payment without `--to` goes to the caller's
/// own key `id`. Amounts are not looked at beyond that: zero and negative
/// ones pass.
pub fn parse_command(line: &CommandLine, id: &PublicKey) -> (command: Result<
    WalletCommand,
    WalletError,
>)
    ensures
        match command {
            Ok(c) => command_of(line@, id@) == Ok::<WalletCommandView, WalletErrorView>(c@),
            Err(e) => command_of(line@, id@) == Err::<WalletCommandView, WalletErrorView>(e@),
        },
        command matches Ok(c) ==> read_from_base58_text(line@, c@),
{
    let name = match &line.subcommand {
        None => {
            return Err(
                WalletError::CommandNotRecognized(String::from_str("no subcommand given")),
            );
        },
        Some(name) => name.as_str(),
    };
    if same_text(name, "airdrop") {
        match parse_tokens(&line.tokens) {
            Err(error) => Err(error),
            Ok(tokens) => Ok(WalletCommand::AirDrop(tokens)),
        }
    } else if same_text(name, "pay") {
        match parse_recipient(&line.to, id) {
            Err(error) => Err(error),
            Ok(to) => match parse_tokens(&line.tokens) {
                Err(error) => Err(error),
                Ok(tokens) => Ok(WalletCommand::Pay(tokens, to)),
            },
        }
    } else if same_text(name, "confirm") {
        match parse_signature(&line.signature) {
            Err(error) => Err(error),
            Ok(signature) => Ok(WalletCommand::Confirm(signature)),
        }
    } else if same_text(name, "balance") {
        Ok(WalletCommand::Balance)
    } else if same_text(name, "address") {
        Ok(WalletCommand::Address)
    } else {
        Err(WalletError::CommandNotRecognized(String::from_str("unrecognized subcommand")))
    }
}

/// The names of the five subcommands are five different texts.
pub proof fn lemma_names_differ()
    ensures
        "airdrop"@ != "pay"@,
        "airdrop"@ != "confirm"@,
        "airdrop"@ != "balance"@,
        "airdrop"@ != "address"@,
        "pay"@ != "confirm"@,
        "pay"@ != "balance"@,
        "pay"@ != "address"@,
        "confirm"@ != "balance"@,
        "confirm"@ != "address"@,
        "balance"@ != "address"@,
{
    reveal_strlit("airdrop");
    reveal_strlit("pay");
    reveal_strlit("confirm");
    reveal_strlit("balance");
    reveal_strlit("address");
    assert("airdrop"@.len() == 7 && "airdrop"@[0] == 'a' && "airdrop"@[1] == 'i');
    assert("pay"@.len() == 3);
    assert("confirm"@.len() == 7 && "confirm"@[0] == 'c');
    assert("balance"@.len() == 7 && "balance"@[0] == 'b');
    assert("address"@.len() == 7 && "address"@[0] == 'a' && "address"@[1] == 'd');
}

/// Without a subcommand there is no command: the line is turned down as
/// not recognized, whatever else it holds.
pub proof fn lemma_no_subcommand(line: CommandLineView, id: Seq<u8>)
    requires
        line.subcommand is None,
    ensures
        command_of(line, id) == Err::<WalletCommandView, WalletErrorView>(
            WalletErrorView::CommandNotRecognized("no subcommand given"@),
        ),
{
}

/// A payment without a recipient goes to the caller's own key.
pub proof fn lemma_pay_defaults_to_self(line: CommandLineView, id: Seq<u8>, tokens: i64)
    requires
        line.subcommand == Some("pay"@),
        line.to is None,
        tokens_of(line.tokens) == Ok::<i64, WalletErrorView>(tokens),
    ensures
        command_of(line, id) == Ok::<WalletCommandView, WalletErrorView>(
            WalletCommandView::Pay(tokens, id),
        ),
{
    lemma_names_differ();
}

/// A recipient that decodes to another number of bytes than a key has, or
/// that does not decode at all, makes a payment a bad parameter, whatever
/// the amount says.
pub proof fn lemma_bad_recipient(line: CommandLineView, id: Seq<u8>, to: Seq<char>)
    requires
        line.subcommand == Some("pay"@),
        line.to == Some(to),
        match base58_decoding(to) {
            Some(bytes) => bytes.len() != PUBLIC_KEY_BYTES,
            None => true,
        },
    ensures
        command_of(line, id) == Err::<WalletCommandView, WalletErrorView>(
            WalletErrorView::BadParameter("Invalid public key"@),
        ),
{
    lemma_names_differ();
}

/// A signature that decodes to another number of bytes than a signature
/// has, or that does not decode at all, makes a confirmation a bad
/// parameter.
pub proof fn lemma_bad_signature(line: CommandLineView, id: Seq<u8>, signature: Seq<char>)
    requires
        line.subcommand == Some("confirm"@),
        line.signature == Some(signature),
        match base58_decoding(signature) {
            Some(bytes) => bytes.len() != SIGNATURE_BYTES,
            None => true,
        },
    ensures
        command_of(line, id) == Err::<WalletCommandView, WalletErrorView>(
            WalletErrorView::BadParameter("Invalid signature"@),
        ),
{
    lemma_names_differ();
}

/// Whatever a command line holds, it stands for exactly one command or is
/// turned down for a command that is not recognized, a bad parameter or an
/// invalid amount. No line fails for a reason of the transport.
pub proof fn lemma_parse_failures(line: CommandLineView, id: Seq<u8>)
    ensures
        command_of(line, id) matches Err(error) ==> !(error is Transport),
{
}

} // verus!
