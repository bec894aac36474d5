//! The ways in which a wallet invocation fails.

use vstd::prelude::*;
use vstd::string::*;

verus! {

/// Why an invocation ended without success.
#[derive(Clone, Debug, PartialEq, Eq)]
pub enum WalletError {
    /// No subcommand was given, or one that the wallet does not know.
    CommandNotRecognized(String),
    /// A value of the command line is missing or has the wrong shape.
    BadParameter(String),
    /// A token amount is not an integer that fits in 64 signed bits. Holds
    /// the text that was given.
    InvalidAmount(String),
    /// A call to one of the remote services failed. Holds the detail that
    /// the transport reported.
    Transport(String),
}

/// A [`WalletError`] with its texts as sequences of characters.
pub enum WalletErrorView {
    CommandNotRecognized(Seq<char>),
    BadParameter(Seq<char>),
    InvalidAmount(Seq<char>),
    Transport(Seq<char>),
}

impl View for WalletError {
    type V = WalletErrorView;

    open spec fn view(&self) -> WalletErrorView {
        match self {
            WalletError::CommandNotRecognized(m) => WalletErrorView::CommandNotRecognized(m@),
            WalletError::BadParameter(m) => WalletErrorView::BadParameter(m@),
            WalletError::InvalidAmount(m) => WalletErrorView::InvalidAmount(m@),
            WalletError::Transport(m) => WalletErrorView::Transport(m@),
        }
    }
}

/// Whether the command summary is shown again when an invocation fails with
/// `error`: it is for a command that is not recognized and for a bad
/// parameter, and for nothing else.
pub open spec fn shows_summary(error: WalletErrorView) -> bool {
    error is CommandNotRecognized || error is BadParameter
}

impl WalletError {
    /// Whether the command summary is shown again with this error.
    pub fn shows_summary(&self) -> (shown: bool)
        ensures
            shown == shows_summary(self@),
    {
        match self {
            WalletError::CommandNotRecognized(_) => true,
            WalletError::BadParameter(_) => true,
            WalletError::InvalidAmount(_) => false,
            WalletError::Transport(_) => false,
        }
    }

    /// The text that the error carries.
    pub fn message(&self) -> (text: &str)
        ensures
            text@ == message_of(self@),
    {
        match self {
            WalletError::CommandNotRecognized(m) => m.as_str(),
            WalletError::BadParameter(m) => m.as_str(),
            WalletError::InvalidAmount(m) => m.as_str(),
            WalletError::Transport(m) => m.as_str(),
        }
    }

    /// What the error says of itself when it is shown to the user: the one
    /// word `invalid` for a command line that was turned down, and the
    /// transport's own detail for a failed call.
    pub fn description(&self) -> (text: String)
        ensures
            text@ == description_of(self@),
    {
        match self {
            WalletError::CommandNotRecognized(_) => String::from_str("invalid"),
            WalletError::BadParameter(_) => String::from_str("invalid"),
            WalletError::InvalidAmount(_) => String::from_str("invalid"),
            WalletError::Transport(m) => m.clone(),
        }
    }
}

/// The text by which an error describes itself.
pub open spec fn description_of(error: WalletErrorView) -> Seq<char> {
    match error {
        WalletErrorView::CommandNotRecognized(_) => "invalid"@,
        WalletErrorView::BadParameter(_) => "invalid"@,
        WalletErrorView::InvalidAmount(_) => "invalid"@,
        WalletErrorView::Transport(m) => m,
    }
}

/// The text that an error carries.
pub open spec fn message_of(error: WalletErrorView) -> Seq<char> {
    match error {
        WalletErrorView::CommandNotRecognized(m) => m,
        WalletErrorView::BadParameter(m) => m,
        WalletErrorView::InvalidAmount(m) => m,
        WalletErrorView::Transport(m) => m,
    }
}

} // verus!
