//! The configuration of one invocation: whom to talk to, as whom, and what
//! to do.

use vstd::prelude::*;
use crate::command::{command_of, parse_command, read_from_base58_text, CommandLine};
use crate::command::{WalletCommand, WalletCommandView};
use crate::endpoint::{default_leader_addr, drone_addr, drone_addr_of, NodeInfo, SocketAddress};
use crate::endpoint::DEFAULT_LEADER_PORT;
use crate::error::{shows_summary, WalletError, WalletErrorView};
use crate::help::{display_actions, summary_lines};
use crate::keys::PublicKey;
use crate::text::{lines_view, no_lines};

verus! {

/// Everything that one invocation works with. It is made once, from the
/// command line, and only read afterwards.
#[derive(Clone, Copy, Debug, PartialEq, Eq)]
pub struct WalletConfig {
    /// The node that answers queries and takes transactions.
    pub leader: NodeInfo,
    /// The caller's own public key. The signing key that belongs to it
    /// stays with the caller.
    pub id: PublicKey,
    /// The address of the token-grant service.
    pub drone_addr: SocketAddress,
    /// What to do.
    pub command: WalletCommand,
}

impl WalletConfig {
    /// The configuration to start from when nothing is known but the leader
    /// and the caller's key: the token-grant service at the default leader
    /// address, and the command to show the balance.
    pub fn default(leader: NodeInfo, id: PublicKey) -> (config: WalletConfig)
        ensures
            config.leader == leader,
            config.id == id,
            config.drone_addr.is_unspecified_v4(),
            config.drone_addr.port == DEFAULT_LEADER_PORT,
            config.command == WalletCommand::Balance,
    {
        WalletConfig {
            leader,
            id,
            drone_addr: default_leader_addr(),
            command: WalletCommand::Balance,
        }
    }
}

/// What reading a command line gives: the lines to show to the user, and the
/// configuration or the reason why there is none.
#[derive(Debug, PartialEq, Eq)]
pub struct ParsedArgs {
    pub output: Vec<String>,
    pub config: Result<WalletConfig, WalletError>,
}

/// The lines shown to the user after a command line was read: the command
/// summary where reading failed with an error that shows it, and nothing
/// otherwise.
pub open spec fn parse_output<T>(parsed: Result<T, WalletErrorView>) -> Seq<Seq<char>> {
    match parsed {
        Err(error) => if shows_summary(error) {
            summary_lines()
        } else {
            Seq::empty()
        },
        Ok(_) => Seq::empty(),
    }
}

/// Builds the configuration of an invocation from the words of its command
/// line, the leader to talk to and the caller's own key.
///
/// The command line is accepted exactly when it stands for a command. The
/// configuration then holds that command, the leader and the key as given,
/// and as the address of the token-grant service the leader's transaction
/// address with the port of that service. A command line that is turned
/// down for an unknown command or a bad parameter has the command summary
/// as its output; in every other case there is no output.
pub fn parse_args(line: &CommandLine, leader: NodeInfo, id: PublicKey) -> (parsed: ParsedArgs)
    ensures
        lines_view(parsed.output@) == parse_output(command_of(line@, id@)),
        match parsed.config {
            Ok(config) => {
                &&& command_of(line@, id@) == Ok::<WalletCommandView, WalletErrorView>(config.command@)
                &&& config.leader == leader
                &&& config.id == id
                &&& config.drone_addr == drone_addr_of(leader)
                &&& read_from_base58_text(line@, config.command@)
            },
            Err(error) => command_of(line@, id@) == Err::<WalletCommandView, WalletErrorView>(error@),
        },
{
    let drone_addr = drone_addr(&leader);
    match parse_command(line, &id) {
        Ok(command) => ParsedArgs {
            output: no_lines(),
            config: Ok(WalletConfig { leader, id, drone_addr, command }),
        },
        Err(error) => {
            let output = if error.shows_summary() {
                display_actions()
            } else {
                no_lines()
            };
            ParsedArgs { output, config: Err(error) }
        },
    }
}

} // verus!
