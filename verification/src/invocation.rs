//! One invocation of the wallet, from the words of its command line to the
//! first step of its run.

use vstd::prelude::*;
use crate::command::{command_of, read_from_base58_text, CommandLine, CommandLineView};
use crate::command::WalletCommandView;
use crate::config::{parse_args, parse_output, WalletConfig};
use crate::endpoint::{drone_addr_of, NodeInfo};
use crate::error::WalletErrorView;
use crate::executor::{first_step, process_command, Event, Next, NextView, Progress, Step};
use crate::executor::StepView;
use crate::help::summary_lines;
use crate::keys::PublicKey;

verus! {

/// How an invocation begins: with a configuration and the first step of its
/// run, or without a configuration and with the step that ends it.
#[derive(Debug, PartialEq, Eq)]
pub struct Invocation {
    pub config: Option<WalletConfig>,
    pub step: Step,
}

/// The only step of an invocation whose command line is turned down with
/// `error`: it shows what reading the line shows, and ends the run with the
/// error. Nothing is asked of the outside world.
pub open spec fn turned_down(error: WalletErrorView) -> StepView {
    StepView {
        output: parse_output(Err::<WalletCommandView, WalletErrorView>(error)),
        next: NextView::Exit(Err(error)),
    }
}

/// Begins an invocation: reads the command line and, where it stands for a
/// command, takes the first step of the run.
///
/// A command line that is turned down ends the invocation before anything
/// is asked of the outside world.
pub fn start(line: &CommandLine, leader: NodeInfo, id: PublicKey) -> (invocation: Invocation)
    ensures
        match command_of(line@, id@) {
            Err(error) => {
                &&& invocation.config is None
                &&& invocation.step@ == turned_down(error)
            },
            Ok(command) => {
                &&& invocation.config matches Some(config)
                &&& config.command@ == command
                &&& config.leader == leader
                &&& config.id == id
                &&& config.drone_addr == drone_addr_of(leader)
                &&& read_from_base58_text(line@, command)
                &&& invocation.step@ == first_step(config)
            },
        },
{
    let parsed = parse_args(line, leader, id);
    match parsed.config {
        Ok(config) => {
            let step = process_command(&config, Progress::Start, &Event::Begin);
            Invocation { config: Some(config), step }
        },
        Err(error) => Invocation {
            config: None,
            step: Step { output: parsed.output, next: Next::Exit(Err(error)) },
        },
    }
}

/// An invocation without a subcommand shows the command summary and ends
/// as not recognized, without a request to the outside world.
pub proof fn lemma_no_subcommand_ends_at_once(line: CommandLineView, id: Seq<u8>)
    requires
        line.subcommand is None,
    ensures
        command_of(line, id) == Err::<WalletCommandView, WalletErrorView>(
            WalletErrorView::CommandNotRecognized("no subcommand given"@),
        ),
        turned_down(WalletErrorView::CommandNotRecognized("no subcommand given"@)) == (StepView {
            output: summary_lines(),
            next: NextView::Exit(
                Err(WalletErrorView::CommandNotRecognized("no subcommand given"@)),
            ),
        }),
{
}

} // verus!
