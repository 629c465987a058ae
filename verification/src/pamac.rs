//! The block itself: its configuration, its state and what it decides.

use crate::command::{CommandResult, ShellCommand};
use crate::errors::{BlockError, ErrorKind};
use crate::input::{I3BarEvent, MouseButton};
use crate::scheduler::Task;
use crate::text::{count_lines, decimal, decimal_string, is_utf8, line_count};
use crate::text::{all_text, lemma_decimal_nonempty, lemma_line_count_of_records};
use crate::text::{lemma_terminated_is_text, single_lines, terminated};
use crate::time::whole_seconds;
use crate::token::{fresh_token, is_token};
use crate::widget::{ButtonWidget, State, WidgetView};
use crossbeam_channel::Sender;
use std::time::Duration;
use vstd::prelude::*;
use vstd::utf8::valid_utf8;

verus! {

/// The name of the block: its widget carries it, and so do its failures.
pub const BLOCK_NAME: &'static str = "pamac";

/// The name of the block's icon.
pub const ICON_NAME: &'static str = "update";

/// The command line that lists the pending updates, one to a line.
pub const CHECK_SCRIPT: &'static str = "pamac checkupdates -q";

/// The locale in which the pending updates are listed.
pub const CHECK_LOCALE: &'static str = "C";

/// The command line that opens the graphical package manager.
pub const MANAGER_SCRIPT: &'static str = "pamac-manager --updates";

/// The seconds between two polls where the configuration names none.
pub const DEFAULT_INTERVAL_SECS: u64 = 600;

/// The configuration of the block.
#[derive(Debug, Clone, Copy)]
pub struct PamacConfig {
    /// The time between two polls.
    pub interval: Duration,
}

/// The block.
pub struct Pamac {
    output: ButtonWidget,
    id: String,
    update_interval: Duration,
}

/// What a block holds, as mathematical values.
pub struct PamacView {
    pub output: WidgetView,
    pub id: Seq<char>,
    pub update_interval: Duration,
}

impl Pamac {
    /// What the block holds.
    pub closed spec fn model(&self) -> PamacView {
        PamacView { output: self.output@, id: self.id@, update_interval: self.update_interval }
    }
}

/// What a poll learns from `result`: the number of pending updates, or why
/// there is none to give.
pub open spec fn counted(result: CommandResult) -> Result<nat, ErrorKind> {
    match result {
        CommandResult::Failure => Err(ErrorKind::CommandLaunchFailure),
        CommandResult::Output(bytes) => if valid_utf8(bytes@) {
            Ok(line_count(bytes@))
        } else {
            Err(ErrorKind::OutputDecodeFailure)
        },
    }
}

/// The text for `count` pending updates: blank for none, else the numeral.
pub open spec fn display_text(count: nat) -> Seq<char> {
    if count == 0 {
        Seq::empty()
    } else {
        decimal(count)
    }
}

/// The urgency for `count` pending updates.
pub open spec fn severity(count: nat) -> State {
    if count == 0 {
        State::Idle
    } else {
        State::Info
    }
}

impl PamacView {
    /// The block as it is built: token `id`, polled every `interval`, with a
    /// blank widget that bears the block's name and icon.
    pub open spec fn initial(interval: Duration, id: Seq<char>) -> PamacView {
        PamacView {
            output: WidgetView::blank(BLOCK_NAME@).with_icon(ICON_NAME@),
            id,
            update_interval: interval,
        }
    }

    /// Whether the block is in a state that building and polling lead to:
    /// its widget bears the block's name and icon, and shows some count.
    pub open spec fn wf(self) -> bool {
        &&& self.output.id == BLOCK_NAME@
        &&& self.output.icon == Some(ICON_NAME@)
        &&& exists|count: nat|
            self.output.text == #[trigger] display_text(count) && self.output.state == severity(
                count,
            )
    }

    /// The block showing `count` pending updates. Text and urgency are
    /// replaced; nothing else changes.
    pub open spec fn showing(self, count: nat) -> PamacView {
        PamacView {
            output: self.output.with_text(display_text(count)).with_state(severity(count)),
            ..self
        }
    }

    /// The block after a poll that learnt `result`: it shows the new count,
    /// or stays as it was where there is none.
    pub open spec fn after_update(self, result: CommandResult) -> PamacView {
        match counted(result) {
            Ok(count) => self.showing(count),
            Err(_) => self,
        }
    }
}

impl PamacConfig {
    /// The time between two polls where the configuration names none: ten
    /// minutes.
    pub fn default_interval() -> (interval: Duration)
        ensures
            interval == whole_seconds(DEFAULT_INTERVAL_SECS),
    {
        Duration::from_secs(DEFAULT_INTERVAL_SECS)
    }
}

impl Default for PamacConfig {
    /// The configuration that names no interval: polls come ten minutes apart.
    fn default() -> (config: PamacConfig)
        ensures
            config.interval == whole_seconds(DEFAULT_INTERVAL_SECS),
    {
        PamacConfig { interval: PamacConfig::default_interval() }
    }
}

/// The command whose output a poll is to be fed: it lists the pending
/// updates, in a fixed locale.
pub fn check_updates_command() -> (command: ShellCommand)
    ensures
        command.runs(CHECK_SCRIPT@, Some(CHECK_LOCALE@)),
{
    ShellCommand {
        script: String::from_str(CHECK_SCRIPT),
        lc_all: Some(String::from_str(CHECK_LOCALE)),
    }
}

/// The command a click asks for: it opens the graphical package manager.
pub fn manager_command() -> (command: ShellCommand)
    ensures
        command.runs(MANAGER_SCRIPT@, None),
{
    ShellCommand { script: String::from_str(MANAGER_SCRIPT), lc_all: None }
}

/// The number of pending updates that `result` tells of: the number of lines
/// of the output. A command that did not run, or whose output is not UTF-8,
/// is a failure of this block.
pub fn get_update_count(result: &CommandResult) -> (count: Result<usize, BlockError>)
    ensures
        match counted(*result) {
            Ok(n) => count == Ok::<usize, BlockError>(n as usize) && n <= usize::MAX,
            Err(kind) => count is Err && count.unwrap_err().reports(BLOCK_NAME@, kind),
        },
{
    match result {
        CommandResult::Failure => Err(
            BlockError::new(BLOCK_NAME, ErrorKind::CommandLaunchFailure),
        ),
        CommandResult::Output(bytes) => {
            if is_utf8(bytes) {
                Ok(count_lines(bytes))
            } else {
                Err(BlockError::new(BLOCK_NAME, ErrorKind::OutputDecodeFailure))
            }
        },
    }
}

impl Pamac {
    /// Builds the block with the token `id`.
    pub fn with_id(block_config: PamacConfig, id: String) -> (block: Pamac)
        ensures
            block.model() == PamacView::initial(block_config.interval, id@),
            block.model().wf(),
    {
        proof {
            lemma_initial_wf(block_config.interval, id@);
        }
        Pamac {
            id,
            update_interval: block_config.interval,
            output: ButtonWidget::new(BLOCK_NAME).with_icon(ICON_NAME),
        }
    }

    /// Builds the block with a fresh token. The channel to the scheduler is
    /// taken and not used: this block never asks for a poll of its own.
    pub fn new(block_config: PamacConfig, _tx_update_request: Sender<Task>) -> (block: Result<
        Pamac,
        BlockError,
    >)
        ensures
            block is Ok,
            is_token(block.unwrap().model().id),
            block.unwrap().model() == PamacView::initial(
                block_config.interval,
                block.unwrap().model().id,
            ),
            block.unwrap().model().wf(),
    {
        Ok(Pamac::with_id(block_config, fresh_token()))
    }

    /// Polls the block with the outcome of the command that lists the pending
    /// updates.
    ///
    /// Where the outcome gives a count, the widget shows it and the answer is
    /// the configured interval, whatever the count. Where it gives none, the
    /// block stays as it was and the failure is reported under the block's
    /// name.
    pub fn update(&mut self, result: CommandResult) -> (next: Result<
        Option<Duration>,
        BlockError,
    >)
        ensures
            final(self).model() == old(self).model().after_update(result),
            old(self).model().wf() ==> final(self).model().wf(),
            match counted(result) {
                Ok(_) => next == Ok::<Option<Duration>, BlockError>(
                    Some(old(self).model().update_interval),
                ),
                Err(kind) => next is Err && next.unwrap_err().reports(BLOCK_NAME@, kind),
            },
    {
        proof {
            if old(self).model().wf() {
                lemma_update_preserves_wf(old(self).model(), result);
            }
        }
        let count = match get_update_count(&result) {
            Ok(count) => count,
            Err(error) => {
                return Err(error);
            },
        };
        let text = if count == 0 {
            String::new()
        } else {
            decimal_string(count)
        };
        self.output.set_text(text);
        self.output.set_state(
            if count == 0 {
                State::Idle
            } else {
                State::Info
            },
        );
        Ok(Some(self.update_interval))
    }

    /// The widget to draw.
    pub fn view(&self) -> (widgets: Vec<&ButtonWidget>)
        ensures
            widgets@.len() == 1,
            widgets@[0]@ == self.model().output,
    {
        vec![&self.output]
    }

    /// The token of the block.
    pub fn id(&self) -> (id: &str)
        ensures
            id@ == self.model().id,
    {
        self.id.as_str()
    }

    /// Handles a click: a click with the left button on the block's widget
    /// asks for the graphical package manager, any other event for nothing.
    /// The block stays as it was either way.
    pub fn click(&mut self, event: &I3BarEvent) -> (action: Result<
        Option<ShellCommand>,
        BlockError,
    >)
        ensures
            final(self).model() == old(self).model(),
            action is Ok,
            action.unwrap() is Some <==> event.hits(BLOCK_NAME@, MouseButton::Left),
            action.unwrap() matches Some(command) ==> command.runs(MANAGER_SCRIPT@, None),
    {
        let named = match &event.name {
            Some(name) => *name == String::from_str(BLOCK_NAME),
            None => false,
        };
        if named && event.button == MouseButton::Left {
            Ok(Some(manager_command()))
        } else {
            Ok(None)
        }
    }
}

/// A poll fed a list of records, one to a line, shows how many they are: a
/// blank text at rest for none, else the numeral, which is never blank, as
/// information. This is owed where the records are text; a record that is
/// not UTF-8 makes the poll fail.
pub proof fn lemma_update_shows_record_count(
    block: PamacView,
    records: Seq<Seq<u8>>,
    output: Vec<u8>,
)
    requires
        single_lines(records),
        all_text(records),
        output@ == terminated(records),
    ensures
        counted(CommandResult::Output(output)) == Ok::<nat, ErrorKind>(records.len()),
        block.after_update(CommandResult::Output(output)) == block.showing(records.len()),
        records.len() == 0 ==> {
            &&& block.showing(records.len()).output.text == Seq::<char>::empty()
            &&& block.showing(records.len()).output.state == State::Idle
        },
        records.len() > 0 ==> {
            &&& block.showing(records.len()).output.text == decimal(records.len())
            &&& block.showing(records.len()).output.text.len() > 0
            &&& block.showing(records.len()).output.state == State::Info
        },
{
    lemma_line_count_of_records(records);
    lemma_terminated_is_text(records);
    lemma_decimal_nonempty(records.len());
}

/// A block is well formed as it is built.
pub proof fn lemma_initial_wf(interval: Duration, id: Seq<char>)
    ensures
        PamacView::initial(interval, id).wf(),
{
    let block = PamacView::initial(interval, id);
    assert(block.output.text == display_text(0) && block.output.state == severity(0));
}

/// A poll keeps a well-formed block well formed, whatever it learnt.
pub proof fn lemma_update_preserves_wf(block: PamacView, result: CommandResult)
    requires
        block.wf(),
    ensures
        block.after_update(result).wf(),
{
    let after = block.after_update(result);
    match counted(result) {
        Ok(count) => {
            assert(after.output.text == display_text(count) && after.output.state == severity(
                count,
            ));
        },
        Err(_) => {},
    }
}

/// A second poll that learns what the first one learnt changes nothing.
pub proof fn lemma_update_idempotent(block: PamacView, result: CommandResult)
    ensures
        block.after_update(result).after_update(result) == block.after_update(result),
{
}

/// A poll touches the text and the urgency alone: the token, the interval,
/// the widget's name and its icon stay, whatever the poll learnt.
pub proof fn lemma_update_keeps_identity(block: PamacView, result: CommandResult)
    ensures
        block.after_update(result).id == block.id,
        block.after_update(result).update_interval == block.update_interval,
        block.after_update(result).output.id == block.output.id,
        block.after_update(result).output.icon == block.output.icon,
{
}

/// A poll that learnt no count leaves the block as it was.
pub proof fn lemma_failed_update_changes_nothing(block: PamacView, result: CommandResult)
    requires
        counted(result) is Err,
    ensures
        block.after_update(result) == block,
{
}

} // verus!
