//! The privileged installer as a state machine. It decides; the program
//! around it performs each action and hands back what happened.
//!
//! ```text
//! Starting   --readiness line-->  Waiting
//! Waiting    --"install"------->  Validating   run the syntax check
//! Validating --clean----------->  Activating   copy the staged file
//! Activating --clean----------->  Reloading    run the reload command
//! Reloading  --clean----------->  Responding   write "OK"
//! any of these three --diagnostic--> Responding  write the diagnostic
//! any of these three --timed out---> Responding  write that it timed out
//! Responding --written--------->  Waiting
//! Waiting    --termination----->  Stopped
//! ```
//!
//! One command is dealt with from beginning to end before the next line is
//! read. The stages do not undo one another: where the reload command
//! complains, the staged ruleset was copied over the active one already and
//! stays there, though it is not the one in force.

use vstd::prelude::*;
use vstd::string::*;
use crate::channel::{
    command_spec, encode_response, install_word, is_ready, payload_spec, ready_spec,
    response_spec, ChannelError, ChannelKeys,
};
use crate::text::{split_words, str_eq, views, words_spec};

verus! {

/// Where the installer finds the filter engine and the files, and how it
/// reloads the ruleset.
#[derive(Clone, Debug, PartialEq, Eq)]
pub struct InstallerSettings {
    /// The path of the filter engine.
    pub nft: String,
    /// The path of the staged ruleset.
    pub test: String,
    /// The path of the active ruleset.
    pub conf: String,
    /// The command line that reloads the active ruleset.
    pub reload: String,
}

pub struct SettingsView {
    pub nft: Seq<char>,
    pub test: Seq<char>,
    pub conf: Seq<char>,
    pub reload: Seq<char>,
}

impl View for InstallerSettings {
    type V = SettingsView;

    open spec fn view(&self) -> SettingsView {
        SettingsView {
            nft: self.nft@,
            test: self.test@,
            conf: self.conf@,
            reload: self.reload@,
        }
    }
}

/// What the installer is doing.
#[derive(Clone, Copy, Debug, PartialEq, Eq, Structural)]
pub enum Stage {
    /// The keys were sent; the readiness line is awaited.
    Starting,
    /// A command is awaited.
    Waiting,
    /// The syntax check of the staged ruleset runs.
    Validating,
    /// The staged ruleset is copied over the active one.
    Activating,
    /// The reload command runs.
    Reloading,
    /// The result is written to the composer.
    Responding,
    /// The loop has ended.
    Stopped,
}

/// What happened.
#[derive(Clone, Debug, PartialEq, Eq)]
pub enum Event {
    /// The termination flag was found set.
    Terminate,
    /// A line was read from the composer.
    Line(String),
    /// The action has ended; the text is what it complained of, empty where
    /// it went well.
    Done(String),
    /// The action did not end in the time it was given and was given up.
    TimedOut,
    /// The line was written.
    Written,
}

pub enum EventView {
    Terminate,
    Line(Seq<char>),
    Done(Seq<char>),
    TimedOut,
    Written,
}

impl View for Event {
    type V = EventView;

    open spec fn view(&self) -> EventView {
        match self {
            Event::Terminate => EventView::Terminate,
            Event::Line(line) => EventView::Line(line@),
            Event::Done(diagnostic) => EventView::Done(diagnostic@),
            Event::TimedOut => EventView::TimedOut,
            Event::Written => EventView::Written,
        }
    }
}

/// What is to be done next.
#[derive(Clone, Debug, PartialEq, Eq)]
pub enum Action {
    /// Look at the termination flag; where it is not set, read a line from
    /// the composer.
    ReadLine,
    /// Run a program with arguments and hand back what it wrote to its error
    /// stream.
    Run(Vec<String>),
    /// Copy the first file over the second and hand back the error, if any.
    Copy(String, String),
    /// Write a line to the composer.
    Write(String),
    /// Leave the loop.
    Stop,
    /// Leave the loop: the channel is broken.
    Abort(ChannelError),
}

pub enum ActionView {
    ReadLine,
    Run(Seq<Seq<char>>),
    Copy(Seq<char>, Seq<char>),
    Write(Seq<char>),
    Stop,
    Abort(ChannelError),
}

impl View for Action {
    type V = ActionView;

    open spec fn view(&self) -> ActionView {
        match self {
            Action::ReadLine => ActionView::ReadLine,
            Action::Run(words) => ActionView::Run(views(words@)),
            Action::Copy(from, to) => ActionView::Copy(from@, to@),
            Action::Write(line) => ActionView::Write(line@),
            Action::Stop => ActionView::Stop,
            Action::Abort(e) => ActionView::Abort(*e),
        }
    }
}

/// The installer: its stage, its keys and its settings.
pub struct Installer {
    pub stage: Stage,
    pub keys: ChannelKeys,
    pub settings: InstallerSettings,
}

/// The result that tells the composer that all went well.
pub open spec fn ok_word() -> Seq<char> {
    "OK"@
}

/// The result that tells the composer that there is no reload command.
pub open spec fn no_reload_word() -> Seq<char> {
    "Invalid reload command"@
}

/// The result that tells the composer that a stage took too long.
pub open spec fn timeout_word() -> Seq<char> {
    "Timed out"@
}

/// The step that answers the composer with `text`.
pub open spec fn respond_spec(text: Seq<char>) -> (Stage, ActionView) {
    (Stage::Responding, ActionView::Write(response_spec(text)))
}

/// The words of the syntax check of the staged ruleset.
pub open spec fn check_words(s: SettingsView) -> Seq<Seq<char>> {
    seq![s.nft, "-c"@, "-f"@, s.test]
}

/// What follows a command: the syntax check for the install command, the
/// next command for any other, the end for a line that carried none.
pub open spec fn command_step(s: SettingsView, command: Result<Seq<char>, ChannelError>) -> (
    Stage,
    ActionView,
) {
    match command {
        Ok(text) => if text == install_word() {
            (Stage::Validating, ActionView::Run(check_words(s)))
        } else {
            (Stage::Waiting, ActionView::ReadLine)
        },
        Err(e) => (Stage::Stopped, ActionView::Abort(e)),
    }
}

/// What follows the first line of the composer.
pub open spec fn ready_step(line: Seq<char>) -> (Stage, ActionView) {
    if line == ready_spec() {
        (Stage::Waiting, ActionView::ReadLine)
    } else {
        (Stage::Stopped, ActionView::Abort(ChannelError::NotReady))
    }
}

/// What follows the end of an action: a diagnostic is the result of the
/// whole attempt; without one the next stage begins, and after the last
/// stage the result is the word that all went well.
pub open spec fn done_step(stage: Stage, s: SettingsView, diagnostic: Seq<char>) -> (
    Stage,
    ActionView,
) {
    if diagnostic.len() > 0 {
        respond_spec(diagnostic)
    } else {
        match stage {
            Stage::Validating => (Stage::Activating, ActionView::Copy(s.test, s.conf)),
            Stage::Activating => if words_spec(s.reload).len() == 0 {
                respond_spec(no_reload_word())
            } else {
                (Stage::Reloading, ActionView::Run(words_spec(s.reload)))
            },
            _ => respond_spec(ok_word()),
        }
    }
}

/// Whether an action can end in this stage.
pub open spec fn acting(stage: Stage) -> bool {
    stage == Stage::Validating || stage == Stage::Activating || stage == Stage::Reloading
}

/// What follows an event that is not a command line.
pub open spec fn step_spec(stage: Stage, s: SettingsView, event: EventView) -> (
    Stage,
    ActionView,
) {
    match (stage, event) {
        (Stage::Stopped, _) => (Stage::Stopped, ActionView::Stop),
        (Stage::Starting, EventView::Line(line)) => ready_step(line),
        (Stage::Waiting, EventView::Terminate) => (Stage::Stopped, ActionView::Stop),
        (Stage::Responding, EventView::Written) => (Stage::Waiting, ActionView::ReadLine),
        (_, EventView::Done(diagnostic)) => if acting(stage) {
            done_step(stage, s, diagnostic)
        } else {
            (Stage::Stopped, ActionView::Abort(ChannelError::OutOfTurn))
        },
        (_, EventView::TimedOut) => if acting(stage) {
            respond_spec(timeout_word())
        } else {
            (Stage::Stopped, ActionView::Abort(ChannelError::OutOfTurn))
        },
        _ => (Stage::Stopped, ActionView::Abort(ChannelError::OutOfTurn)),
    }
}

/// Whether reading `line` under these keys can give `command`: the command
/// that the line carries where the cipher succeeds, or the failure of the
/// cipher on a line of hexadecimal text.
pub open spec fn may_read(keys: ChannelKeys, line: Seq<char>, command: Result<
    Seq<char>,
    ChannelError,
>) -> bool {
    match command {
        Err(ChannelError::Cipher) => payload_spec(line) is Ok,
        _ => command_spec(keys.key_spec(), keys.iv_spec(), line) == command,
    }
}

/// What reading a line gave, as a list of characters.
pub open spec fn command_view(command: Result<String, ChannelError>) -> Result<
    Seq<char>,
    ChannelError,
> {
    match command {
        Ok(text) => Ok(text@),
        Err(e) => Err(e),
    }
}

impl Installer {
    /// An installer that has sent its keys and awaits the readiness line.
    pub fn new(keys: ChannelKeys, settings: InstallerSettings) -> (installer: Installer)
        ensures
            installer.stage == Stage::Starting,
            installer.keys == keys,
            installer.settings == settings,
    {
        Installer { stage: Stage::Starting, keys, settings }
    }

    /// Answers the composer with `text`.
    fn respond(&mut self, text: &str) -> (action: Action)
        ensures
            (final(self).stage, action@) == respond_spec(text@),
            final(self).keys == old(self).keys,
            final(self).settings == old(self).settings,
    {
        self.stage = Stage::Responding;
        Action::Write(encode_response(text))
    }

    /// What follows a command that was read, or the failure to read one.
    pub fn on_command(&mut self, command: Result<String, ChannelError>) -> (action: Action)
        ensures
            (final(self).stage, action@) == command_step(
                old(self).settings@,
                command_view(command),
            ),
            final(self).keys == old(self).keys,
            final(self).settings == old(self).settings,
    {
        match command {
            Ok(text) => {
                if str_eq(text.as_str(), "install") {
                    let mut words: Vec<String> = Vec::new();
                    words.push(self.settings.nft.clone());
                    words.push(String::from_str("-c"));
                    words.push(String::from_str("-f"));
                    words.push(self.settings.test.clone());
                    assert(views(words@) =~= check_words(self.settings@));
                    self.stage = Stage::Validating;
                    Action::Run(words)
                } else {
                    self.stage = Stage::Waiting;
                    Action::ReadLine
                }
            },
            Err(e) => {
                self.stage = Stage::Stopped;
                Action::Abort(e)
            },
        }
    }

    /// What follows the end of an action.
    fn on_done(&mut self, diagnostic: &str) -> (action: Action)
        requires
            acting(old(self).stage),
        ensures
            (final(self).stage, action@) == done_step(
                old(self).stage,
                old(self).settings@,
                diagnostic@,
            ),
            final(self).keys == old(self).keys,
            final(self).settings == old(self).settings,
    {
        if !diagnostic.is_empty() {
            return self.respond(diagnostic);
        }
        match self.stage {
            Stage::Validating => {
                self.stage = Stage::Activating;
                Action::Copy(self.settings.test.clone(), self.settings.conf.clone())
            },
            Stage::Activating => {
                let words = split_words(self.settings.reload.as_str());
                if words.len() == 0 {
                    self.respond("Invalid reload command")
                } else {
                    self.stage = Stage::Reloading;
                    Action::Run(words)
                }
            },
            _ => self.respond("OK"),
        }
    }

    /// Takes an event and says what is to be done next. A line that is read
    /// while a command is awaited is deciphered first; what follows then
    /// depends on what the cipher gives.
    pub fn step(&mut self, event: Event) -> (action: Action)
        ensures
            final(self).keys == old(self).keys,
            final(self).settings == old(self).settings,
            (match (old(self).stage, event) {
                (Stage::Waiting, Event::Line(line)) => exists|
                    command: Result<Seq<char>, ChannelError>,
                |
                    may_read(old(self).keys, line@, command) && (final(self).stage, action@)
                        == command_step(old(self).settings@, command),
                _ => (final(self).stage, action@) == step_spec(
                    old(self).stage,
                    old(self).settings@,
                    event@,
                ),
            }),
    {
        match (self.stage, event) {
            (Stage::Stopped, _) => Action::Stop,
            (Stage::Starting, Event::Line(line)) => {
                if is_ready(line.as_str()) {
                    self.stage = Stage::Waiting;
                    Action::ReadLine
                } else {
                    self.stage = Stage::Stopped;
                    Action::Abort(ChannelError::NotReady)
                }
            },
            (Stage::Waiting, Event::Terminate) => {
                self.stage = Stage::Stopped;
                Action::Stop
            },
            (Stage::Waiting, Event::Line(line)) => {
                let command = self.keys.read_command(line.as_str());
                assert(may_read(self.keys, line@, command_view(command)));
                self.on_command(command)
            },
            (Stage::Responding, Event::Written) => {
                self.stage = Stage::Waiting;
                Action::ReadLine
            },
            (Stage::Validating, Event::Done(diagnostic)) => self.on_done(diagnostic.as_str()),
            (Stage::Activating, Event::Done(diagnostic)) => self.on_done(diagnostic.as_str()),
            (Stage::Reloading, Event::Done(diagnostic)) => self.on_done(diagnostic.as_str()),
            (Stage::Validating, Event::TimedOut) => self.respond("Timed out"),
            (Stage::Activating, Event::TimedOut) => self.respond("Timed out"),
            (Stage::Reloading, Event::TimedOut) => self.respond("Timed out"),
            _ => {
                self.stage = Stage::Stopped;
                Action::Abort(ChannelError::OutOfTurn)
            },
        }
    }
}

} // verus!
