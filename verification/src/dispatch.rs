//! The dispatch boundary between the front-end and the host.
//!
//! A request names an operation and brings named arguments. It is decoded
//! into a [`Command`] before anything is done, and a request that cannot be
//! decoded is answered with an error that names the offending part. A command
//! is then routed to the one thing the host has to do for it, and what the
//! host reports back is turned into the reply. No request depends on an
//! earlier one.

use vstd::prelude::*;
use vstd::string::*;
use crate::suggest::{suggestion_url, suggestion_url_of, FetchError};
use crate::visibility::{reported, WindowProbe};

verus! {

/// Name of the operation that opens a URL in the system's default handler.
pub const OPEN_BROWSER: &'static str = "open_browser";

/// Name of the operation that hides the managed window.
pub const HIDE_WINDOW: &'static str = "hide_window";

/// Name of the operation that writes a line to the host's log.
pub const LOG_TO_TERMINAL: &'static str = "log_to_terminal";

/// Name of the operation that fetches search suggestions.
pub const GET_SUGGESTIONS: &'static str = "get_suggestions";

/// How the reply to a failed `open_browser` begins.
pub const OPEN_FAILED: &'static str = "Failed to open URL: ";

/// How the reply to a failed `hide_window` begins.
pub const HIDE_FAILED: &'static str = "Failed to hide window: ";

/// What is said of a managed window that does not exist.
pub const WINDOW_NOT_FOUND: &'static str = "window not found";

/// The value of one argument, as far as the dispatcher reads it.
#[derive(Debug)]
pub enum ArgValue {
    /// A JSON string.
    Text(String),
    /// Any other JSON value.
    Other,
}

/// One named argument of a request.
#[derive(Debug)]
pub struct Argument {
    pub name: String,
    pub value: ArgValue,
}

/// A request from the front-end. Where a name occurs more than once among
/// the arguments, the first occurrence counts.
#[derive(Debug)]
pub struct CommandRequest {
    pub name: String,
    pub args: Vec<Argument>,
}

/// A decoded request: one of the four operations, with its arguments.
#[derive(Debug)]
pub enum Command {
    OpenBrowser { url: String },
    HideWindow,
    LogToTerminal { message: String },
    GetSuggestions { query: String },
}

/// Why a request could not be decoded.
#[derive(Debug)]
pub enum DispatchError {
    /// The request names no operation of the command surface.
    UnknownCommand { name: String },
    /// The operation needs an argument that the request does not bring.
    MissingArgument { command: String, key: String },
    /// The request brings the argument, but not as text.
    InvalidArgument { command: String, key: String },
}

/// What the host has to do for a command.
#[derive(Debug)]
pub enum HostCall {
    /// Hand the URL, as it is, to the system's default handler.
    OpenUrl(String),
    /// Hide the managed window through the visibility controller.
    HideWindow,
    /// Write the line to the log stream. Nothing is reported back.
    WriteLog(String),
    /// Send one GET request to the URL.
    Fetch(String),
}

pub enum ArgValueView {
    Text(Seq<char>),
    Other,
}

pub struct ArgumentView {
    pub name: Seq<char>,
    pub value: ArgValueView,
}

pub struct CommandRequestView {
    pub name: Seq<char>,
    pub args: Seq<ArgumentView>,
}

pub enum CommandView {
    OpenBrowser { url: Seq<char> },
    HideWindow,
    LogToTerminal { message: Seq<char> },
    GetSuggestions { query: Seq<char> },
}

pub enum DispatchErrorView {
    UnknownCommand { name: Seq<char> },
    MissingArgument { command: Seq<char>, key: Seq<char> },
    InvalidArgument { command: Seq<char>, key: Seq<char> },
}

pub enum HostCallView {
    OpenUrl(Seq<char>),
    HideWindow,
    WriteLog(Seq<char>),
    Fetch(Seq<char>),
}

impl View for ArgValue {
    type V = ArgValueView;

    open spec fn view(&self) -> ArgValueView {
        match self {
            ArgValue::Text(text) => ArgValueView::Text(text@),
            ArgValue::Other => ArgValueView::Other,
        }
    }
}

impl View for Argument {
    type V = ArgumentView;

    open spec fn view(&self) -> ArgumentView {
        ArgumentView { name: self.name@, value: self.value@ }
    }
}

impl View for CommandRequest {
    type V = CommandRequestView;

    open spec fn view(&self) -> CommandRequestView {
        CommandRequestView {
            name: self.name@,
            args: self.args@.map_values(|argument: Argument| argument@),
        }
    }
}

impl View for Command {
    type V = CommandView;

    open spec fn view(&self) -> CommandView {
        match self {
            Command::OpenBrowser { url } => CommandView::OpenBrowser { url: url@ },
            Command::HideWindow => CommandView::HideWindow,
            Command::LogToTerminal { message } => CommandView::LogToTerminal { message: message@ },
            Command::GetSuggestions { query } => CommandView::GetSuggestions { query: query@ },
        }
    }
}

impl View for DispatchError {
    type V = DispatchErrorView;

    open spec fn view(&self) -> DispatchErrorView {
        match self {
            DispatchError::UnknownCommand { name } => DispatchErrorView::UnknownCommand {
                name: name@,
            },
            DispatchError::MissingArgument { command, key } => DispatchErrorView::MissingArgument {
                command: command@,
                key: key@,
            },
            DispatchError::InvalidArgument { command, key } => DispatchErrorView::InvalidArgument {
                command: command@,
                key: key@,
            },
        }
    }
}

impl View for HostCall {
    type V = HostCallView;

    open spec fn view(&self) -> HostCallView {
        match self {
            HostCall::OpenUrl(url) => HostCallView::OpenUrl(url@),
            HostCall::HideWindow => HostCallView::HideWindow,
            HostCall::WriteLog(line) => HostCallView::WriteLog(line@),
            HostCall::Fetch(url) => HostCallView::Fetch(url@),
        }
    }
}

impl DispatchErrorView {
    /// The error as the front-end reads it. It names the operation, and the
    /// argument where one is at fault.
    pub open spec fn message(self) -> Seq<char> {
        match self {
            DispatchErrorView::UnknownCommand { name } => "Command "@ + name + " not found"@,
            DispatchErrorView::MissingArgument { command, key } => "invalid args `"@ + key
                + "` for command `"@ + command + "`: command "@ + command
                + " missing required key "@ + key,
            DispatchErrorView::InvalidArgument { command, key } => "invalid args `"@ + key
                + "` for command `"@ + command + "`: expected a string"@,
        }
    }
}

/// The reply to `open_browser`, given what the system's handler reported.
pub open spec fn open_browser_reply_of(outcome: Result<(), Seq<char>>) -> Result<(), Seq<char>> {
    match outcome {
        Ok(_) => Ok(()),
        Err(reason) => Err(OPEN_FAILED@ + reason),
    }
}

/// The reply to `hide_window`, given what was found of the window and what
/// the window system reported when asked to hide it.
pub open spec fn hide_window_reply_of(probe: WindowProbe, outcome: Result<(), Seq<char>>) -> Result<
    (),
    Seq<char>,
> {
    match probe {
        WindowProbe::Absent => Err(HIDE_FAILED@ + WINDOW_NOT_FOUND@),
        _ => match outcome {
            Ok(_) => Ok(()),
            Err(reason) => Err(HIDE_FAILED@ + reason),
        },
    }
}

/// The value of the first argument called `key`.
pub open spec fn argument(args: Seq<ArgumentView>, key: Seq<char>) -> Option<ArgValueView>
    decreases args.len(),
{
    if args.len() == 0 {
        None
    } else if args[0].name == key {
        Some(args[0].value)
    } else {
        argument(args.drop_first(), key)
    }
}

/// The text of the argument `key` of `request`, or what is wrong with it.
pub open spec fn text_argument(request: CommandRequestView, key: Seq<char>) -> Result<
    Seq<char>,
    DispatchErrorView,
> {
    match argument(request.args, key) {
        Some(ArgValueView::Text(text)) => Ok(text),
        Some(ArgValueView::Other) => Err(
            DispatchErrorView::InvalidArgument { command: request.name, key },
        ),
        None => Err(DispatchErrorView::MissingArgument { command: request.name, key }),
    }
}

/// The command a request stands for.
pub open spec fn decoded(request: CommandRequestView) -> Result<CommandView, DispatchErrorView> {
    if request.name == OPEN_BROWSER@ {
        match text_argument(request, "url"@) {
            Ok(url) => Ok(CommandView::OpenBrowser { url }),
            Err(error) => Err(error),
        }
    } else if request.name == HIDE_WINDOW@ {
        Ok(CommandView::HideWindow)
    } else if request.name == LOG_TO_TERMINAL@ {
        match text_argument(request, "message"@) {
            Ok(message) => Ok(CommandView::LogToTerminal { message }),
            Err(error) => Err(error),
        }
    } else if request.name == GET_SUGGESTIONS@ {
        match text_argument(request, "query"@) {
            Ok(query) => Ok(CommandView::GetSuggestions { query }),
            Err(error) => Err(error),
        }
    } else {
        Err(DispatchErrorView::UnknownCommand { name: request.name })
    }
}

/// The line a front-end message makes in the host's log.
pub open spec fn log_line_of(message: Seq<char>) -> Seq<char> {
    "[JS]: "@ + message
}

/// What the host has to do for a command.
pub open spec fn routed(command: CommandView) -> HostCallView {
    match command {
        CommandView::OpenBrowser { url } => HostCallView::OpenUrl(url),
        CommandView::HideWindow => HostCallView::HideWindow,
        CommandView::LogToTerminal { message } => HostCallView::WriteLog(log_line_of(message)),
        CommandView::GetSuggestions { query } => HostCallView::Fetch(suggestion_url_of(query)),
    }
}

/// Whether `outcome` is `expected`, value for value.
pub open spec fn decodes_to(
    outcome: Result<Command, DispatchError>,
    expected: Result<CommandView, DispatchErrorView>,
) -> bool {
    match expected {
        Ok(command) => outcome matches Ok(found) && found@ == command,
        Err(error) => outcome matches Err(found) && found@ == error,
    }
}

fn find_argument<'a>(args: &'a Vec<Argument>, key: &String) -> (found: Option<&'a ArgValue>)
    ensures
        match argument(args@.map_values(|argument: Argument| argument@), key@) {
            Some(value) => found matches Some(held) && held@ == value,
            None => found is None,
        },
{
    let ghost all = args@.map_values(|argument: Argument| argument@);
    let mut at: usize = 0;
    assert(all.skip(0) == all);
    while at < args.len()
        invariant
            at <= args.len(),
            all == args@.map_values(|argument: Argument| argument@),
            argument(all.skip(at as int), key@) == argument(all, key@),
        decreases args.len() - at,
    {
        proof {
            assert(all.skip(at as int).drop_first() == all.skip(at + 1));
            assert(all.skip(at as int)[0] == args@[at as int]@);
        }
        if args[at].name == *key {
            return Some(&args[at].value);
        }
        at = at + 1;
    }
    None
}

fn text_of(request: &CommandRequest, key: &str) -> (text: Result<String, DispatchError>)
    ensures
        match text_argument(request@, key@) {
            Ok(expected) => text matches Ok(found) && found@ == expected,
            Err(error) => text matches Err(found) && found@ == error,
        },
{
    let key = String::from_str(key);
    match find_argument(&request.args, &key) {
        Some(ArgValue::Text(text)) => Ok(text.clone()),
        Some(ArgValue::Other) => Err(
            DispatchError::InvalidArgument { command: request.name.clone(), key },
        ),
        None => Err(DispatchError::MissingArgument { command: request.name.clone(), key }),
    }
}

/// Decodes a request: the operation is looked up by name and each of its
/// arguments must be there as text. Arguments the operation does not take
/// are ignored.
pub fn decode(request: &CommandRequest) -> (outcome: Result<Command, DispatchError>)
    ensures
        decodes_to(outcome, decoded(request@)),
{
    if request.name == String::from_str(OPEN_BROWSER) {
        match text_of(request, "url") {
            Ok(url) => Ok(Command::OpenBrowser { url }),
            Err(error) => Err(error),
        }
    } else if request.name == String::from_str(HIDE_WINDOW) {
        Ok(Command::HideWindow)
    } else if request.name == String::from_str(LOG_TO_TERMINAL) {
        match text_of(request, "message") {
            Ok(message) => Ok(Command::LogToTerminal { message }),
            Err(error) => Err(error),
        }
    } else if request.name == String::from_str(GET_SUGGESTIONS) {
        match text_of(request, "query") {
            Ok(query) => Ok(Command::GetSuggestions { query }),
            Err(error) => Err(error),
        }
    } else {
        Err(DispatchError::UnknownCommand { name: request.name.clone() })
    }
}

/// The line a front-end message makes in the host's log.
pub fn log_line(message: &str) -> (line: String)
    ensures
        line@ == log_line_of(message@),
{
    String::from_str("[JS]: ").concat(message)
}

/// Routes a command to what the host has to do for it.
pub fn route(command: Command) -> (call: HostCall)
    ensures
        call@ == routed(command@),
{
    match command {
        Command::OpenBrowser { url } => HostCall::OpenUrl(url),
        Command::HideWindow => HostCall::HideWindow,
        Command::LogToTerminal { message } => HostCall::WriteLog(log_line(message.as_str())),
        Command::GetSuggestions { query } => HostCall::Fetch(suggestion_url(query.as_str())),
    }
}

impl DispatchError {
    /// The error as the front-end reads it.
    pub fn message(&self) -> (text: String)
        ensures
            text@ == self@.message(),
    {
        match self {
            DispatchError::UnknownCommand { name } => {
                let mut text = String::from_str("Command ");
                text.append(name.as_str());
                text.append(" not found");
                text
            },
            DispatchError::MissingArgument { command, key } => {
                let mut text = String::from_str("invalid args `");
                text.append(key.as_str());
                text.append("` for command `");
                text.append(command.as_str());
                text.append("`: command ");
                text.append(command.as_str());
                text.append(" missing required key ");
                text.append(key.as_str());
                text
            },
            DispatchError::InvalidArgument { command, key } => {
                let mut text = String::from_str("invalid args `");
                text.append(key.as_str());
                text.append("` for command `");
                text.append(command.as_str());
                text.append("`: expected a string");
                text
            },
        }
    }
}

/// The reply to `open_browser`: success as it is, a failure with the
/// handler's reason behind a fixed opening.
pub fn open_browser_reply(outcome: Result<(), String>) -> (reply: Result<(), String>)
    ensures
        reported(reply) == open_browser_reply_of(reported(outcome)),
{
    match outcome {
        Ok(_) => Ok(()),
        Err(reason) => Err(String::from_str(OPEN_FAILED).concat(reason.as_str())),
    }
}

/// The reply to `hide_window`. A window that does not exist is a failure of
/// its own; otherwise the reply follows what the window system reported.
pub fn hide_window_reply(probe: WindowProbe, outcome: Result<(), String>) -> (reply: Result<
    (),
    String,
>)
    ensures
        reported(reply) == hide_window_reply_of(probe, reported(outcome)),
{
    match probe {
        WindowProbe::Absent => Err(String::from_str(HIDE_FAILED).concat(WINDOW_NOT_FOUND)),
        _ => match outcome {
            Ok(_) => Ok(()),
            Err(reason) => Err(String::from_str(HIDE_FAILED).concat(reason.as_str())),
        },
    }
}

/// The reply to `get_suggestions`: the document as it was parsed, or the
/// fetch error in words.
pub fn get_suggestions_reply(outcome: Result<serde_json::Value, FetchError>) -> (reply: Result<
    serde_json::Value,
    String,
>)
    ensures
        match outcome {
            Ok(document) => reply == Ok::<serde_json::Value, String>(document),
            Err(error) => reply matches Err(text) && text@ == error@.message(),
        },
{
    match outcome {
        Ok(document) => Ok(document),
        Err(error) => Err(error.message()),
    }
}

} // verus!
