//! The command line: three subcommands, a port, and options.
//!
//! `config <PORT> (-i|--ime <IME-NAME>)...` binds each status to the index of
//! a configuration file, counted from zero in the order given.
//! `layer <PORT> (-i|--ime <IME-NAME> -l|--layer <LAYER-NAME>)...` binds each
//! status to a layer. `log <PORT>` binds nothing.

use vstd::prelude::*;
use vstd::string::*;
use crate::binding::Binding;
use crate::command::{Command, CommandView};
use crate::error::{AppError, ErrorKind, ErrorView};
use crate::fcitx::FcitxImeReceiverConfig;
use crate::ibus::IbusImeReceiverConfig;
use crate::mac::MacImeReceiverConfig;
use crate::receiver::token_views;
use crate::text::same_text;
use crate::win::WindowsImeReceiverConfig;
use crate::win_onoff::WindowsImeOnOffReceiverConfig;

verus! {

/// The overview that `-h` prints before any subcommand is named.
pub const HELP_TEXT: &'static str = "kanata_ime_observer: monitor the IME status and request kanata to change the config file / layer. \n\nCommands:\n    kanata_ime_observer config <PORT> [-i|--ime] <IME-NAME> [OPTIONS]                                   \n        Request kanata to change the config file.\n\n    kanata_ime_observer layer <PORT> [-i|--ime] <IME-NAME> [-l|--layer] <LAYER-NAME> [OPTIONS]          \n        Request kanata to change the layer.\n\n    kanata_ime_observer log <PORT> [OPTIONS]\n        Does not any request to kanata.\n";

/// The description of the options, shared by the help of every subcommand.
pub const OPTIONS_TEXT: &'static str = "Options:\n    -h|--help\n        Print help\n\n    -d|--debug\n        Enable debug logging.\n\n    --polling <MILLISECOND> (win, win_onoff only) (win default 500) (win_onoff default 1000)\n        Polling span [ms] of GetKeyboardLayout(win), SendMessageTimeout(win_onoff).\n    \n    --without-polling (win, win_onoff only)\n        Disable polling.\n\n    --retry-number <TIMES> (win_onoff only) (default 3)\n        The number of retry of SendMessageTimeout.\n\n    --sendmessage-timeout <MILLISECOND> (win_onoff only) (default 100)\n        The timeout of SendMessageTimeout.\n\n    --retry-span <MILLISECOND> (win_onoff only) (default 100)\n        The span [ms] of retry SendMessageTimeout.\n\n    --delay <MILLISECOND> (win, win_onoff, mac only) (win default 50) (win_onoff default 50) (mac default 50)\n        The delay from action to GetKeyboardLayout(win), SendMessageTimeout(win_onoff), TISCopyCurrentKeyboardInputSource(mac).  \n";

/// The head of the help for `config`.
pub const CONFIG_USAGE_TEXT: &'static str = "kanata_ime_observer config: monitor the IME status and request kanata to change the config file.\n\nUsage:\n    kanata_ime_observer config <PORT> [-i|--ime] <IME-NAME> [OPTIONS]\n\n";

/// The head of the help for `layer`.
pub const LAYER_USAGE_TEXT: &'static str = "kanata_ime_observer layer: monitor the IME status and request kanata to change the layer.\n\nUsage:\n    kanata_ime_observer layer <PORT> [-i|--ime] <IME-NAME> [-l|--layer] <LAYER-NAME> [OPTIONS]\n\n";

/// The head of the help for `log`.
pub const LOG_USAGE_TEXT: &'static str = "kanata_ime_observer log: does not send any request to kanata.\n\nUsage:\n    kanata_ime_observer log <PORT> [OPTIONS]\n\n";

/// The platform backend that the program runs with. It decides which options
/// the command line knows.
#[derive(Clone, Copy, Debug, PartialEq, Eq, Structural)]
pub enum Backend {
    Ibus,
    Fcitx,
    Windows,
    WindowsOnOff,
    Mac,
}

/// How much the program logs.
#[derive(Clone, Copy, Debug, PartialEq, Eq, Structural)]
pub enum LogLevel {
    Info,
    Debug,
}

/// The three subcommands.
#[derive(Clone, Copy, Debug, PartialEq, Eq, Structural)]
pub enum Subcommand {
    Config,
    Layer,
    Log,
}

/// The settings of the backend in use.
#[derive(Clone, Copy, Debug)]
pub enum AppConfig {
    Ibus(IbusImeReceiverConfig),
    Fcitx(FcitxImeReceiverConfig),
    Windows(WindowsImeReceiverConfig),
    WindowsOnOff(WindowsImeOnOffReceiverConfig),
    Mac(MacImeReceiverConfig),
}

/// What the command line asks for.
#[derive(Debug)]
pub struct Args {
    pub port: u16,
    pub command: Command,
    pub log_level: LogLevel,
    pub app_config: AppConfig,
}

/// The outcome of a command line that is well formed.
#[derive(Debug)]
pub enum Parsed {
    /// Run the observer with these arguments.
    Run(Args),
    /// Print this help text and leave with success.
    Help(String),
}

/// One item of the command line, as the tokenizer hands it out.
#[derive(Clone, Debug, PartialEq, Eq)]
pub enum ArgToken {
    /// A short option, `-q`.
    Short(char),
    /// A long option, `--verbose`, without the dashes.
    Long(String),
    /// A positional argument.
    Value(String),
}

/// One item of the command line, as a specification value.
pub enum ArgTokenView {
    Short(char),
    Long(Seq<char>),
    Value(Seq<char>),
}

impl View for ArgToken {
    type V = ArgTokenView;

    open spec fn view(&self) -> ArgTokenView {
        match self {
            ArgToken::Short(c) => ArgTokenView::Short(*c),
            ArgToken::Long(name) => ArgTokenView::Long(name@),
            ArgToken::Value(value) => ArgTokenView::Value(value@),
        }
    }
}

/// What an item of the command line means.
#[derive(Clone, Copy, Debug, PartialEq, Eq, Structural)]
pub enum OptionKind {
    Ime,
    Layer,
    Help,
    Debug,
    Polling,
    WithoutPolling,
    RetryNumber,
    SendMessageTimeout,
    RetrySpan,
    Delay,
    Unexpected,
}

/// Whether the backend has a polling thread to configure.
pub open spec fn polls(backend: Backend) -> bool {
    backend == Backend::Windows || backend == Backend::WindowsOnOff
}

/// Whether the backend waits before each query.
pub open spec fn delays(backend: Backend) -> bool {
    backend == Backend::Windows || backend == Backend::WindowsOnOff || backend == Backend::Mac
}

/// What a long option means for a backend.
pub open spec fn long_option_kind(name: Seq<char>, backend: Backend) -> OptionKind {
    if name == "ime"@ {
        OptionKind::Ime
    } else if name == "layer"@ {
        OptionKind::Layer
    } else if name == "help"@ {
        OptionKind::Help
    } else if name == "debug"@ {
        OptionKind::Debug
    } else if name == "polling"@ && polls(backend) {
        OptionKind::Polling
    } else if name == "without-polling"@ && polls(backend) {
        OptionKind::WithoutPolling
    } else if name == "retry-number"@ && backend == Backend::WindowsOnOff {
        OptionKind::RetryNumber
    } else if name == "sendmessage-timeout"@ && backend == Backend::WindowsOnOff {
        OptionKind::SendMessageTimeout
    } else if name == "retry-span"@ && backend == Backend::WindowsOnOff {
        OptionKind::RetrySpan
    } else if name == "delay"@ && delays(backend) {
        OptionKind::Delay
    } else {
        OptionKind::Unexpected
    }
}

/// What an item of the command line means for a backend.
pub open spec fn option_kind(token: ArgTokenView, backend: Backend) -> OptionKind {
    match token {
        ArgTokenView::Short(c) => if c == 'i' {
            OptionKind::Ime
        } else if c == 'l' {
            OptionKind::Layer
        } else if c == 'h' {
            OptionKind::Help
        } else if c == 'd' {
            OptionKind::Debug
        } else {
            OptionKind::Unexpected
        },
        ArgTokenView::Long(name) => long_option_kind(name, backend),
        ArgTokenView::Value(_) => OptionKind::Unexpected,
    }
}

/// Whether the parser reads a value after an option of this kind: always for
/// an option that carries one, and for `--layer` only under `layer`, where
/// it is allowed.
pub open spec fn takes_value(kind: OptionKind, subcommand: Subcommand) -> bool {
    match kind {
        OptionKind::Ime => true,
        OptionKind::Layer => subcommand == Subcommand::Layer,
        OptionKind::Polling => true,
        OptionKind::RetryNumber => true,
        OptionKind::SendMessageTimeout => true,
        OptionKind::RetrySpan => true,
        OptionKind::Delay => true,
        _ => false,
    }
}

/// An argument error with this text.
pub open spec fn arg_error(detail: Seq<char>) -> ErrorView {
    ErrorView { kind: ErrorKind::Arg, detail }
}

/// The text of the error for a missing or unknown subcommand.
pub const NO_SUBCOMMAND_TEXT: &'static str =
    "kanata_ime_observer has three subcommand 'kanata_ime_observer config', 'kanata_ime_observer layer' and 'kanata_ime_observer log'.";

/// The text of the error for `layer` with unequal numbers of names.
pub const UNPAIRED_TEXT: &'static str =
    "'kanata_ime_observer layer' needs the same number of IME names and layer names.";

fn new_arg_error(text: &str) -> (err: AppError)
    ensures
        err@ == arg_error(text@),
{
    AppError::ArgError(String::from_str(text))
}

/// The name of a subcommand, as it is written on the command line.
pub open spec fn subcommand_name(subcommand: Subcommand) -> Seq<char> {
    match subcommand {
        Subcommand::Config => "config"@,
        Subcommand::Layer => "layer"@,
        Subcommand::Log => "log"@,
    }
}

/// The help text of a subcommand.
pub open spec fn help_of(subcommand: Subcommand) -> Seq<char> {
    match subcommand {
        Subcommand::Config => CONFIG_USAGE_TEXT@ + OPTIONS_TEXT@,
        Subcommand::Layer => LAYER_USAGE_TEXT@ + OPTIONS_TEXT@,
        Subcommand::Log => LOG_USAGE_TEXT@ + OPTIONS_TEXT@,
    }
}

/// The overview of the program and its subcommands.
pub fn help_str() -> (text: String)
    ensures
        text@ == HELP_TEXT@,
{
    String::from_str(HELP_TEXT)
}

/// The description of the options.
pub fn options_str() -> (text: String)
    ensures
        text@ == OPTIONS_TEXT@,
{
    String::from_str(OPTIONS_TEXT)
}

/// The help text of `config`.
pub fn config_help_str() -> (text: String)
    ensures
        text@ == help_of(Subcommand::Config),
{
    String::from_str(CONFIG_USAGE_TEXT).concat(options_str().as_str())
}

/// The help text of `layer`.
pub fn layer_help_str() -> (text: String)
    ensures
        text@ == help_of(Subcommand::Layer),
{
    String::from_str(LAYER_USAGE_TEXT).concat(options_str().as_str())
}

/// The help text of `log`.
pub fn log_help_str() -> (text: String)
    ensures
        text@ == help_of(Subcommand::Log),
{
    String::from_str(LOG_USAGE_TEXT).concat(options_str().as_str())
}

/// The help text of a subcommand.
pub fn subcommand_help(subcommand: Subcommand) -> (text: String)
    ensures
        text@ == help_of(subcommand),
{
    match subcommand {
        Subcommand::Config => config_help_str(),
        Subcommand::Layer => layer_help_str(),
        Subcommand::Log => log_help_str(),
    }
}

/// What the first argument selects.
#[derive(Clone, Copy, Debug, PartialEq, Eq, Structural)]
pub enum FirstArgument {
    /// One of the subcommands.
    Subcommand(Subcommand),
    /// The overview.
    Help,
    /// Nothing that the program knows.
    Unknown,
}

/// What the first argument selects; `None` stands for an argument that is no
/// valid Unicode.
pub open spec fn first_argument(text: Option<Seq<char>>) -> FirstArgument {
    match text {
        Some(t) => if t == "config"@ {
            FirstArgument::Subcommand(Subcommand::Config)
        } else if t == "layer"@ {
            FirstArgument::Subcommand(Subcommand::Layer)
        } else if t == "log"@ {
            FirstArgument::Subcommand(Subcommand::Log)
        } else if t == "-h"@ || t == "--help"@ {
            FirstArgument::Help
        } else {
            FirstArgument::Unknown
        },
        None => FirstArgument::Unknown,
    }
}

/// The view of an optional text.
pub open spec fn text_view(text: Option<String>) -> Option<Seq<char>> {
    match text {
        Some(t) => Some(t@),
        None => None,
    }
}

/// Reads the first argument.
pub fn choose_subcommand(text: &Option<String>) -> (choice: FirstArgument)
    ensures
        choice == first_argument(text_view(*text)),
{
    match text {
        Some(t) => {
            if same_text(t.as_str(), "config") {
                FirstArgument::Subcommand(Subcommand::Config)
            } else if same_text(t.as_str(), "layer") {
                FirstArgument::Subcommand(Subcommand::Layer)
            } else if same_text(t.as_str(), "log") {
                FirstArgument::Subcommand(Subcommand::Log)
            } else if same_text(t.as_str(), "-h") || same_text(t.as_str(), "--help") {
                FirstArgument::Help
            } else {
                FirstArgument::Unknown
            }
        },
        None => FirstArgument::Unknown,
    }
}

/// Whether the second argument asks for help instead of naming a port.
pub fn asks_for_help(text: &Option<String>) -> (asks: bool)
    ensures
        asks == (text_view(*text) == Some("-h"@) || text_view(*text) == Some("--help"@)),
{
    match text {
        Some(t) => same_text(t.as_str(), "-h") || same_text(t.as_str(), "--help"),
        None => false,
    }
}

/// The text of the error for a subcommand without a port.
pub open spec fn no_port_text(subcommand: Subcommand) -> Seq<char> {
    "'kanata_ime_observer "@ + subcommand_name(subcommand)
        + "' needs one positional argument 'PORT'."@
}

/// The error for a subcommand without a port.
pub fn no_port_error(subcommand: Subcommand) -> (err: AppError)
    ensures
        err@ == arg_error(no_port_text(subcommand)),
{
    let name = match subcommand {
        Subcommand::Config => "config",
        Subcommand::Layer => "layer",
        Subcommand::Log => "log",
    };
    AppError::ArgError(
        String::from_str("'kanata_ime_observer ").concat(name).concat(
            "' needs one positional argument 'PORT'.",
        ),
    )
}

/// The value of a decimal digit.
pub open spec fn digit_value(c: char) -> nat {
    (c as u32 - '0' as u32) as nat
}

/// Whether every character is a decimal digit.
pub open spec fn all_digits(text: Seq<char>) -> bool {
    forall|i: int| 0 <= i < text.len() ==> '0' <= #[trigger] text[i] <= '9'
}

/// The number that a run of decimal digits stands for.
pub open spec fn digits_value(text: Seq<char>) -> nat
    decreases text.len(),
{
    if text.len() == 0 {
        0
    } else {
        digits_value(text.drop_last()) * 10 + digit_value(text.last())
    }
}

/// The number that a text stands for: decimal digits, at least one, with an
/// optional `+` in front. Any other text stands for no number.
pub open spec fn decimal_of(text: Seq<char>) -> Option<nat> {
    let digits = if text.len() > 0 && text[0] == '+' {
        text.drop_first()
    } else {
        text
    };
    if digits.len() > 0 && all_digits(digits) {
        Some(digits_value(digits))
    } else {
        None
    }
}

/// The text with which the tokenizer rejects a value that is no number.
pub uninterp spec fn parse_failure_text(text: Seq<char>) -> Seq<char>;

/// The text with which the tokenizer rejects a positional argument that the
/// program does not expect.
pub uninterp spec fn unexpected_value_text(value: Seq<char>) -> Seq<char>;

/// The text with which the tokenizer rejects an item that the program does
/// not know: for an option a fixed frame around the option as it was
/// written.
pub open spec fn unexpected_text(token: ArgTokenView) -> Seq<char> {
    match token {
        ArgTokenView::Short(c) => "invalid option '-"@ + seq![c] + "'"@,
        ArgTokenView::Long(name) => "invalid option '--"@ + name + "'"@,
        ArgTokenView::Value(value) => unexpected_value_text(value),
    }
}

/// What a tokenizer has not read yet: what is left of the argument it is
/// in, if it is in one, then every argument still to come; each of these is
/// closed by the byte 255, which no text holds.
pub uninterp spec fn unread(parser: lexopt::Parser) -> Seq<u8>;

/// Everything else that a tokenizer holds, written as text: whether it
/// stands between two arguments, inside a run of short options or before a
/// value joined to an option, whether it has passed `--`, and the option it
/// handed out last. It is empty for a tokenizer that stands between two
/// arguments and has handed out no option.
pub uninterp spec fn mode(parser: lexopt::Parser) -> Seq<char>;

/// What a fresh tokenizer has not read: every argument in UTF-8, each closed
/// by the byte 255.
pub open spec fn joined(args: Seq<Seq<char>>) -> Seq<u8>
    decreases args.len(),
{
    if args.len() == 0 {
        Seq::empty()
    } else {
        vstd::utf8::encode_utf8(args[0]) + seq![255u8] + joined(args.drop_first())
    }
}

/// What the tokenizer hands out when it is asked for the next item, and
/// where that leaves it.
pub struct NextStep {
    /// The item, `None` at the end of the command line, or the text of the
    /// tokenizer's error.
    pub item: Result<Option<ArgTokenView>, Seq<char>>,
    /// What is unread afterwards.
    pub unread: Seq<u8>,
    /// The tokenizer's mode afterwards.
    pub mode: Seq<char>,
}

/// What the tokenizer hands out when it is asked for a value, and where that
/// leaves it.
pub struct ValueStep {
    /// The value, or the tokenizer's text for a value that is no valid
    /// Unicode; or the text of the tokenizer's error where there is no value.
    pub item: Result<Result<Seq<char>, Seq<char>>, Seq<char>>,
    /// What is unread afterwards.
    pub unread: Seq<u8>,
    /// The tokenizer's mode afterwards.
    pub mode: Seq<char>,
}

/// The tokenizer's answer to a request for the next item, for what it has
/// not read and the mode it is in.
pub uninterp spec fn next_item(unread: Seq<u8>, mode: Seq<char>) -> NextStep;

/// The tokenizer's answer to a request for a value, for what it has not read
/// and the mode it is in.
pub uninterp spec fn value_item(unread: Seq<u8>, mode: Seq<char>) -> ValueStep;

/// The view of what `next_argument` returned.
pub open spec fn next_view(next: Result<Option<ArgToken>, String>) -> Result<
    Option<ArgTokenView>,
    Seq<char>,
> {
    match next {
        Ok(Some(token)) => Ok(Some(token@)),
        Ok(None) => Ok(None),
        Err(reason) => Err(reason@),
    }
}

/// The view of a value: its text, or the tokenizer's text for a value that
/// is no valid Unicode.
pub open spec fn value_text_view(value: Result<String, String>) -> Result<Seq<char>, Seq<char>> {
    match value {
        Ok(text) => Ok(text@),
        Err(reason) => Err(reason@),
    }
}

/// The view of what `option_value` returned.
pub open spec fn read_view(read: Result<Result<String, String>, String>) -> Result<
    Result<Seq<char>, Seq<char>>,
    Seq<char>,
> {
    match read {
        Ok(value) => Ok(value_text_view(value)),
        Err(reason) => Err(reason@),
    }
}

#[verifier::external_type_specification]
#[verifier::external_body]
pub struct ExParser(lexopt::Parser);

/// Makes a tokenizer for the arguments that follow the program's name, with
/// `lexopt::Parser::from_args`.
///
/// Trusted: nothing of the arguments is read yet, and the tokenizer stands
/// between two arguments with no option handed out.
#[verifier::external_body]
fn open_parser(args: Vec<String>) -> (parser: lexopt::Parser)
    ensures
        unread(parser) == joined(token_views(args@)),
        mode(parser) == Seq::<char>::empty(),
{
    lexopt::Parser::from_args(args)
}

/// Takes the next option or positional argument with `lexopt::Parser::next`.
/// `Ok(None)` is the end of the command line; an error comes as its text.
///
/// Trusted: what is handed out and where the tokenizer stands afterwards
/// depend only on what was unread and on the mode; a call never adds to what
/// is unread, and a call that hands out an item has read at least one byte.
#[verifier::external_body]
fn next_argument(parser: &mut lexopt::Parser) -> (next: Result<Option<ArgToken>, String>)
    ensures
        next_view(next) == next_item(unread(*old(parser)), mode(*old(parser))).item,
        unread(*final(parser)) == next_item(unread(*old(parser)), mode(*old(parser))).unread,
        mode(*final(parser)) == next_item(unread(*old(parser)), mode(*old(parser))).mode,
        unread(*final(parser)).len() <= unread(*old(parser)).len(),
        next matches Ok(Some(_)) ==> unread(*final(parser)).len() < unread(*old(parser)).len(),
{
    match parser.next() {
        Ok(Some(lexopt::Arg::Short(c))) => Ok(Some(ArgToken::Short(c))),
        Ok(Some(lexopt::Arg::Long(name))) => Ok(Some(ArgToken::Long(name.to_owned()))),
        Ok(Some(lexopt::Arg::Value(v))) => Ok(Some(ArgToken::Value(v.to_string_lossy().into_owned()))),
        Ok(None) => Ok(None),
        Err(e) => Err(e.to_string()),
    }
}

/// Takes the value of the option read last with `lexopt::Parser::value`, and
/// turns it into text with `lexopt::ValueExt::string`. `Ok(Err(..))` is the
/// tokenizer's text for a value that is no valid Unicode; an outer error
/// comes as its text.
///
/// Trusted: what is handed out and where the tokenizer stands afterwards
/// depend only on what was unread and on the mode; a call never adds to what
/// is unread.
#[verifier::external_body]
fn option_value(parser: &mut lexopt::Parser) -> (read: Result<Result<String, String>, String>)
    ensures
        read_view(read) == value_item(unread(*old(parser)), mode(*old(parser))).item,
        unread(*final(parser)) == value_item(unread(*old(parser)), mode(*old(parser))).unread,
        mode(*final(parser)) == value_item(unread(*old(parser)), mode(*old(parser))).mode,
        unread(*final(parser)).len() <= unread(*old(parser)).len(),
{
    match parser.value() {
        Ok(value) => Ok(lexopt::ValueExt::string(value).map_err(|e| e.to_string())),
        Err(e) => Err(e.to_string()),
    }
}

/// The text of the error that `lexopt::Arg::unexpected` makes of an item.
///
/// Trusted: for an option the text is `invalid option '..'` around the
/// option as it was written; for a positional argument it depends on the
/// argument alone.
#[verifier::external_body]
fn unexpected_item(token: &ArgToken) -> (text: String)
    ensures
        text@ == unexpected_text(token@),
        token@ matches ArgTokenView::Value(value) ==> text@ == unexpected_value_text(value),
{
    match token {
        ArgToken::Short(c) => lexopt::Arg::Short(*c).unexpected().to_string(),
        ArgToken::Long(name) => lexopt::Arg::Long(name.as_str()).unexpected().to_string(),
        ArgToken::Value(value) => lexopt::Arg::Value(value.clone().into()).unexpected().to_string(),
    }
}

/// Reads a number with `lexopt::ValueExt::parse`, which goes by the
/// standard library's rule for `u64`.
///
/// Trusted: the call succeeds exactly on decimal digits with an optional `+`
/// in front whose number fits in 64 bits, and returns that number; the text
/// of a failure depends on the input alone.
#[verifier::external_body]
fn parse_decimal(text: &str) -> (number: Result<u64, String>)
    ensures
        match number {
            Ok(n) => decimal_of(text@) == Some(n as nat),
            Err(reason) => (decimal_of(text@) is None || decimal_of(text@).unwrap() > u64::MAX)
                && reason@ == parse_failure_text(text@),
        },
{
    let value = std::path::PathBuf::from(text).into_os_string();
    lexopt::ValueExt::parse::<u64>(&value).map_err(|e| e.to_string())
}

/// The text of a value, if it is valid Unicode.
pub open spec fn readable(value: Result<Seq<char>, Seq<char>>) -> Option<Seq<char>> {
    match value {
        Ok(text) => Some(text),
        Err(_) => None,
    }
}

/// Takes the text out of a value; `None` for a value that is no valid
/// Unicode.
pub fn into_text(value: Result<String, String>) -> (text: Option<String>)
    ensures
        text_view(text) == readable(value_text_view(value)),
{
    match value {
        Ok(text) => Some(text),
        Err(_) => None,
    }
}

/// The port that a text names: a decimal number up to 65535.
pub open spec fn port_of(text: Option<Seq<char>>) -> Option<u16> {
    match text {
        Some(t) => match decimal_of(t) {
            Some(n) => if n <= u16::MAX {
                Some(n as u16)
            } else {
                None
            },
            None => None,
        },
        None => None,
    }
}

/// Reads the port; `None` stands for an argument that is no valid Unicode.
pub fn parse_port(text: &Option<String>) -> (port: Result<u16, AppError>)
    ensures
        match port {
            Ok(p) => port_of(text_view(*text)) == Some(p),
            Err(e) => port_of(text_view(*text)) is None && e@ == arg_error(
                "Invalid port number."@,
            ),
        },
{
    match text {
        Some(t) => match parse_decimal(t.as_str()) {
            Ok(n) => {
                if n <= 65535 {
                    Ok(n as u16)
                } else {
                    Err(new_arg_error("Invalid port number."))
                }
            },
            Err(_) => Err(new_arg_error("Invalid port number.")),
        },
        None => Err(new_arg_error("Invalid port number.")),
    }
}

/// The text of the error for a number that is too large for its option.
pub open spec fn too_large_text(text: Seq<char>) -> Seq<char> {
    "cannot parse argument \""@ + text + "\": number too large to fit in target type"@
}

/// The text of the error for an option that should have a value and has
/// none.
pub open spec fn missing_value_text() -> Seq<char> {
    "missing argument"@
}

/// The view of an optional value.
pub open spec fn value_view(value: Option<Result<String, String>>) -> Option<
    Result<Seq<char>, Seq<char>>,
> {
    match value {
        Some(v) => Some(value_text_view(v)),
        None => None,
    }
}

/// What the value of a numeric option stands for when the option takes
/// numbers up to `limit`. A value that is no valid Unicode is rejected with
/// the tokenizer's text for it, a value that is no number with the
/// tokenizer's text for that.
pub open spec fn number_of(value: Option<Result<Seq<char>, Seq<char>>>, limit: nat) -> Result<
    nat,
    ErrorView,
> {
    match value {
        None => Err(arg_error(missing_value_text())),
        Some(Err(reason)) => Err(arg_error(reason)),
        Some(Ok(t)) => match decimal_of(t) {
            Some(n) => if n > u64::MAX {
                Err(arg_error(parse_failure_text(t)))
            } else if n > limit {
                Err(arg_error(too_large_text(t)))
            } else {
                Ok(n)
            },
            None => Err(arg_error(parse_failure_text(t))),
        },
    }
}

/// Reads the value of a numeric option that takes numbers up to `limit`.
pub fn parse_number(value: &Option<Result<String, String>>, limit: u64) -> (number: Result<
    u64,
    AppError,
>)
    ensures
        match number {
            Ok(n) => number_of(value_view(*value), limit as nat) == Ok::<nat, ErrorView>(n as nat),
            Err(e) => number_of(value_view(*value), limit as nat) == Err::<nat, ErrorView>(e@),
        },
{
    match value {
        Some(Ok(t)) => match parse_decimal(t.as_str()) {
            Ok(n) => {
                if n <= limit {
                    Ok(n)
                } else {
                    Err(
                        AppError::ArgError(
                            String::from_str("cannot parse argument \"").concat(t.as_str()).concat(
                                "\": number too large to fit in target type",
                            ),
                        ),
                    )
                }
            },
            Err(reason) => Err(AppError::ArgError(reason)),
        },
        Some(Err(reason)) => Err(AppError::ArgError(reason.clone())),
        None => Err(new_arg_error("missing argument")),
    }
}

impl AppConfig {
    /// The backend that these settings belong to.
    pub open spec fn backend(self) -> Backend {
        match self {
            AppConfig::Ibus(_) => Backend::Ibus,
            AppConfig::Fcitx(_) => Backend::Fcitx,
            AppConfig::Windows(_) => Backend::Windows,
            AppConfig::WindowsOnOff(_) => Backend::WindowsOnOff,
            AppConfig::Mac(_) => Backend::Mac,
        }
    }

    /// The settings with another polling span, where the backend polls.
    pub open spec fn polling(self, span: Option<u64>) -> AppConfig {
        match self {
            AppConfig::Windows(c) => AppConfig::Windows(
                WindowsImeReceiverConfig { polling_span: span, ..c },
            ),
            AppConfig::WindowsOnOff(c) => AppConfig::WindowsOnOff(
                WindowsImeOnOffReceiverConfig { polling_span: span, ..c },
            ),
            _ => self,
        }
    }

    /// The settings with another delay, where the backend waits.
    pub open spec fn delayed(self, delay: u64) -> AppConfig {
        match self {
            AppConfig::Windows(c) => AppConfig::Windows(WindowsImeReceiverConfig { delay, ..c }),
            AppConfig::WindowsOnOff(c) => AppConfig::WindowsOnOff(
                WindowsImeOnOffReceiverConfig { delay, ..c },
            ),
            AppConfig::Mac(c) => AppConfig::Mac(MacImeReceiverConfig { delay, ..c }),
            _ => self,
        }
    }

    /// The settings with another number of attempts, where the backend
    /// retries.
    pub open spec fn retrying(self, retry_number: usize) -> AppConfig {
        match self {
            AppConfig::WindowsOnOff(c) => AppConfig::WindowsOnOff(
                WindowsImeOnOffReceiverConfig { retry_number, ..c },
            ),
            _ => self,
        }
    }

    /// The settings with another timeout for one attempt.
    pub open spec fn timing_out(self, send_message_timeout: u32) -> AppConfig {
        match self {
            AppConfig::WindowsOnOff(c) => AppConfig::WindowsOnOff(
                WindowsImeOnOffReceiverConfig { send_message_timeout, ..c },
            ),
            _ => self,
        }
    }

    /// The settings with another sleep between attempts.
    pub open spec fn spaced(self, retry_span: u64) -> AppConfig {
        match self {
            AppConfig::WindowsOnOff(c) => AppConfig::WindowsOnOff(
                WindowsImeOnOffReceiverConfig { retry_span, ..c },
            ),
            _ => self,
        }
    }

    /// The default settings of a backend.
    pub fn default_for(backend: Backend) -> (config: AppConfig)
        ensures
            config.backend() == backend,
            config == default_config(backend),
    {
        match backend {
            Backend::Ibus => AppConfig::Ibus(IbusImeReceiverConfig {  }),
            Backend::Fcitx => AppConfig::Fcitx(FcitxImeReceiverConfig {  }),
            Backend::Windows => AppConfig::Windows(
                WindowsImeReceiverConfig { delay: 50, polling_span: Some(500) },
            ),
            Backend::WindowsOnOff => AppConfig::WindowsOnOff(
                WindowsImeOnOffReceiverConfig {
                    retry_number: 3,
                    send_message_timeout: 100,
                    retry_span: 100,
                    delay: 50,
                    polling_span: Some(1000),
                },
            ),
            Backend::Mac => AppConfig::Mac(MacImeReceiverConfig { delay: 50 }),
        }
    }

    /// Sets the polling span.
    pub fn with_polling(self, span: Option<u64>) -> (config: AppConfig)
        ensures
            config == self.polling(span),
    {
        match self {
            AppConfig::Windows(c) => AppConfig::Windows(
                WindowsImeReceiverConfig { delay: c.delay, polling_span: span },
            ),
            AppConfig::WindowsOnOff(c) => AppConfig::WindowsOnOff(
                WindowsImeOnOffReceiverConfig {
                    retry_number: c.retry_number,
                    send_message_timeout: c.send_message_timeout,
                    retry_span: c.retry_span,
                    delay: c.delay,
                    polling_span: span,
                },
            ),
            other => other,
        }
    }

    /// Sets the delay.
    pub fn with_delay(self, delay: u64) -> (config: AppConfig)
        ensures
            config == self.delayed(delay),
    {
        match self {
            AppConfig::Windows(c) => AppConfig::Windows(
                WindowsImeReceiverConfig { delay, polling_span: c.polling_span },
            ),
            AppConfig::WindowsOnOff(c) => AppConfig::WindowsOnOff(
                WindowsImeOnOffReceiverConfig {
                    retry_number: c.retry_number,
                    send_message_timeout: c.send_message_timeout,
                    retry_span: c.retry_span,
                    delay,
                    polling_span: c.polling_span,
                },
            ),
            AppConfig::Mac(_) => AppConfig::Mac(MacImeReceiverConfig { delay }),
            other => other,
        }
    }

    /// Sets the number of attempts.
    pub fn with_retry_number(self, retry_number: usize) -> (config: AppConfig)
        ensures
            config == self.retrying(retry_number),
    {
        match self {
            AppConfig::WindowsOnOff(c) => AppConfig::WindowsOnOff(
                WindowsImeOnOffReceiverConfig {
                    retry_number,
                    send_message_timeout: c.send_message_timeout,
                    retry_span: c.retry_span,
                    delay: c.delay,
                    polling_span: c.polling_span,
                },
            ),
            other => other,
        }
    }

    /// Sets the timeout of one attempt.
    pub fn with_send_message_timeout(self, send_message_timeout: u32) -> (config: AppConfig)
        ensures
            config == self.timing_out(send_message_timeout),
    {
        match self {
            AppConfig::WindowsOnOff(c) => AppConfig::WindowsOnOff(
                WindowsImeOnOffReceiverConfig {
                    retry_number: c.retry_number,
                    send_message_timeout,
                    retry_span: c.retry_span,
                    delay: c.delay,
                    polling_span: c.polling_span,
                },
            ),
            other => other,
        }
    }

    /// Sets the sleep between attempts.
    pub fn with_retry_span(self, retry_span: u64) -> (config: AppConfig)
        ensures
            config == self.spaced(retry_span),
    {
        match self {
            AppConfig::WindowsOnOff(c) => AppConfig::WindowsOnOff(
                WindowsImeOnOffReceiverConfig {
                    retry_number: c.retry_number,
                    send_message_timeout: c.send_message_timeout,
                    retry_span,
                    delay: c.delay,
                    polling_span: c.polling_span,
                },
            ),
            other => other,
        }
    }
}

/// The default settings of a backend.
pub open spec fn default_config(backend: Backend) -> AppConfig {
    match backend {
        Backend::Ibus => AppConfig::Ibus(IbusImeReceiverConfig {  }),
        Backend::Fcitx => AppConfig::Fcitx(FcitxImeReceiverConfig {  }),
        Backend::Windows => AppConfig::Windows(
            WindowsImeReceiverConfig { delay: 50, polling_span: Some(500) },
        ),
        Backend::WindowsOnOff => AppConfig::WindowsOnOff(
            WindowsImeOnOffReceiverConfig {
                retry_number: 3,
                send_message_timeout: 100,
                retry_span: 100,
                delay: 50,
                polling_span: Some(1000),
            },
        ),
        Backend::Mac => AppConfig::Mac(MacImeReceiverConfig { delay: 50 }),
    }
}

/// Tells what an item of the command line means.
pub fn classify(token: &ArgToken, backend: Backend) -> (kind: OptionKind)
    ensures
        kind == option_kind(token@, backend),
{
    let polls = match backend {
        Backend::Windows => true,
        Backend::WindowsOnOff => true,
        _ => false,
    };
    let onoff = match backend {
        Backend::WindowsOnOff => true,
        _ => false,
    };
    let delays = match backend {
        Backend::Windows => true,
        Backend::WindowsOnOff => true,
        Backend::Mac => true,
        _ => false,
    };
    match token {
        ArgToken::Short(c) => {
            if *c == 'i' {
                OptionKind::Ime
            } else if *c == 'l' {
                OptionKind::Layer
            } else if *c == 'h' {
                OptionKind::Help
            } else if *c == 'd' {
                OptionKind::Debug
            } else {
                OptionKind::Unexpected
            }
        },
        ArgToken::Long(name) => {
            let name = name.as_str();
            if same_text(name, "ime") {
                OptionKind::Ime
            } else if same_text(name, "layer") {
                OptionKind::Layer
            } else if same_text(name, "help") {
                OptionKind::Help
            } else if same_text(name, "debug") {
                OptionKind::Debug
            } else if same_text(name, "polling") && polls {
                OptionKind::Polling
            } else if same_text(name, "without-polling") && polls {
                OptionKind::WithoutPolling
            } else if same_text(name, "retry-number") && onoff {
                OptionKind::RetryNumber
            } else if same_text(name, "sendmessage-timeout") && onoff {
                OptionKind::SendMessageTimeout
            } else if same_text(name, "retry-span") && onoff {
                OptionKind::RetrySpan
            } else if same_text(name, "delay") && delays {
                OptionKind::Delay
            } else {
                OptionKind::Unexpected
            }
        },
        ArgToken::Value(_) => OptionKind::Unexpected,
    }
}

/// Tells whether the parser reads a value after an option.
pub fn reads_value(kind: OptionKind, subcommand: Subcommand) -> (reads: bool)
    ensures
        reads == takes_value(kind, subcommand),
{
    match kind {
        OptionKind::Ime => true,
        OptionKind::Layer => match subcommand {
            Subcommand::Layer => true,
            _ => false,
        },
        OptionKind::Polling => true,
        OptionKind::RetryNumber => true,
        OptionKind::SendMessageTimeout => true,
        OptionKind::RetrySpan => true,
        OptionKind::Delay => true,
        _ => false,
    }
}

/// What the parser has gathered so far, as a specification value.
pub struct ArgStateView {
    pub subcommand: Subcommand,
    pub port: u16,
    pub log_level: LogLevel,
    /// The statuses given under `config`, in order.
    pub config_names: Seq<Seq<char>>,
    /// The statuses given under `layer`, in order.
    pub ime_names: Seq<Seq<char>>,
    /// The layers given under `layer`, in order.
    pub layer_names: Seq<Seq<char>>,
    pub app_config: AppConfig,
}

/// How the parser goes on after an option.
pub enum Flow {
    /// With the next item, in this state.
    Continue(ArgStateView),
    /// Not at all: this help text is printed.
    Help(Seq<char>),
}

/// The state after a numeric option, or the error of its value.
pub open spec fn with_number(
    s: ArgStateView,
    kind: OptionKind,
    value: Option<Result<Seq<char>, Seq<char>>>,
) -> Result<Flow, ErrorView> {
    let limit: nat = match kind {
        OptionKind::RetryNumber => usize::MAX as nat,
        OptionKind::SendMessageTimeout => u32::MAX as nat,
        _ => u64::MAX as nat,
    };
    match number_of(value, limit) {
        Err(e) => Err(e),
        Ok(n) => Ok(
            Flow::Continue(
                ArgStateView {
                    app_config: match kind {
                        OptionKind::Polling => s.app_config.polling(Some(n as u64)),
                        OptionKind::RetryNumber => s.app_config.retrying(n as usize),
                        OptionKind::SendMessageTimeout => s.app_config.timing_out(n as u32),
                        OptionKind::RetrySpan => s.app_config.spaced(n as u64),
                        OptionKind::Delay => s.app_config.delayed(n as u64),
                        _ => s.app_config,
                    },
                    ..s
                },
            ),
        ),
    }
}

/// What an option does to the state. `value` is the value read after the
/// option where it takes one, `token` the item itself.
pub open spec fn applied(
    s: ArgStateView,
    kind: OptionKind,
    value: Option<Result<Seq<char>, Seq<char>>>,
    token: ArgTokenView,
) -> Result<Flow, ErrorView> {
    match kind {
        OptionKind::Ime => match value {
            Some(Ok(name)) => match s.subcommand {
                Subcommand::Config => if s.config_names.contains(name) {
                    Err(arg_error("Duplicate IME name."@))
                } else {
                    Ok(Flow::Continue(ArgStateView { config_names: s.config_names.push(name), ..s }))
                },
                Subcommand::Layer => Ok(
                    Flow::Continue(ArgStateView { ime_names: s.ime_names.push(name), ..s }),
                ),
                Subcommand::Log => Err(arg_error("Unexpected option."@)),
            },
            _ => Err(arg_error("This IME name has invalid unicode string."@)),
        },
        OptionKind::Layer => if s.subcommand == Subcommand::Layer {
            match value {
                Some(Ok(name)) => Ok(
                    Flow::Continue(ArgStateView { layer_names: s.layer_names.push(name), ..s }),
                ),
                _ => Err(arg_error("This layer name has invalid unicode string."@)),
            }
        } else {
            Err(arg_error("Unexpected option."@))
        },
        OptionKind::Help => Ok(Flow::Help(help_of(s.subcommand))),
        OptionKind::Debug => Ok(Flow::Continue(ArgStateView { log_level: LogLevel::Debug, ..s })),
        OptionKind::WithoutPolling => Ok(
            Flow::Continue(ArgStateView { app_config: s.app_config.polling(None), ..s }),
        ),
        OptionKind::Unexpected => Err(arg_error(unexpected_text(token))),
        _ => with_number(s, kind, value),
    }
}

/// How a command line ends once all its items are read.
pub enum Finish {
    /// The observer runs.
    Run,
    /// This help text is printed.
    Help(Seq<char>),
    /// The command line is rejected.
    Fail(ErrorView),
}

/// How a command line ends in state `s`: `config` without a status prints
/// its help; `layer` wants as many layers as statuses, and no status twice.
pub open spec fn finished(s: ArgStateView) -> Finish {
    match s.subcommand {
        Subcommand::Config => if s.config_names.len() == 0 {
            Finish::Help(help_of(Subcommand::Config))
        } else {
            Finish::Run
        },
        Subcommand::Layer => if s.ime_names.len() != s.layer_names.len() {
            Finish::Fail(arg_error(UNPAIRED_TEXT@))
        } else if !s.ime_names.no_duplicates() {
            Finish::Fail(arg_error("Duplicate IME name."@))
        } else {
            Finish::Run
        },
        Subcommand::Log => Finish::Run,
    }
}

/// Whether each status of a `config` binding is bound to its position.
pub open spec fn counts_up(values: Seq<usize>) -> bool {
    forall|i: int| 0 <= i < values.len() ==> #[trigger] values[i] == i
}

/// The numbers 0, 1, 2, ... below `n`.
pub open spec fn counting(n: nat) -> Seq<usize> {
    Seq::new(n, |i: int| i as usize)
}

/// The arguments that the observer runs with, as a specification value.
pub struct ArgsView {
    pub port: u16,
    pub command: CommandView,
    pub log_level: LogLevel,
    pub app_config: AppConfig,
}

impl View for Args {
    type V = ArgsView;

    open spec fn view(&self) -> ArgsView {
        ArgsView {
            port: self.port,
            command: self.command@,
            log_level: self.log_level,
            app_config: self.app_config,
        }
    }
}

/// The outcome of a well-formed command line, as a specification value.
pub enum ParsedView {
    Run(ArgsView),
    Help(Seq<char>),
}

/// The view of what the parser returned.
pub open spec fn parse_view(parsed: Result<Parsed, AppError>) -> Result<ParsedView, ErrorView> {
    match parsed {
        Ok(Parsed::Run(args)) => Ok(ParsedView::Run(args@)),
        Ok(Parsed::Help(text)) => Ok(ParsedView::Help(text@)),
        Err(e) => Err(e@),
    }
}

/// The binding that state `s` asks for. Under `config` the statuses are
/// bound to 0, 1, 2, ... in the order given; under `layer` each status is
/// bound to the layer at the same position.
pub open spec fn binding_of(s: ArgStateView) -> CommandView {
    match s.subcommand {
        Subcommand::Config => CommandView::Config {
            names: s.config_names,
            indices: counting(s.config_names.len()),
        },
        Subcommand::Layer => CommandView::Layer { names: s.ime_names, layers: s.layer_names },
        Subcommand::Log => CommandView::Log,
    }
}

/// What a command line that ends in state `s` gives: the arguments to run
/// with, holding the port, the level and the settings gathered and the
/// binding of the subcommand; or a help text; or an error.
pub open spec fn finish_outcome(s: ArgStateView) -> Result<ParsedView, ErrorView> {
    match finished(s) {
        Finish::Run => Ok(
            ParsedView::Run(
                ArgsView {
                    port: s.port,
                    command: binding_of(s),
                    log_level: s.log_level,
                    app_config: s.app_config,
                },
            ),
        ),
        Finish::Help(text) => Ok(ParsedView::Help(text)),
        Finish::Fail(e) => Err(e),
    }
}

/// What the options of a command line give, read in state `s` by a
/// tokenizer that has `unread` left and stands in `mode`.
///
/// The tokenizer is asked for one item after the other. An item is
/// classified; where it takes a value the tokenizer is asked for that; the
/// option is applied to the state. The first error, and the first request
/// for help, end the command line; so does the tokenizer's end, where the
/// state is finished. (The tokenizer reads on with every item that it hands
/// out; a tokenizer that did not would end the command line likewise.)
pub open spec fn options_outcome(
    s: ArgStateView,
    unread: Seq<u8>,
    mode: Seq<char>,
    backend: Backend,
) -> Result<ParsedView, ErrorView>
    decreases unread.len(),
{
    let next = next_item(unread, mode);
    match next.item {
        Err(reason) => Err(arg_error(reason)),
        Ok(None) => finish_outcome(s),
        Ok(Some(token)) => {
            let kind = option_kind(token, backend);
            let read = value_item(next.unread, next.mode);
            if !takes_value(kind, s.subcommand) {
                after_option(
                    applied(s, kind, None, token),
                    unread,
                    next.unread,
                    next.mode,
                    backend,
                )
            } else {
                match read.item {
                    Err(reason) => Err(arg_error(reason)),
                    Ok(value) => after_option(
                        applied(s, kind, Some(value), token),
                        unread,
                        read.unread,
                        read.mode,
                        backend,
                    ),
                }
            }
        },
    }
}

/// How the command line goes on after an option was applied with the result
/// `flow`, when `before` was unread ahead of the option and `rest` is unread
/// behind it.
pub open spec fn after_option(
    flow: Result<Flow, ErrorView>,
    before: Seq<u8>,
    rest: Seq<u8>,
    mode: Seq<char>,
    backend: Backend,
) -> Result<ParsedView, ErrorView>
    decreases before.len(), 0nat,
    when rest.len() < before.len()
{
    match flow {
        Err(e) => Err(e),
        Ok(Flow::Help(text)) => Ok(ParsedView::Help(text)),
        Ok(Flow::Continue(s)) => options_outcome(s, rest, mode, backend),
    }
}

/// The state after subcommand and port, before any option.
pub open spec fn initial_state(subcommand: Subcommand, port: u16, backend: Backend) -> ArgStateView {
    ArgStateView {
        subcommand,
        port,
        log_level: LogLevel::Info,
        config_names: Seq::empty(),
        ime_names: Seq::empty(),
        layer_names: Seq::empty(),
        app_config: default_config(backend),
    }
}

/// What a command line gives, read by a fresh tokenizer that has `unread`
/// before it.
///
/// The first value names the subcommand, or asks for the overview; the
/// second names the port, or asks for the subcommand's help; the options
/// follow.
pub open spec fn parse_outcome(unread: Seq<u8>, backend: Backend) -> Result<ParsedView, ErrorView> {
    let first = value_item(unread, Seq::empty());
    match first.item {
        Err(_) => Err(arg_error(NO_SUBCOMMAND_TEXT@)),
        Ok(first_value) => match first_argument(readable(first_value)) {
            FirstArgument::Unknown => Err(arg_error(NO_SUBCOMMAND_TEXT@)),
            FirstArgument::Help => Ok(ParsedView::Help(HELP_TEXT@)),
            FirstArgument::Subcommand(subcommand) => {
                let second = value_item(first.unread, first.mode);
                match second.item {
                    Err(_) => Err(arg_error(no_port_text(subcommand))),
                    Ok(second_value) => {
                        let text = readable(second_value);
                        if text == Some("-h"@) || text == Some("--help"@) {
                            Ok(ParsedView::Help(help_of(subcommand)))
                        } else {
                            match port_of(text) {
                                None => Err(arg_error("Invalid port number."@)),
                                Some(port) => options_outcome(
                                    initial_state(subcommand, port, backend),
                                    second.unread,
                                    second.mode,
                                    backend,
                                ),
                            }
                        }
                    },
                }
            },
        },
    }
}

/// Binds each status to the layer at the same position.
pub fn build_layer_map(ime_names: &Vec<String>, layer_names: &Vec<String>) -> (layer_map: Result<
    Binding<String>,
    AppError,
>)
    ensures
        match layer_map {
            Ok(map) => ime_names.len() == layer_names.len() && token_views(
                ime_names@,
            ).no_duplicates() && map.names() == token_views(ime_names@) && token_views(
                map.values(),
            ) == token_views(layer_names@),
            Err(e) => if ime_names.len() != layer_names.len() {
                e@ == arg_error(UNPAIRED_TEXT@)
            } else {
                !token_views(ime_names@).no_duplicates() && e@ == arg_error("Duplicate IME name."@)
            },
        },
{
    if ime_names.len() != layer_names.len() {
        return Err(new_arg_error(UNPAIRED_TEXT));
    }
    let mut layer_map: Binding<String> = Binding::new();
    let mut i: usize = 0;
    let ghost imes = token_views(ime_names@);
    let ghost layers = token_views(layer_names@);
    while i < ime_names.len()
        invariant
            i <= ime_names.len(),
            ime_names.len() == layer_names.len(),
            imes == token_views(ime_names@),
            layers == token_views(layer_names@),
            layer_map.names() == imes.take(i as int),
            layer_map.names().no_duplicates(),
            token_views(layer_map.values()) == layers.take(i as int),
        decreases ime_names.len() - i,
    {
        let ime_name = ime_names[i].clone();
        let layer_name = layer_names[i].clone();
        if !layer_map.insert_new(ime_name, layer_name) {
            proof {
                let earlier = imes.take(i as int).index_of(imes[i as int]);
                assert(imes[earlier] == imes[i as int] && earlier != i);
            }
            return Err(new_arg_error("Duplicate IME name."));
        }
        i += 1;
    }
    assert(imes.take(i as int) =~= imes);
    Ok(layer_map)
}

/// What the parser has gathered so far.
pub struct ArgState {
    subcommand: Subcommand,
    port: u16,
    log_level: LogLevel,
    config_map: Binding<usize>,
    ime_names: Vec<String>,
    layer_names: Vec<String>,
    app_config: AppConfig,
}

impl View for ArgState {
    type V = ArgStateView;

    closed spec fn view(&self) -> ArgStateView {
        ArgStateView {
            subcommand: self.subcommand,
            port: self.port,
            log_level: self.log_level,
            config_names: self.config_map.names(),
            ime_names: token_views(self.ime_names@),
            layer_names: token_views(self.layer_names@),
            app_config: self.app_config,
        }
    }
}

impl ArgState {
    /// Every status gathered under `config` is bound to its position.
    pub closed spec fn well_formed(&self) -> bool {
        self.config_map.values().len() == self.config_map.names().len() && counts_up(
            self.config_map.values(),
        )
    }

    /// The state after subcommand and port, before any option.
    pub fn new(subcommand: Subcommand, port: u16, backend: Backend) -> (state: Self)
        ensures
            state.well_formed(),
            state@ == initial_state(subcommand, port, backend),
    {
        let state = ArgState {
            subcommand,
            port,
            log_level: LogLevel::Info,
            config_map: Binding::new(),
            ime_names: Vec::new(),
            layer_names: Vec::new(),
            app_config: AppConfig::default_for(backend),
        };
        assert(token_views(state.ime_names@) =~= Seq::<Seq<char>>::empty());
        assert(token_views(state.layer_names@) =~= Seq::<Seq<char>>::empty());
        state
    }

    /// The subcommand that was chosen.
    pub fn subcommand(&self) -> (subcommand: Subcommand)
        ensures
            subcommand == self@.subcommand,
    {
        self.subcommand
    }

    fn apply_number(&mut self, kind: OptionKind, value: &Option<Result<String, String>>) -> (flow:
        Result<(), AppError>)
        requires
            old(self).well_formed(),
            kind == OptionKind::Polling || kind == OptionKind::RetryNumber || kind
                == OptionKind::SendMessageTimeout || kind == OptionKind::RetrySpan || kind
                == OptionKind::Delay,
        ensures
            final(self).well_formed(),
            match with_number(old(self)@, kind, value_view(*value)) {
                Ok(Flow::Continue(s)) => flow is Ok && final(self)@ == s,
                Ok(Flow::Help(_)) => false,
                Err(e) => flow is Err && flow->Err_0@ == e && final(self)@ == old(self)@,
            },
    {
        let limit: u64 = match kind {
            OptionKind::RetryNumber => usize::MAX as u64,
            OptionKind::SendMessageTimeout => u32::MAX as u64,
            _ => u64::MAX,
        };
        match parse_number(value, limit) {
            Err(e) => Err(e),
            Ok(n) => {
                self.app_config = match kind {
                    OptionKind::Polling => self.app_config.with_polling(Some(n)),
                    OptionKind::RetryNumber => self.app_config.with_retry_number(n as usize),
                    OptionKind::SendMessageTimeout => self.app_config.with_send_message_timeout(
                        n as u32,
                    ),
                    OptionKind::RetrySpan => self.app_config.with_retry_span(n),
                    _ => self.app_config.with_delay(n),
                };
                Ok(())
            },
        }
    }

    /// Carries out one option. `value` is the value read after it where it
    /// takes one: its text, or the tokenizer's text for a value that is no
    /// valid Unicode. `token` is the item itself. Returns the help text where
    /// the option asks for help, and leaves the state as it was on an error.
    pub fn apply(
        &mut self,
        kind: OptionKind,
        value: Option<Result<String, String>>,
        token: &ArgToken,
    ) -> (flow: Result<Option<String>, AppError>)
        requires
            old(self).well_formed(),
        ensures
            final(self).well_formed(),
            match applied(old(self)@, kind, value_view(value), token@) {
                Ok(Flow::Continue(s)) => flow matches Ok(None) && final(self)@ == s,
                Ok(Flow::Help(text)) => flow matches Ok(Some(t)) && t@ == text && final(self)@
                    == old(self)@,
                Err(e) => flow is Err && flow->Err_0@ == e && final(self)@ == old(self)@,
            },
    {
        match kind {
            OptionKind::Ime => match value {
                Some(Ok(ime_name)) => match self.subcommand {
                    Subcommand::Config => {
                        let config_number = self.config_map.len();
                        if self.config_map.insert_new(ime_name, config_number) {
                            Ok(None)
                        } else {
                            Err(new_arg_error("Duplicate IME name."))
                        }
                    },
                    Subcommand::Layer => {
                        let ghost before = token_views(self.ime_names@);
                        self.ime_names.push(ime_name);
                        assert(token_views(self.ime_names@) =~= before.push(ime_name@));
                        Ok(None)
                    },
                    Subcommand::Log => Err(new_arg_error("Unexpected option.")),
                },
                _ => Err(new_arg_error("This IME name has invalid unicode string.")),
            },
            OptionKind::Layer => match self.subcommand {
                Subcommand::Layer => match value {
                    Some(Ok(layer_name)) => {
                        let ghost before = token_views(self.layer_names@);
                        self.layer_names.push(layer_name);
                        assert(token_views(self.layer_names@) =~= before.push(layer_name@));
                        Ok(None)
                    },
                    _ => Err(new_arg_error("This layer name has invalid unicode string.")),
                },
                _ => Err(new_arg_error("Unexpected option.")),
            },
            OptionKind::Help => Ok(Some(subcommand_help(self.subcommand))),
            OptionKind::Debug => {
                self.log_level = LogLevel::Debug;
                Ok(None)
            },
            OptionKind::WithoutPolling => {
                self.app_config = self.app_config.with_polling(None);
                Ok(None)
            },
            OptionKind::Unexpected => Err(AppError::ArgError(unexpected_item(token))),
            _ => match self.apply_number(kind, &value) {
                Ok(()) => Ok(None),
                Err(e) => Err(e),
            },
        }
    }

    /// Ends the command line: builds the binding of the subcommand and the
    /// arguments to run with, or says why there are none.
    pub fn finish(self) -> (parsed: Result<Parsed, AppError>)
        requires
            self.well_formed(),
        ensures
            parse_view(parsed) == finish_outcome(self@),
    {
        let ArgState { subcommand, port, log_level, config_map, ime_names, layer_names, app_config } =
            self;
        match subcommand {
            Subcommand::Config => {
                if config_map.is_empty() {
                    Ok(Parsed::Help(config_help_str()))
                } else {
                    assert(config_map.values() =~= counting(config_map.names().len()));
                    Ok(
                        Parsed::Run(
                            Args { port, command: Command::Config(config_map), log_level, app_config },
                        ),
                    )
                }
            },
            Subcommand::Layer => match build_layer_map(&ime_names, &layer_names) {
                Ok(layer_map) => Ok(
                    Parsed::Run(Args { port, command: Command::Layer(layer_map), log_level, app_config }),
                ),
                Err(e) => Err(e),
            },
            Subcommand::Log => Ok(Parsed::Run(Args { port, command: Command::Log, log_level, app_config })),
        }
    }
}

/// Whether a text is one of the four help texts.
pub open spec fn is_help_text(text: Seq<char>) -> bool {
    text == HELP_TEXT@ || text == help_of(Subcommand::Config) || text == help_of(Subcommand::Layer)
        || text == help_of(Subcommand::Log)
}

/// Whether a binding is one that a command line can give: under `config` at
/// least one status, bound to 0, 1, 2, ... in the order given; under `layer`
/// as many layers as statuses; and no status twice.
pub open spec fn valid_command(command: CommandView) -> bool {
    match command {
        CommandView::Config { names, indices } => names.len() > 0 && names.no_duplicates()
            && indices == counting(names.len()),
        CommandView::Layer { names, layers } => names.len() == layers.len()
            && names.no_duplicates(),
        CommandView::Log => true,
    }
}

/// Parses the arguments that follow the program's name, for the backend in
/// use.
///
/// The result is `parse_outcome` of the arguments: the tokenizer decides
/// where one item ends and which text is the value of an option, and
/// `first_argument`, `port_of`, `option_kind`, `takes_value`, `applied` and
/// `finish_outcome` decide everything else. Whatever the tokenizer hands
/// out, a rejected command line is an argument error, a help text is one of
/// the four, and arguments to run with belong to the backend and carry a
/// valid binding.
pub fn parse_args(args: Vec<String>, backend: Backend) -> (parsed: Result<Parsed, AppError>)
    ensures
        parse_view(parsed) == parse_outcome(joined(token_views(args@)), backend),
        match parsed {
            Ok(Parsed::Run(run)) => run.app_config.backend() == backend && valid_command(
                run.command@,
            ),
            Ok(Parsed::Help(text)) => is_help_text(text@),
            Err(e) => e@.kind == ErrorKind::Arg,
        },
{
    let ghost outcome = parse_outcome(joined(token_views(args@)), backend);
    let mut parser = open_parser(args);
    let subcommand = match option_value(&mut parser) {
        Ok(first) => match choose_subcommand(&into_text(first)) {
            FirstArgument::Subcommand(subcommand) => subcommand,
            FirstArgument::Help => {
                return Ok(Parsed::Help(help_str()));
            },
            FirstArgument::Unknown => {
                return Err(new_arg_error(NO_SUBCOMMAND_TEXT));
            },
        },
        Err(_) => {
            return Err(new_arg_error(NO_SUBCOMMAND_TEXT));
        },
    };
    let initial_pos_arg = match option_value(&mut parser) {
        Ok(second) => into_text(second),
        Err(_) => {
            return Err(no_port_error(subcommand));
        },
    };
    if asks_for_help(&initial_pos_arg) {
        return Ok(Parsed::Help(subcommand_help(subcommand)));
    }
    let port = match parse_port(&initial_pos_arg) {
        Ok(port) => port,
        Err(e) => {
            return Err(e);
        },
    };
    let mut state = ArgState::new(subcommand, port, backend);
    assert(outcome == options_outcome(state@, unread(parser), mode(parser), backend));
    loop
        invariant
            state.well_formed(),
            state@.subcommand == subcommand,
            state@.app_config.backend() == backend,
            state@.config_names.no_duplicates(),
            outcome == parse_outcome(joined(token_views(args@)), backend),
            outcome == options_outcome(state@, unread(parser), mode(parser), backend),
        decreases unread(parser).len(),
    {
        let ghost before = unread(parser);
        let token = match next_argument(&mut parser) {
            Ok(Some(token)) => token,
            Ok(None) => {
                return state.finish();
            },
            Err(reason) => {
                return Err(AppError::ArgError(reason));
            },
        };
        let kind = classify(&token, backend);
        let value = if reads_value(kind, subcommand) {
            match option_value(&mut parser) {
                Ok(value) => Some(value),
                Err(reason) => {
                    return Err(AppError::ArgError(reason));
                },
            }
        } else {
            None
        };
        assert(unread(parser).len() < before.len());
        match state.apply(kind, value, &token) {
            Ok(None) => {},
            Ok(Some(help)) => {
                return Ok(Parsed::Help(help));
            },
            Err(e) => {
                return Err(e);
            },
        }
    }
}

/// The state after the statuses `names` were given with `-i`, one after the
/// other, starting in state `s`; `None` if one of them was refused.
pub open spec fn with_statuses(s: ArgStateView, names: Seq<Seq<char>>) -> Option<ArgStateView>
    decreases names.len(),
{
    if names.len() == 0 {
        Some(s)
    } else {
        match with_statuses(s, names.drop_last()) {
            None => None,
            Some(before) => match applied(
                before,
                OptionKind::Ime,
                Some(Ok(names.last())),
                ArgTokenView::Short('i'),
            ) {
                Ok(Flow::Continue(after)) => Some(after),
                _ => None,
            },
        }
    }
}

/// Under `config`, statuses that differ from one another are all accepted,
/// and the state holds them in the order given.
pub proof fn lemma_statuses_are_gathered(port: u16, backend: Backend, names: Seq<Seq<char>>)
    requires
        names.no_duplicates(),
    ensures
        with_statuses(initial_state(Subcommand::Config, port, backend), names) == Some(
            ArgStateView {
                config_names: names,
                ..initial_state(Subcommand::Config, port, backend)
            },
        ),
    decreases names.len(),
{
    let start = initial_state(Subcommand::Config, port, backend);
    if names.len() == 0 {
        assert(names =~= start.config_names);
    } else {
        let before = names.drop_last();
        assert forall|i: int, j: int| 0 <= i < before.len() && 0 <= j < before.len() && i != j implies before[i]
            != before[j] by {
            assert(before[i] == names[i] && before[j] == names[j]);
        }
        lemma_statuses_are_gathered(port, backend, before);
        assert(!before.contains(names.last())) by {
            if before.contains(names.last()) {
                let k = choose|k: int| 0 <= k < before.len() && before[k] == names.last();
                assert(names[k] == names[names.len() - 1]);
            }
        }
        assert(before.push(names.last()) =~= names);
    }
}

/// Under `config`, n statuses that differ from one another are bound to
/// 0, 1, ..., n-1 in the order of the command line: a command line that
/// gives them, and nothing else after the port, runs the observer with that
/// binding, the port given, the level `Info` and the backend's default
/// settings.
pub proof fn lemma_config_binds_in_order(port: u16, backend: Backend, names: Seq<Seq<char>>)
    requires
        names.no_duplicates(),
        names.len() > 0,
    ensures
        with_statuses(initial_state(Subcommand::Config, port, backend), names) is Some,
        finish_outcome(
            with_statuses(initial_state(Subcommand::Config, port, backend), names).unwrap(),
        ) == Ok::<ParsedView, ErrorView>(
            ParsedView::Run(
                ArgsView {
                    port,
                    command: CommandView::Config { names, indices: counting(names.len()) },
                    log_level: LogLevel::Info,
                    app_config: default_config(backend),
                },
            ),
        ),
{
    lemma_statuses_are_gathered(port, backend, names);
}

/// A status that is given twice under `config` is rejected; it is never
/// bound anew.
pub proof fn lemma_repeated_status_is_rejected(s: ArgStateView, name: Seq<char>)
    requires
        s.subcommand == Subcommand::Config,
        s.config_names.contains(name),
    ensures
        applied(s, OptionKind::Ime, Some(Ok(name)), ArgTokenView::Short('i')) == Err::<
            Flow,
            ErrorView,
        >(arg_error("Duplicate IME name."@)),
{
}

} // verus!
