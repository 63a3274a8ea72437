//! The text command interpreter behind the serial-over-BLE channel.
//!
//! A line is read in two steps. `scan` cuts it into words by the shell's
//! quoting rules and sorts the words into options and arguments; `run`
//! carries the command out on the configuration document and says what the
//! caller has to do with the store afterwards. Only a command that
//! succeeds has the document written back.

use vstd::prelude::*;
use vstd::string::*;
use crate::conf::{error_text, shown, updated, Config, ConfigError, Settings, WifiSettings};
use crate::text::{joined, same_text};

verus! {

/// The usage of the interpreter.
pub const HELP: &'static str =
    "USAGE: \nwifi --field [FIELD] get|set [VALUE] | set wifi config options\nrestart | self-explanatory\ndump-config\nsys mem|temp|[bweh]\nhelp\n";

/// The usage of the `wifi` command.
pub const WIFI_HELP: &'static str =
    "USAGE:\nwifi --field [FIELD] get\nwifi --field [FIELD] set [VALUE]\n";

/// Why a command was not carried out.
#[derive(Debug, Clone, PartialEq, Eq)]
pub enum CmdError {
    /// The line does not follow the quoting rules.
    InvalidString,
    /// The field option stands without a value.
    OptionValue,
    /// `get` or `set` without the field option.
    MissingField,
    /// `set` without a value.
    MissingValue,
    /// `wifi` with neither `get` nor `set`.
    InvalidVerb,
    /// The configuration turned the request down.
    Field(ConfigError),
    /// `sys` without a word behind it.
    MissingSysField,
    /// `sys` with a word that names nothing to report.
    InvalidSysField(String),
    /// Something outside the interpreter failed, such as the store or a
    /// driver; the text is what it said.
    External(String),
}

impl CmdError {
    /// The sentence that reports this error.
    pub open spec fn text(&self) -> Seq<char> {
        match self {
            CmdError::InvalidString => "invalid string"@,
            CmdError::OptionValue => "couldn't parse option value"@,
            CmdError::MissingField => "missing --field. usage: "@ + WIFI_HELP@,
            CmdError::MissingValue => "missing value to set field to. usage: "@ + WIFI_HELP@,
            CmdError::InvalidVerb => "Invalid subcommand"@,
            CmdError::Field(e) => error_text(e.kind, e.subject@),
            CmdError::MissingSysField => "Missing field to get value for - Usage: sys mem|temp"@,
            CmdError::InvalidSysField(field) => "Invalid field "@ + field@
                + ". Valid fields are mem and temp"@,
            CmdError::External(said) => said@,
        }
    }

    /// The sentence that reports this error.
    pub fn to_string(&self) -> (s: String)
        ensures
            s@ == self.text(),
    {
        match self {
            CmdError::InvalidString => "invalid string".to_owned(),
            CmdError::OptionValue => "couldn't parse option value".to_owned(),
            CmdError::MissingField => joined("missing --field. usage: ", WIFI_HELP),
            CmdError::MissingValue => joined("missing value to set field to. usage: ", WIFI_HELP),
            CmdError::InvalidVerb => "Invalid subcommand".to_owned(),
            CmdError::Field(e) => e.to_string(),
            CmdError::MissingSysField => "Missing field to get value for - Usage: sys mem|temp".to_owned(),
            CmdError::InvalidSysField(field) => {
                let mut s = joined("Invalid field ", field.as_str());
                s.append(". Valid fields are mem and temp");
                s
            },
            CmdError::External(said) => said.clone(),
        }
    }
}

/// What the caller has to do after a command.
#[derive(Debug, Clone, Copy, PartialEq, Eq, Structural)]
pub enum Effect {
    /// The command succeeded: write the document back.
    Persist,
    /// The command failed or was not understood: leave the store alone.
    Discard,
    /// Reset the device.
    Restart,
    /// Hand the serialized document to `Outcome::with_dump`.
    DumpConfig,
    /// Hand the free heap and its lowest mark to `Outcome::with_memory`.
    ReportMemory,
    /// Hand the motor's temperature to `Outcome::with_temperature`.
    ReportTemperature,
}

/// The reply so far and what is left to do.
#[derive(Debug, Clone, PartialEq, Eq)]
pub struct Outcome {
    pub reply: String,
    pub effect: Effect,
}

/// The line that reports the heap, given the free heap and its lowest mark
/// as text.
pub open spec fn memory_line(free: Seq<char>, lowest: Seq<char>) -> Seq<char> {
    "Free Memory: "@ + free + " (hist. minimum "@ + lowest + ")\n"@
}

/// The line that reports the motor's temperature, given the reading as
/// text.
pub open spec fn temperature_line(reading: Seq<char>) -> Seq<char> {
    "Motor temp: "@ + reading + "°C.\n"@
}

/// A number of bytes as people write it, in units of a thousand: what
/// `humansize` makes of it with its decimal options.
pub uninterp spec fn decimal_size(bytes: u32) -> Seq<char>;

/// `humansize::format_size` with the options `DECIMAL`.
#[verifier::external_body]
fn format_bytes(bytes: u32) -> (text: String)
    ensures
        text@ == decimal_size(bytes),
{
    humansize::format_size(bytes, humansize::DECIMAL)
}

impl Outcome {
    /// Finishes a `dump-config`: adds the serialized document and a line
    /// end, and has the document persisted. Any other outcome stays as it
    /// is.
    pub fn with_dump(self, json: &str) -> (out: Outcome)
        ensures
            out.reply@ == if self.effect == Effect::DumpConfig {
                self.reply@ + json@ + "\n"@
            } else {
                self.reply@
            },
            out.effect == if self.effect == Effect::DumpConfig {
                Effect::Persist
            } else {
                self.effect
            },
    {
        match self.effect {
            Effect::DumpConfig => {
                let mut reply = self.reply;
                reply.append(json);
                reply.append("\n");
                Outcome { reply, effect: Effect::Persist }
            },
            _ => self,
        }
    }

    /// Finishes a `sys mem`, given the free heap and its lowest mark as
    /// text: adds the line that reports them and has the document
    /// persisted. Any other outcome stays as it is.
    pub fn with_memory_text(self, free: &str, lowest: &str) -> (out: Outcome)
        ensures
            out.reply@ == if self.effect == Effect::ReportMemory {
                self.reply@ + memory_line(free@, lowest@)
            } else {
                self.reply@
            },
            out.effect == if self.effect == Effect::ReportMemory {
                Effect::Persist
            } else {
                self.effect
            },
    {
        match self.effect {
            Effect::ReportMemory => {
                let mut reply = self.reply;
                reply.append("Free Memory: ");
                reply.append(free);
                reply.append(" (hist. minimum ");
                reply.append(lowest);
                reply.append(")\n");
                assert(reply@ =~= self.reply@ + memory_line(free@, lowest@));
                Outcome { reply, effect: Effect::Persist }
            },
            _ => self,
        }
    }

    /// Finishes a `sys mem`, given the free heap and its lowest mark in
    /// bytes.
    pub fn with_memory(self, free: u32, lowest: u32) -> (out: Outcome)
        ensures
            out.reply@ == if self.effect == Effect::ReportMemory {
                self.reply@ + memory_line(decimal_size(free), decimal_size(lowest))
            } else {
                self.reply@
            },
            out.effect == if self.effect == Effect::ReportMemory {
                Effect::Persist
            } else {
                self.effect
            },
    {
        let free_text = format_bytes(free);
        let lowest_text = format_bytes(lowest);
        self.with_memory_text(free_text.as_str(), lowest_text.as_str())
    }

    /// Finishes a `sys temp`, given the reading in degrees as text or what
    /// the sensor's driver said of its failure. A reading is reported and
    /// the document persisted; a failure is reported as the command's error
    /// and nothing is persisted. Any other outcome stays as it is.
    pub fn with_temperature(self, reading: Result<&str, &str>) -> (out: Outcome)
        ensures
            out.reply@ == if self.effect == Effect::ReportTemperature {
                match reading {
                    Ok(degrees) => self.reply@ + temperature_line(degrees@),
                    Err(said) => self.reply@ + error_line(said@),
                }
            } else {
                self.reply@
            },
            out.effect == if self.effect == Effect::ReportTemperature {
                match reading {
                    Ok(_) => Effect::Persist,
                    Err(_) => Effect::Discard,
                }
            } else {
                self.effect
            },
    {
        match self.effect {
            Effect::ReportTemperature => {
                let mut reply = self.reply;
                match reading {
                    Ok(degrees) => {
                        reply.append("Motor temp: ");
                        reply.append(degrees);
                        reply.append("°C.\n");
                        assert(reply@ =~= self.reply@ + temperature_line(degrees@));
                        Outcome { reply, effect: Effect::Persist }
                    },
                    Err(said) => {
                        reply.append("Error!: ");
                        reply.append(said);
                        reply.append("\n");
                        assert(reply@ =~= self.reply@ + error_line(said@));
                        Outcome { reply, effect: Effect::Discard }
                    },
                }
            },
            _ => self,
        }
    }
}

/// The field option of a `wifi` command.
#[derive(Debug, Clone, PartialEq, Eq)]
pub enum FieldArg {
    /// The option was not given.
    Absent,
    /// The option was given with this value.
    Given(String),
    /// The option was given last, with nothing behind it.
    Broken,
}

/// A command as the line spells it.
#[derive(Debug, Clone, PartialEq, Eq)]
pub enum Command {
    /// `wifi`, with the field option, the word behind the options and the
    /// word behind that.
    Wifi { field: FieldArg, verb: Option<String>, value: Option<String> },
    /// `restart`.
    Restart,
    /// `dump-config`.
    DumpConfig,
    /// `sys`, with the word behind its options.
    Sys { what: Option<String> },
    /// `help`.
    Help,
    /// No command, or one that is not known.
    Unknown,
}

/// The field option of a `wifi` command, as plain text.
pub enum FieldText {
    Absent,
    Given(Seq<char>),
    Broken,
}

/// A command as the line spells it, as plain text.
pub enum CommandText {
    Wifi { field: FieldText, verb: Option<Seq<char>>, value: Option<Seq<char>> },
    Restart,
    DumpConfig,
    Sys { what: Option<Seq<char>> },
    Help,
    Unknown,
}

/// The text of an owned word that may be missing.
pub open spec fn owned_text(word: Option<String>) -> Option<Seq<char>> {
    match word {
        Some(text) => Some(text@),
        None => None,
    }
}

impl View for FieldArg {
    type V = FieldText;

    open spec fn view(&self) -> FieldText {
        match self {
            FieldArg::Absent => FieldText::Absent,
            FieldArg::Given(name) => FieldText::Given(name@),
            FieldArg::Broken => FieldText::Broken,
        }
    }
}

impl View for Command {
    type V = CommandText;

    open spec fn view(&self) -> CommandText {
        match self {
            Command::Wifi { field, verb, value } => CommandText::Wifi {
                field: field@,
                verb: owned_text(*verb),
                value: owned_text(*value),
            },
            Command::Restart => CommandText::Restart,
            Command::DumpConfig => CommandText::DumpConfig,
            Command::Sys { what } => CommandText::Sys { what: owned_text(*what) },
            Command::Help => CommandText::Help,
            Command::Unknown => CommandText::Unknown,
        }
    }
}

/// A scanned line: the usage texts that its leading help options asked
/// for, and the command.
#[derive(Debug, Clone, PartialEq, Eq)]
pub struct Invocation {
    pub preamble: String,
    pub command: Command,
}

/// A scanned line as plain text.
pub struct InvocationText {
    pub preamble: Seq<char>,
    pub command: CommandText,
}

impl View for Invocation {
    type V = InvocationText;

    open spec fn view(&self) -> InvocationText {
        InvocationText { preamble: self.preamble@, command: self.command@ }
    }
}

/// The usage followed by an empty line, as each help request prints it.
pub open spec fn help_block() -> Seq<char> {
    HELP@ + "\n"@
}

/// `count` help blocks in a row.
pub open spec fn help_blocks(count: nat) -> Seq<char>
    decreases count,
{
    if count == 0 {
        Seq::<char>::empty()
    } else {
        help_blocks((count - 1) as nat) + help_block()
    }
}

/// The line that reports a command's own failure.
pub open spec fn error_line(said: Seq<char>) -> Seq<char> {
    "Error!: "@ + said + "\n"@
}

/// The line that reports that a command could not even be started.
pub open spec fn failure_line(said: Seq<char>) -> Seq<char> {
    "Error while handling: "@ + said + "\n"@
}

/// The words of a line, cut by the shell's quoting rules; `None` where the
/// line breaks them.
pub uninterp spec fn shell_words(line: Seq<char>) -> Option<Seq<Seq<char>>>;

/// The words as plain text.
pub open spec fn words_of(words: Option<Vec<String>>) -> Option<Seq<Seq<char>>> {
    match words {
        Some(list) => Some(list.deep_view()),
        None => None,
    }
}

/// `shlex::split`: the words of the line, or `None` on a quote or an escape
/// that is left open.
#[verifier::external_body]
fn split_words(line: &str) -> (words: Option<Vec<String>>)
    ensures
        words_of(words) == shell_words(line@),
{
    shlex::split(line)
}

/// A cursor over the words of a line that tells options from arguments:
/// `getargs::Options` over the words as string slices. Nothing is known of
/// what is inside.
#[verifier::external_body]
pub struct ArgCursor<'a> {
    inner: getargs::Options<&'a str, std::vec::IntoIter<&'a str>>,
}

/// Whether the cursor has just handed out an option whose value was not
/// asked for yet.
pub uninterp spec fn at_option(cursor: &ArgCursor<'static>) -> bool;

/// How much of the line the cursor has yet to read: the words that it has
/// not reached, and the characters of those and of the word that it is in.
pub uninterp spec fn unread(cursor: &ArgCursor<'static>) -> nat;

/// What the cursor finds next while it looks for options.
pub enum Flag<'a> {
    /// A one-letter option.
    Short(char),
    /// An option with a name.
    Long(&'a str),
    /// No option comes next: an argument, the end of the options or the end
    /// of the line.
    End,
    /// A value was attached to the option before and never asked for.
    Refused,
}

/// What the cursor finds next, as plain text.
pub enum FlagText {
    Short(char),
    Long(Seq<char>),
    End,
    Refused,
}

impl<'a> View for Flag<'a> {
    type V = FlagText;

    open spec fn view(&self) -> FlagText {
        match self {
            Flag::Short(letter) => FlagText::Short(*letter),
            Flag::Long(name) => FlagText::Long(name@),
            Flag::End => FlagText::End,
            Flag::Refused => FlagText::Refused,
        }
    }
}

/// What looking for an option does at a cursor: what is found, and the
/// cursor behind it.
pub uninterp spec fn flag_step(cursor: &ArgCursor<'static>) -> (FlagText, ArgCursor<'static>);

/// What asking for an option's value does at a cursor right behind the
/// option: the value, if there is one, and the cursor behind it.
pub uninterp spec fn value_step(cursor: &ArgCursor<'static>) -> (
    Option<Seq<char>>,
    ArgCursor<'static>,
);

/// What taking the next word as an argument does at a cursor that is not
/// right behind an option: the word, if one is left, and the cursor behind
/// it.
pub uninterp spec fn word_step(cursor: &ArgCursor<'static>) -> (
    Option<Seq<char>>,
    ArgCursor<'static>,
);

/// The text of a word that may be missing.
pub open spec fn word_text(word: Option<&str>) -> Option<Seq<char>> {
    match word {
        Some(text) => Some(text@),
        None => None,
    }
}

/// The cursor in front of the first of the words.
pub uninterp spec fn opened(words: Seq<Seq<char>>) -> ArgCursor<'static>;

/// `getargs::Options::new` over the words: a cursor in front of the first
/// word, which depends on the words alone.
#[verifier::external_body]
fn open_cursor<'a>(words: &'a Vec<String>) -> (cursor: ArgCursor<'a>)
    ensures
        cursor == opened(words.deep_view()),
        !at_option(&cursor),
{
    ArgCursor {
        inner: getargs::Options::new(
            words.iter().map(String::as_str).collect::<Vec<&str>>().into_iter(),
        ),
    }
}

/// `Options::next_opt`: the next option, if an option comes next. What it
/// finds and where it leaves the cursor depend on the cursor alone. Every
/// option that is handed out uses up some of the line, and nothing is ever
/// given back to it. The call never panics.
#[verifier::external_body]
fn next_flag<'a>(cursor: &mut ArgCursor<'a>) -> (flag: Flag<'a>)
    ensures
        flag@ == flag_step(old(cursor)).0,
        *final(cursor) == flag_step(old(cursor)).1,
        at_option(final(cursor)) == (flag is Short || flag is Long),
        unread(final(cursor)) <= unread(old(cursor)),
        flag is Short || flag is Long ==> unread(final(cursor)) < unread(old(cursor)),
{
    match cursor.inner.next_opt() {
        Ok(Some(getargs::Opt::Short(letter))) => Flag::Short(letter),
        Ok(Some(getargs::Opt::Long(name))) => Flag::Long(name),
        Ok(None) => Flag::End,
        Err(_) => Flag::Refused,
    }
}

/// `Options::value`: the value of the option that was handed out last,
/// attached to it or in the next word; `None` if the line ends behind the
/// option. What it returns and where it leaves the cursor depend on the
/// cursor alone. The call panics unless an option was handed out last.
#[verifier::external_body]
fn flag_value<'a>(cursor: &mut ArgCursor<'a>) -> (value: Option<&'a str>)
    requires
        at_option(old(cursor)),
    ensures
        word_text(value) == value_step(old(cursor)).0,
        *final(cursor) == value_step(old(cursor)).1,
        !at_option(final(cursor)),
        unread(final(cursor)) <= unread(old(cursor)),
{
    cursor.inner.value().ok()
}

/// `Options::next_positional`: the next word as it stands, or `None` at the
/// end of the line. What it returns and where it leaves the cursor depend
/// on the cursor alone. The call panics right behind an option.
#[verifier::external_body]
fn next_word<'a>(cursor: &mut ArgCursor<'a>) -> (word: Option<&'a str>)
    requires
        !at_option(old(cursor)),
    ensures
        word_text(word) == word_step(old(cursor)).0,
        *final(cursor) == word_step(old(cursor)).1,
        !at_option(final(cursor)),
        unread(final(cursor)) <= unread(old(cursor)),
{
    cursor.inner.next_positional()
}

/// Whether an option asks for the usage: `-h` or `--help`.
pub fn is_help_flag(flag: &Flag) -> (r: bool)
    ensures
        r == match flag {
            Flag::Short(letter) => *letter == 'h',
            Flag::Long(name) => name@ == "help"@,
            _ => false,
        },
{
    match flag {
        Flag::Short(letter) => *letter == 'h',
        Flag::Long(name) => same_text(name, "help"),
        _ => false,
    }
}

/// Whether an option names the field of a `wifi` command: `-f` or
/// `--field`.
pub fn is_field_flag(flag: &Flag) -> (r: bool)
    ensures
        r == match flag {
            Flag::Short(letter) => *letter == 'f',
            Flag::Long(name) => name@ == "field"@,
            _ => false,
        },
{
    match flag {
        Flag::Short(letter) => *letter == 'f',
        Flag::Long(name) => same_text(name, "field"),
        _ => false,
    }
}

/// The commands that the interpreter knows.
#[derive(Debug, Clone, Copy, PartialEq, Eq, Structural)]
pub enum Subcommand {
    Wifi,
    Restart,
    DumpConfig,
    Sys,
    Help,
    Unknown,
}

/// The command that a word names; a missing word names none.
pub open spec fn subcommand_named(word: Option<Seq<char>>) -> Subcommand {
    match word {
        Some(name) => if name == "wifi"@ {
            Subcommand::Wifi
        } else if name == "restart"@ {
            Subcommand::Restart
        } else if name == "dump-config"@ {
            Subcommand::DumpConfig
        } else if name == "sys"@ {
            Subcommand::Sys
        } else if name == "help"@ {
            Subcommand::Help
        } else {
            Subcommand::Unknown
        },
        None => Subcommand::Unknown,
    }
}

/// The command that the first argument of a line names.
pub open spec fn subcommand_of(word: Option<&str>) -> Subcommand {
    subcommand_named(word_text(word))
}

/// Tells which command the first argument of a line names.
pub fn classify(word: Option<&str>) -> (r: Subcommand)
    ensures
        r == subcommand_of(word),
{
    match word {
        Some(name) => {
            if same_text(name, "wifi") {
                Subcommand::Wifi
            } else if same_text(name, "restart") {
                Subcommand::Restart
            } else if same_text(name, "dump-config") {
                Subcommand::DumpConfig
            } else if same_text(name, "sys") {
                Subcommand::Sys
            } else if same_text(name, "help") {
                Subcommand::Help
            } else {
                Subcommand::Unknown
            }
        },
        None => Subcommand::Unknown,
    }
}

fn owned(word: Option<&str>) -> (r: Option<String>)
    ensures
        match word {
            Some(w) => r is Some && r->0@ == w@,
            None => r is None,
        },
{
    match word {
        Some(w) => Some(w.to_owned()),
        None => None,
    }
}

/// Whether an option that was found names the field of a `wifi` command.
pub open spec fn names_field(flag: FlagText) -> bool {
    match flag {
        FlagText::Short(letter) => letter == 'f',
        FlagText::Long(name) => name == "field"@,
        _ => false,
    }
}

/// The field option that the options of a `wifi` command leave behind,
/// starting from `field`, and the cursor behind the options.
///
/// Options are read one by one until something else comes. A field option
/// takes its value, and the last one counts; one without a value ends the
/// reading at once with a broken field. Any other option is passed over.
/// (Each option uses up some of the line; that is what ends the reading.)
pub open spec fn wifi_flags(cursor: ArgCursor<'static>, field: FieldText) -> (
    FieldText,
    ArgCursor<'static>,
)
    decreases unread(&cursor),
{
    let found = flag_step(&cursor);
    if (found.0 is Short || found.0 is Long) && unread(&found.1) < unread(&cursor) {
        if names_field(found.0) {
            let asked = value_step(&found.1);
            match asked.0 {
                Some(text) => if unread(&asked.1) < unread(&cursor) {
                    wifi_flags(asked.1, FieldText::Given(text))
                } else {
                    (FieldText::Given(text), asked.1)
                },
                None => (FieldText::Broken, asked.1),
            }
        } else {
            wifi_flags(found.1, field)
        }
    } else {
        (field, found.1)
    }
}

/// The `wifi` command that stands at a cursor behind the word `wifi`: the
/// field option as `wifi_flags` finds it, then the next two words as verb
/// and value. With a broken field option no word is read.
pub open spec fn wifi_scanned(cursor: ArgCursor<'static>) -> CommandText {
    let flags = wifi_flags(cursor, FieldText::Absent);
    if flags.0 is Broken {
        CommandText::Wifi { field: FieldText::Broken, verb: None, value: None }
    } else {
        let verb = word_step(&flags.1);
        let value = word_step(&verb.1);
        CommandText::Wifi { field: flags.0, verb: verb.0, value: value.0 }
    }
}

/// The cursor behind the options of a `sys` command, which are all passed
/// over.
pub open spec fn sys_flags(cursor: ArgCursor<'static>) -> ArgCursor<'static>
    decreases unread(&cursor),
{
    let found = flag_step(&cursor);
    if (found.0 is Short || found.0 is Long) && unread(&found.1) < unread(&cursor) {
        sys_flags(found.1)
    } else {
        found.1
    }
}

/// The `sys` command that stands at a cursor behind the word `sys`: the
/// first word behind its options.
pub open spec fn sys_scanned(cursor: ArgCursor<'static>) -> CommandText {
    CommandText::Sys { what: word_step(&sys_flags(cursor)).0 }
}

/// Whether an option that was found asks for the usage.
pub open spec fn asks_help(flag: FlagText) -> bool {
    match flag {
        FlagText::Short(letter) => letter == 'h',
        FlagText::Long(name) => name == "help"@,
        _ => false,
    }
}

/// How many of the options in front of the command ask for the usage,
/// counted on from `count`, and the cursor behind these options. Every
/// option is read, whatever it is, until something else comes.
pub open spec fn help_flags(cursor: ArgCursor<'static>, count: nat) -> (nat, ArgCursor<'static>)
    decreases unread(&cursor),
{
    let found = flag_step(&cursor);
    if (found.0 is Short || found.0 is Long) && unread(&found.1) < unread(&cursor) {
        help_flags(
            found.1,
            if asks_help(found.0) {
                count + 1
            } else {
                count
            },
        )
    } else {
        (count, found.1)
    }
}

/// What the words of a line spell: one usage text for each help option in
/// front of the command, then the command that the first argument names,
/// with what `wifi` and `sys` read behind it. A first argument that names
/// none of the commands, or none at all, spells the unknown command.
pub open spec fn scanned(words: Seq<Seq<char>>) -> InvocationText {
    let flags = help_flags(opened(words), 0);
    let first = word_step(&flags.1);
    InvocationText {
        preamble: help_blocks(flags.0),
        command: match subcommand_named(first.0) {
            Subcommand::Wifi => wifi_scanned(first.1),
            Subcommand::Restart => CommandText::Restart,
            Subcommand::DumpConfig => CommandText::DumpConfig,
            Subcommand::Sys => sys_scanned(first.1),
            Subcommand::Help => CommandText::Help,
            Subcommand::Unknown => CommandText::Unknown,
        },
    }
}

/// Reads the options and arguments of a `wifi` command.
fn scan_wifi<'a>(cursor: &mut ArgCursor<'a>) -> (command: Command)
    requires
        !at_option(old(cursor)),
    ensures
        command@ == wifi_scanned(*old(cursor)),
{
    let ghost start = *cursor;
    let mut field = FieldArg::Absent;
    loop
        invariant_except_break
            wifi_flags(start, FieldText::Absent) == wifi_flags(*cursor, field@),
            !(field is Broken),
        invariant
            start == *old(cursor),
        ensures
            wifi_flags(start, FieldText::Absent) == (field@, *cursor),
            !(field is Broken),
            !at_option(cursor),
        decreases unread(cursor),
    {
        let flag = next_flag(cursor);
        match flag {
            Flag::Short(_) | Flag::Long(_) => {
                if is_field_flag(&flag) {
                    match flag_value(cursor) {
                        Some(value) => {
                            field = FieldArg::Given(value.to_owned());
                        },
                        None => {
                            return Command::Wifi {
                                field: FieldArg::Broken,
                                verb: None,
                                value: None,
                            };
                        },
                    }
                }
            },
            _ => {
                break ;
            },
        }
    }
    let verb = owned(next_word(cursor));
    let value = owned(next_word(cursor));
    Command::Wifi { field, verb, value }
}

/// Reads the options and the argument of a `sys` command.
fn scan_sys<'a>(cursor: &mut ArgCursor<'a>) -> (command: Command)
    requires
        !at_option(old(cursor)),
    ensures
        command@ == sys_scanned(*old(cursor)),
{
    let ghost start = *cursor;
    loop
        invariant_except_break
            sys_flags(start) == sys_flags(*cursor),
        ensures
            sys_flags(start) == *cursor,
            !at_option(cursor),
        decreases unread(cursor),
    {
        match next_flag(cursor) {
            Flag::Short(_) | Flag::Long(_) => {},
            _ => {
                break ;
            },
        }
    }
    Command::Sys { what: owned(next_word(cursor)) }
}

/// What a `wifi` command does: the settings afterwards and the line that
/// says so, or the sentence of the error.
///
/// A field option without value fails before anything else is looked at.
/// `set` needs the field and a value and changes the field as `updated`
/// says; `get` needs the field and shows it as `shown` says; any other
/// word, or none, is an error.
pub open spec fn wifi_ran(
    c: WifiSettings,
    field: FieldText,
    verb: Option<Seq<char>>,
    value: Option<Seq<char>>,
) -> Result<(WifiSettings, Seq<char>), Seq<char>> {
    if field is Broken {
        Err(CmdError::OptionValue.text())
    } else if verb == Some("set"@) {
        if field is Absent {
            Err(CmdError::MissingField.text())
        } else if value is None {
            Err(CmdError::MissingValue.text())
        } else {
            match updated(c, field->Given_0, value->0) {
                Ok(next) => Ok(
                    (next, "Updated "@ + field->Given_0 + " to "@ + value->0 + "!\n"@),
                ),
                Err(e) => Err(error_text(e.0, e.1)),
            }
        }
    } else if verb == Some("get"@) {
        if field is Absent {
            Err(CmdError::MissingField.text())
        } else {
            match shown(c, field->Given_0) {
                Ok(text) => Ok((c, "Field "@ + field->Given_0 + " is set to "@ + text + "\n"@)),
                Err(e) => Err(error_text(e.0, e.1)),
            }
        }
    } else {
        Err(CmdError::InvalidVerb.text())
    }
}

/// What a `sys` command asks the caller to report, or the sentence of the
/// error: `mem` the heap, `temp` the motor's temperature.
pub open spec fn sys_asked(what: Option<Seq<char>>) -> Result<Effect, Seq<char>> {
    match what {
        None => Err(CmdError::MissingSysField.text()),
        Some(word) => if word == "mem"@ {
            Ok(Effect::ReportMemory)
        } else if word == "temp"@ {
            Ok(Effect::ReportTemperature)
        } else {
            Err("Invalid field "@ + word + ". Valid fields are mem and temp"@)
        },
    }
}

/// What a scanned line does to the document `c`: the document afterwards,
/// the reply, and what is left for the caller to do.
///
/// The reply starts with the usage texts that the line asked for. Only a
/// successful `wifi set` changes the document. A command that fails adds
/// the line of its error and has nothing persisted; so has a line without a
/// known command, which adds the usage.
pub open spec fn ran(inv: InvocationText, c: Settings) -> (Settings, Seq<char>, Effect) {
    match inv.command {
        CommandText::Wifi { field, verb, value } => match wifi_ran(c.wifi, field, verb, value) {
            Ok(done) => (Settings { wifi: done.0, ..c }, inv.preamble + done.1, Effect::Persist),
            Err(said) => (c, inv.preamble + error_line(said), Effect::Discard),
        },
        CommandText::Restart => (c, inv.preamble, Effect::Restart),
        CommandText::DumpConfig => (
            c,
            inv.preamble + "Current configuration: "@,
            Effect::DumpConfig,
        ),
        CommandText::Sys { what } => match sys_asked(what) {
            Ok(effect) => (c, inv.preamble, effect),
            Err(said) => (c, inv.preamble + error_line(said), Effect::Discard),
        },
        CommandText::Help => (c, inv.preamble + help_block(), Effect::Persist),
        CommandText::Unknown => (
            c,
            inv.preamble + "Invalid subcommand! Usage: "@ + help_block(),
            Effect::Discard,
        ),
    }
}

/// What a line does to the document `c`: a line that breaks the quoting
/// rules is reported as such and changes nothing; any other line does what
/// its words spell.
pub open spec fn handled(line: Seq<char>, c: Settings) -> (Settings, Seq<char>, Effect) {
    match shell_words(line) {
        None => (c, failure_line(CmdError::InvalidString.text()), Effect::Discard),
        Some(words) => ran(scanned(words), c),
    }
}

/// A command changes the document only if its outcome is to persist it,
/// and then only the connectivity section: every failure, every request for
/// a report and every unknown command leaves the document as it was.
pub proof fn only_persisted_commands_change_the_document(inv: InvocationText, c: Settings)
    ensures
        ran(inv, c).2 != Effect::Persist ==> ran(inv, c).0 == c,
        ran(inv, c).0 == (Settings { wifi: ran(inv, c).0.wifi, ..c }),
{
}

/// The same of whole lines: whatever a line holds, the document changes
/// only where the outcome says to persist it, and never outside the
/// connectivity section.
pub proof fn only_persisted_lines_change_the_document(line: Seq<char>, c: Settings)
    ensures
        handled(line, c).2 != Effect::Persist ==> handled(line, c).0 == c,
        handled(line, c).0 == (Settings { wifi: handled(line, c).0.wifi, ..c }),
{
    if shell_words(line) is Some {
        only_persisted_commands_change_the_document(scanned(shell_words(line)->0), c);
    }
}

/// A `wifi` command that fails changes nothing, and one that succeeds
/// changes nothing unless it is a `set`.
pub proof fn wifi_get_changes_nothing(
    c: WifiSettings,
    field: FieldText,
    verb: Option<Seq<char>>,
    value: Option<Seq<char>>,
)
    requires
        wifi_ran(c, field, verb, value) is Ok,
        verb != Some("set"@),
    ensures
        wifi_ran(c, field, verb, value)->Ok_0.0 == c,
{
}

/// A line whose first argument names none of the commands, or that has no
/// argument, is answered with the usage texts that it asked for and then
/// the invalid-subcommand reply; nothing changes and nothing is persisted.
pub proof fn unknown_command_is_turned_down(words: Seq<Seq<char>>, c: Settings)
    requires
        subcommand_named(word_step(&help_flags(opened(words), 0).1).0) is Unknown,
    ensures
        ran(scanned(words), c) == (
            c,
            scanned(words).preamble + "Invalid subcommand! Usage: "@ + help_block(),
            Effect::Discard,
        ),
{
}

/// The interpreter. It keeps nothing between two lines.
pub struct SerialHandler {}

impl SerialHandler {
    /// An interpreter.
    pub fn new() -> Self {
        SerialHandler {  }
    }

    /// Cuts a line into words and sorts them into a command.
    ///
    /// Fails exactly where the line breaks the quoting rules; any other
    /// line gives what its words spell.
    pub fn scan(recv: &str) -> (r: Result<Invocation, CmdError>)
        ensures
            match shell_words(recv@) {
                Some(words) => r is Ok && r->Ok_0@ == scanned(words),
                None => r is Err && r->Err_0 is InvalidString,
            },
    {
        match split_words(recv) {
            Some(words) => Ok(Self::scan_words(&words)),
            None => Err(CmdError::InvalidString),
        }
    }

    /// Sorts the words of a line into a command.
    pub fn scan_words(words: &Vec<String>) -> (inv: Invocation)
        ensures
            inv@ == scanned(words.deep_view()),
    {
        let mut cursor = open_cursor(words);
        let ghost start = cursor;
        let mut preamble = String::new();
        let ghost mut count: nat = 0;
        assert(preamble@ =~= help_blocks(0));
        loop
            invariant_except_break
                help_flags(start, 0) == help_flags(cursor, count),
            invariant
                preamble@ == help_blocks(count),
            ensures
                help_flags(start, 0) == (count, cursor),
                !at_option(&cursor),
            decreases unread(&cursor),
        {
            let flag = next_flag(&mut cursor);
            match flag {
                Flag::Short(_) | Flag::Long(_) => {
                    if is_help_flag(&flag) {
                        preamble.append(HELP);
                        preamble.append("\n");
                        proof {
                            count = count + 1;
                            assert(preamble@ =~= help_blocks(count));
                        }
                    }
                },
                _ => {
                    break ;
                },
            }
        }
        let command = match classify(next_word(&mut cursor)) {
            Subcommand::Wifi => scan_wifi(&mut cursor),
            Subcommand::Restart => Command::Restart,
            Subcommand::DumpConfig => Command::DumpConfig,
            Subcommand::Sys => scan_sys(&mut cursor),
            Subcommand::Help => Command::Help,
            Subcommand::Unknown => Command::Unknown,
        };
        Invocation { preamble, command }
    }

    /// Carries out a `wifi` command on the document and adds the line that
    /// reports it to `output`. On an error nothing changes.
    pub fn handle_wifi(
        field: &FieldArg,
        verb: &Option<String>,
        value: &Option<String>,
        config: &mut Config,
        output: &mut String,
    ) -> (r: Result<(), CmdError>)
        ensures
            match wifi_ran(old(config)@.wifi, field@, owned_text(*verb), owned_text(*value)) {
                Ok(done) => {
                    &&& r is Ok
                    &&& final(config)@ == (Settings { wifi: done.0, ..old(config)@ })
                    &&& final(output)@ == old(output)@ + done.1
                },
                Err(said) => {
                    &&& r is Err
                    &&& r->Err_0.text() == said
                    &&& final(config)@ == old(config)@
                    &&& final(output)@ == old(output)@
                },
            },
    {
        if let FieldArg::Broken = field {
            return Err(CmdError::OptionValue);
        }
        let is_set = match verb {
            Some(word) => same_text(word.as_str(), "set"),
            None => false,
        };
        let is_get = match verb {
            Some(word) => same_text(word.as_str(), "get"),
            None => false,
        };
        if is_set {
            let name = match field {
                FieldArg::Given(name) => name,
                _ => {
                    return Err(CmdError::MissingField);
                },
            };
            let value = match value {
                Some(value) => value,
                None => {
                    return Err(CmdError::MissingValue);
                },
            };
            match config.wifi.update(name.as_str(), value.as_str()) {
                Ok(()) => {},
                Err(e) => {
                    return Err(CmdError::Field(e));
                },
            }
            output.append("Updated ");
            output.append(name.as_str());
            output.append(" to ");
            output.append(value.as_str());
            output.append("!\n");
            assert(output@ =~= old(output)@ + ("Updated "@ + name@ + " to "@ + value@ + "!\n"@));
            Ok(())
        } else if is_get {
            let name = match field {
                FieldArg::Given(name) => name,
                _ => {
                    return Err(CmdError::MissingField);
                },
            };
            let text = match config.wifi.get(name.as_str()) {
                Ok(text) => text,
                Err(e) => {
                    return Err(CmdError::Field(e));
                },
            };
            output.append("Field ");
            output.append(name.as_str());
            output.append(" is set to ");
            output.append(text.as_str());
            output.append("\n");
            assert(output@ =~= old(output)@ + ("Field "@ + name@ + " is set to "@ + text@ + "\n"@));
            Ok(())
        } else {
            Err(CmdError::InvalidVerb)
        }
    }

    /// Tells what a `sys` command asks the caller to report.
    pub fn handle_sys(what: &Option<String>) -> (r: Result<Effect, CmdError>)
        ensures
            match sys_asked(owned_text(*what)) {
                Ok(effect) => r == Ok::<Effect, CmdError>(effect),
                Err(said) => r is Err && r->Err_0.text() == said,
            },
    {
        match what {
            None => Err(CmdError::MissingSysField),
            Some(word) => {
                if same_text(word.as_str(), "mem") {
                    Ok(Effect::ReportMemory)
                } else if same_text(word.as_str(), "temp") {
                    Ok(Effect::ReportTemperature)
                } else {
                    Err(CmdError::InvalidSysField(word.clone()))
                }
            },
        }
    }

    /// Carries out a scanned line on the document.
    pub fn run(inv: &Invocation, config: &mut Config) -> (out: Outcome)
        ensures
            (final(config)@, out.reply@, out.effect) == ran(inv@, old(config)@),
    {
        let mut reply = inv.preamble.clone();
        let effect = match &inv.command {
            Command::Wifi { field, verb, value } => {
                match Self::handle_wifi(field, verb, value, config, &mut reply) {
                    Ok(()) => Effect::Persist,
                    Err(e) => {
                        Self::report(&mut reply, &e);
                        Effect::Discard
                    },
                }
            },
            Command::Restart => Effect::Restart,
            Command::DumpConfig => {
                reply.append("Current configuration: ");
                Effect::DumpConfig
            },
            Command::Sys { what } => {
                match Self::handle_sys(what) {
                    Ok(effect) => effect,
                    Err(e) => {
                        Self::report(&mut reply, &e);
                        Effect::Discard
                    },
                }
            },
            Command::Help => {
                reply.append(HELP);
                reply.append("\n");
                assert(reply@ =~= inv.preamble@ + help_block());
                Effect::Persist
            },
            Command::Unknown => {
                reply.append("Invalid subcommand! Usage: ");
                reply.append(HELP);
                reply.append("\n");
                assert(reply@ =~= inv.preamble@ + "Invalid subcommand! Usage: "@ + help_block());
                Effect::Discard
            },
        };
        Outcome { reply, effect }
    }

    /// Adds the line that reports a command's own failure.
    fn report(reply: &mut String, e: &CmdError)
        ensures
            final(reply)@ == old(reply)@ + error_line(e.text()),
    {
        let said = e.to_string();
        reply.append("Error!: ");
        reply.append(said.as_str());
        reply.append("\n");
        assert(reply@ =~= old(reply)@ + error_line(e.text()));
    }

    /// The outcome of a line that could not be scanned: the line that says
    /// so, and nothing to persist.
    pub fn failed(e: &CmdError) -> (out: Outcome)
        ensures
            out.reply@ == failure_line(e.text()),
            out.effect == Effect::Discard,
    {
        let said = e.to_string();
        let mut reply = joined("Error while handling: ", said.as_str());
        reply.append("\n");
        Outcome { reply, effect: Effect::Discard }
    }

    /// The outcome of a scanned line when the store cannot be read: the
    /// usage texts that the line asked for, then the line that reports what
    /// the store said; nothing to persist.
    pub fn load_failed(inv: &Invocation, said: &str) -> (out: Outcome)
        ensures
            out.reply@ == inv.preamble@ + failure_line(said@),
            out.effect == Effect::Discard,
    {
        let mut reply = inv.preamble.clone();
        reply.append("Error while handling: ");
        reply.append(said);
        reply.append("\n");
        assert(reply@ =~= inv.preamble@ + failure_line(said@));
        Outcome { reply, effect: Effect::Discard }
    }

    /// Reads one line and carries it out on the document.
    ///
    /// A line that breaks the quoting rules is reported as such and changes
    /// nothing. Any other line does to the document what its words spell,
    /// and the reply and what is left to do are those of the command.
    pub fn handle_cmd(recv: &str, config: &mut Config) -> (out: Outcome)
        ensures
            (final(config)@, out.reply@, out.effect) == handled(recv@, old(config)@),
    {
        match Self::scan(recv) {
            Ok(inv) => Self::run(&inv, config),
            Err(e) => Self::failed(&e),
        }
    }
}

} // verus!
