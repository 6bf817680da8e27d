//! What is logged, and how log messages are put together.

use crate::text::same_text;
use vstd::prelude::*;
use vstd::string::*;

verus! {

/// A log message as it is handed to a callback.
#[derive(Debug, Clone)]
pub struct LogMessage {
    /// "TRACE", "DEBUG", "INFO", "WARN" or "ERROR".
    pub level: String,
    /// The component that logged.
    pub target: String,
    pub message: String,
    /// A date and time in the format of ISO 8601.
    pub timestamp: String,
}

/// The date and time that lies `secs` seconds and `nanos` nanoseconds after the beginning of
/// 1970, in the format of RFC 3339 and in coordinated universal time; nothing where it is out of
/// range. What `DateTime::from_timestamp` and then `DateTime::to_rfc3339` of the `chrono` crate
/// give.
pub uninterp spec fn rfc3339_text(secs: i64, nanos: u32) -> Option<Seq<char>>;

/// Calls `DateTime::from_timestamp` of the `chrono` crate to name a point in time, and
/// `DateTime::to_rfc3339` to write it down. The text depends on nothing but the two numbers, and
/// there is one for every point in time from 1970 up to the end of the year 9999.
#[verifier::external_body]
fn rfc3339(secs: i64, nanos: u32) -> (res: Option<String>)
    ensures
        res.deep_view() == rfc3339_text(secs, nanos),
        0 <= secs < 253_402_300_800 && nanos < 1_000_000_000 ==> res is Some,
{
    chrono::DateTime::from_timestamp(secs, nanos).map(|time| time.to_rfc3339())
}

impl LogMessage {
    /// A log message with the given date and time.
    pub fn new(level: String, target: String, message: String, timestamp: String) -> (res:
        LogMessage)
        ensures
            res == (LogMessage { level, target, message, timestamp }),
    {
        LogMessage { level, target, message, timestamp }
    }

    /// A log message of the time `secs` seconds and `nanos` nanoseconds after the beginning of
    /// 1970; nothing where that time cannot be written down.
    pub fn at(level: String, target: String, message: String, secs: i64, nanos: u32) -> (res:
        Option<LogMessage>)
        ensures
            match res {
                Some(log) => {
                    &&& log.level == level
                    &&& log.target == target
                    &&& log.message == message
                    &&& rfc3339_text(secs, nanos) == Some(log.timestamp@)
                },
                None => rfc3339_text(secs, nanos) is None,
            },
            0 <= secs < 253_402_300_800 && nanos < 1_000_000_000 ==> res is Some,
    {
        match rfc3339(secs, nanos) {
            Some(timestamp) => Some(LogMessage::new(level, target, message, timestamp)),
            None => None,
        }
    }
}

/// The text of an event after one more field: the message itself stands alone, and every other
/// field as its name, an equals sign and its value, apart from what stands before it.
pub open spec fn recorded(text: Seq<char>, field: Seq<char>, value: Seq<char>) -> Seq<char> {
    if field == "message"@ {
        text + value
    } else if text.len() == 0 {
        field + "="@ + value
    } else {
        text + " "@ + field + "="@ + value
    }
}

/// The text of an event after a list of fields, the first one first.
pub open spec fn recorded_all(text: Seq<char>, fields: Seq<(Seq<char>, Seq<char>)>) -> Seq<char>
    decreases fields.len(),
{
    if fields.len() == 0 {
        text
    } else {
        recorded(recorded_all(text, fields.drop_last()), fields.last().0, fields.last().1)
    }
}

/// Puts the text of an event together, field by field.
#[derive(Debug)]
pub struct MessageVisitor {
    pub text: String,
}

impl MessageVisitor {
    /// An event without fields so far.
    pub fn new() -> (res: MessageVisitor)
        ensures
            res.text@ == Seq::<char>::empty(),
    {
        MessageVisitor { text: String::new() }
    }

    /// Adds a field and its value.
    fn record(&mut self, field: &str, value: &str)
        ensures
            final(self).text@ == recorded(old(self).text@, field@, value@),
    {
        if same_text(field, "message") {
            self.text.append(value);
        } else {
            if !self.text.as_str().is_empty() {
                self.text.append(" ");
            }
            self.text.append(field);
            self.text.append("=");
            self.text.append(value);
            assert(self.text@ =~= recorded(old(self).text@, field@, value@));
        }
    }

    /// Adds a field whose value is a text.
    pub fn record_str(&mut self, field: &str, value: &str)
        ensures
            final(self).text@ == recorded(old(self).text@, field@, value@),
    {
        self.record(field, value);
    }

    /// Adds a field whose value is shown the way it is shown to programmers.
    pub fn record_debug(&mut self, field: &str, shown: &str)
        ensures
            final(self).text@ == recorded(old(self).text@, field@, shown@),
    {
        self.record(field, shown);
    }
}

/// Every field as a space, its name, an equals sign and its value.
pub open spec fn spelled_out(fields: Seq<(Seq<char>, Seq<char>)>) -> Seq<char>
    decreases fields.len(),
{
    if fields.len() == 0 {
        Seq::empty()
    } else {
        spelled_out(fields.drop_last()) + " "@ + fields.last().0 + "="@ + fields.last().1
    }
}

/// An event reads as its message, followed by each of its other fields behind a space.
pub proof fn message_comes_before_fields(
    message: Seq<char>,
    fields: Seq<(Seq<char>, Seq<char>)>,
)
    requires
        message.len() > 0,
        forall|i: int| 0 <= i < fields.len() ==> (#[trigger] fields[i]).0 != "message"@,
    ensures
        recorded_all(recorded(Seq::empty(), "message"@, message), fields) == message + spelled_out(
            fields,
        ),
    decreases fields.len(),
{
    assert(recorded(Seq::empty(), "message"@, message) =~= message);
    if fields.len() > 0 {
        let init = fields.drop_last();
        assert forall|i: int| 0 <= i < init.len() implies (#[trigger] init[i]).0 != "message"@ by {
            assert(init[i] == fields[i]);
        }
        message_comes_before_fields(message, init);
        assert(fields[fields.len() - 1].0 != "message"@);
    }
    assert(recorded_all(message, fields) =~= message + spelled_out(fields));
}

/// How much is logged where no directive says otherwise.
#[derive(Debug, Clone, Copy, PartialEq, Eq, Structural)]
pub enum DefaultLevel {
    Trace,
    Info,
}

/// The program logs everything in a debug build, and what is of interest in any other.
pub fn program_level(debug_build: bool) -> (res: DefaultLevel)
    ensures
        res == if debug_build {
            DefaultLevel::Trace
        } else {
            DefaultLevel::Info
        },
{
    if debug_build {
        DefaultLevel::Trace
    } else {
        DefaultLevel::Info
    }
}

/// The program's filter directives: those of the environment, or else its own.
pub open spec fn program_directives_of(environment: Option<Seq<char>>, debug_build: bool) -> Seq<
    char,
> {
    match environment {
        Some(directives) => directives,
        None => if debug_build {
            "nowplaying=trace"@
        } else {
            "nowplaying=info"@
        },
    }
}

/// The program's filter directives: those of the environment, or else its own.
pub fn program_directives(environment: Option<String>, debug_build: bool) -> (res: String)
    ensures
        res@ == program_directives_of(environment.deep_view(), debug_build),
{
    match environment {
        Some(directives) => directives,
        None => if debug_build {
            "nowplaying=trace".to_string()
        } else {
            "nowplaying=info".to_string()
        },
    }
}

/// A client logs what is of interest where no directive says otherwise.
pub fn client_level() -> (res: DefaultLevel)
    ensures
        res == DefaultLevel::Info,
{
    DefaultLevel::Info
}

/// A client's filter directives: those of the caller, or else those of the environment, or else
/// its own.
pub open spec fn client_directives_of(
    asked: Option<Seq<char>>,
    environment: Option<Seq<char>>,
) -> Seq<char> {
    match (asked, environment) {
        (Some(directives), _) => directives,
        (None, Some(directives)) => directives,
        (None, None) => "n_nowplaying=info,nowplaying=info"@,
    }
}

/// A client's filter directives: those of the caller, or else those of the environment, or else
/// its own.
pub fn client_directives(asked: Option<String>, environment: Option<String>) -> (res: String)
    ensures
        res@ == client_directives_of(asked.deep_view(), environment.deep_view()),
{
    match asked {
        Some(directives) => directives,
        None => match environment {
            Some(directives) => directives,
            None => "n_nowplaying=info,nowplaying=info".to_string(),
        },
    }
}

/// A field is added behind all that stands before it: the message as it is, and any other field
/// as its name, an equals sign and its value, with one space before it unless it comes first.
pub proof fn field_is_added_behind(text: Seq<char>, field: Seq<char>, value: Seq<char>)
    ensures
        recorded(text, "message"@, value) == text + value,
        field != "message"@ && text.len() > 0 ==> recorded(text, field, value) == text + seq![' ']
            + field + seq!['='] + value,
        field != "message"@ && text.len() == 0 ==> recorded(text, field, value) == field + seq![
            '=',
        ] + value,
{
    reveal_strlit(" ");
    reveal_strlit("=");
    assert(" "@ =~= seq![' ']);
    assert("="@ =~= seq!['=']);
}

/// Directives of the environment always win over the program's own; those of a caller win over
/// both. The program's own tell more in a debug build.
pub proof fn directives_have_an_order(
    asked: Option<Seq<char>>,
    environment: Option<Seq<char>>,
    debug_build: bool,
)
    ensures
        environment matches Some(given) ==> program_directives_of(environment, debug_build)
            == given,
        program_directives_of(None, true) == "nowplaying=trace"@,
        program_directives_of(None, false) == "nowplaying=info"@,
        asked matches Some(given) ==> client_directives_of(asked, environment) == given,
        asked is None ==> (environment matches Some(given) ==> client_directives_of(
            asked,
            environment,
        ) == given),
        client_directives_of(None, None) == "n_nowplaying=info,nowplaying=info"@,
{
}

} // verus!
