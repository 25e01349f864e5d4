//! Which command a chat message holds, and what is sent back for it.

use crate::country::Country;
use crate::extract::{extraction, get_vacced_count, ExtractionError};
use crate::message::{format_report, report};
use crate::stats::{DayView, VaccDayData};
use vstd::prelude::*;
use vstd::string::*;

verus! {

/// What a chat message asks for.
#[derive(Clone, Copy, Debug, PartialEq, Eq, Structural)]
pub enum Command {
    /// Report the vaccination figures of the two countries.
    Stats,
    /// Say which version is running.
    Version,
    /// Nothing: the message is not for the bot.
    Ignore,
}

/// A capital letter from A to Z as its small letter; any other character as
/// it is.
pub open spec fn lower(c: char) -> char {
    if 'A' <= c && c <= 'Z' {
        ((c as int) + 32) as char
    } else {
        c
    }
}

/// Whether `content` opens with `prefix`, capitals counting as small letters.
pub open spec fn opens_with(content: Seq<char>, prefix: Seq<char>) -> bool {
    content.len() >= prefix.len() && forall|i: int|
        0 <= i < prefix.len() ==> lower(#[trigger] content[i]) == prefix[i]
}

/// The command that a message holds: a message that opens with `!vacced` asks
/// for the figures, one that opens with `!version` for the version, in
/// capitals or small letters; any other asks for nothing.
pub open spec fn command_in(content: Seq<char>) -> Command {
    if opens_with(content, "!vacced"@) {
        Command::Stats
    } else if opens_with(content, "!version"@) {
        Command::Version
    } else {
        Command::Ignore
    }
}

/// No message opens with both commands, so that it holds one of them at
/// most.
pub proof fn lemma_commands_exclude_each_other(content: Seq<char>)
    ensures
        !(opens_with(content, "!vacced"@) && opens_with(content, "!version"@)),
{
    reveal_strlit("!vacced");
    reveal_strlit("!version");
    if opens_with(content, "!vacced"@) && opens_with(content, "!version"@) {
        assert(lower(content[2]) == "!vacced"@[2]);
        assert(lower(content[2]) == "!version"@[2]);
    }
}

/// Two messages that differ only in the case of their letters hold the same
/// command.
pub proof fn lemma_case_is_ignored(content: Seq<char>, other: Seq<char>)
    requires
        content.len() == other.len(),
        forall|i: int| 0 <= i < content.len() ==> lower(content[i]) == lower(other[i]),
    ensures
        command_in(content) == command_in(other),
{
    assert forall|prefix: Seq<char>| opens_with(content, prefix) == opens_with(other, prefix) by {
        if content.len() >= prefix.len() {
            if opens_with(content, prefix) {
                assert forall|i: int| 0 <= i < prefix.len() implies lower(#[trigger] other[i])
                    == prefix[i] by {
                    assert(lower(content[i]) == prefix[i]);
                }
            }
            if opens_with(other, prefix) {
                assert forall|i: int| 0 <= i < prefix.len() implies lower(#[trigger] content[i])
                    == prefix[i] by {
                    assert(lower(other[i]) == prefix[i]);
                }
            }
        }
    }
}

/// A capital letter from A to Z as its small letter; any other character as
/// it is.
fn to_lower(c: char) -> (small: char)
    ensures
        small == lower(c),
{
    if 'A' <= c && c <= 'Z' {
        ((c as u8) + 32) as char
    } else {
        c
    }
}

/// Tells whether `content` opens with `prefix`, capitals counting as small
/// letters.
fn has_prefix(content: &str, prefix: &str) -> (found: bool)
    ensures
        found == opens_with(content@, prefix@),
{
    let length = prefix.unicode_len();
    if content.unicode_len() < length {
        return false;
    }
    let mut at: usize = 0;
    while at < length
        invariant
            length == prefix@.len(),
            length <= content@.len(),
            at <= length,
            forall|i: int| 0 <= i < at ==> lower(#[trigger] content@[i]) == prefix@[i],
        decreases length - at,
    {
        if to_lower(content.get_char(at)) != prefix.get_char(at) {
            assert(lower(content@[at as int]) != prefix@[at as int]);
            return false;
        }
        at += 1;
    }
    true
}

impl Command {
    /// Finds the command that a message holds.
    pub fn recognize(content: &str) -> (command: Command)
        ensures
            command == command_in(content@),
    {
        if has_prefix(content, "!vacced") {
            Command::Stats
        } else if has_prefix(content, "!version") {
            Command::Version
        } else {
            Command::Ignore
        }
    }
}

/// What came of the request for a country's figures.
#[derive(Clone, Debug, PartialEq, Eq)]
pub enum Response {
    /// The body that the country's service sent.
    Body(String),
    /// The request failed on the network.
    NetworkError,
}

/// A `Response` with its body as a sequence of characters.
pub enum ResponseView {
    Body(Seq<char>),
    NetworkError,
}

impl View for Response {
    type V = ResponseView;

    open spec fn view(&self) -> ResponseView {
        match self {
            Response::Body(body) => ResponseView::Body(body@),
            Response::NetworkError => ResponseView::NetworkError,
        }
    }
}

/// Why there is no report, and which country's figures are wanting.
#[derive(Clone, Copy, Debug, PartialEq, Eq, Structural)]
pub enum StatsError {
    /// The request for the country's figures failed.
    Network(Country),
    /// The country's response could not be read.
    Extraction(Country, ExtractionError),
}

/// The figures that a response yields.
pub open spec fn outcome(country: Country, response: ResponseView) -> Result<DayView, StatsError> {
    match response {
        ResponseView::NetworkError => Err(StatsError::Network(country)),
        ResponseView::Body(body) => match extraction(country, body) {
            Ok(day) => Ok(day),
            Err(error) => Err(StatsError::Extraction(country, error)),
        },
    }
}

/// The report that the two responses yield: the report on both days' figures
/// where both responses yield figures, else the complaint about the United
/// Kingdom's response, if there is one, else the one about Canada's.
pub open spec fn stats_outcome(uk: ResponseView, can: ResponseView) -> Result<
    Seq<char>,
    StatsError,
> {
    match outcome(Country::UK, uk) {
        Err(error) => Err(error),
        Ok(uk_day) => match outcome(Country::CAN, can) {
            Err(error) => Err(error),
            Ok(can_day) => Ok(report(uk_day, can_day)),
        },
    }
}

/// There is a report only where both requests were answered: one that failed
/// leaves none, whatever the other brought.
pub proof fn lemma_no_partial_report(uk: ResponseView, can: ResponseView)
    requires
        uk is NetworkError || can is NetworkError,
    ensures
        stats_outcome(uk, can) is Err,
{
}

/// A report holds the figures of both countries, each as its own response
/// yields them.
pub proof fn lemma_report_needs_both(uk: ResponseView, can: ResponseView)
    ensures
        stats_outcome(uk, can) is Ok <==> outcome(Country::UK, uk) is Ok && outcome(
            Country::CAN,
            can,
        ) is Ok,
        stats_outcome(uk, can) matches Ok(text) ==> text == report(
            outcome(Country::UK, uk)->Ok_0,
            outcome(Country::CAN, can)->Ok_0,
        ),
{
}

/// Reads a day's figures out of what came of a country's request.
pub fn read_response(country: Country, response: &Response) -> (day: Result<
    VaccDayData,
    StatsError,
>)
    ensures
        match day {
            Ok(figures) => outcome(country, response@) == Ok::<DayView, StatsError>(figures@),
            Err(error) => outcome(country, response@) == Err::<DayView, StatsError>(error),
        },
{
    match response {
        Response::NetworkError => Err(StatsError::Network(country)),
        Response::Body(body) => match get_vacced_count(country, body.as_str()) {
            Ok(figures) => Ok(figures),
            Err(error) => Err(StatsError::Extraction(country, error)),
        },
    }
}

/// Writes the report that the two responses yield, or says why there is
/// none.
pub fn stats_report(uk: &Response, can: &Response) -> (text: Result<String, StatsError>)
    ensures
        match text {
            Ok(written) => stats_outcome(uk@, can@) == Ok::<Seq<char>, StatsError>(written@),
            Err(error) => stats_outcome(uk@, can@) == Err::<Seq<char>, StatsError>(error),
        },
{
    let uk_day = match read_response(Country::UK, uk) {
        Ok(figures) => figures,
        Err(error) => return Err(error),
    };
    let can_day = match read_response(Country::CAN, can) {
        Ok(figures) => figures,
        Err(error) => return Err(error),
    };
    Ok(format_report(&uk_day, &can_day))
}

/// The text that a placeholder is to be overwritten with: the report, where
/// the placeholder was sent and there is a report; else there is nothing to
/// overwrite, or nothing to overwrite it with.
pub fn placeholder_edit(placeholder_sent: bool, text: Result<String, StatsError>) -> (edit: Option<
    String,
>)
    ensures
        edit is Some <==> placeholder_sent && text is Ok,
        edit matches Some(written) ==> written == text->Ok_0,
{
    match text {
        Ok(written) => if placeholder_sent {
            Some(written)
        } else {
            None
        },
        Err(_) => None,
    }
}

/// The text that is sent at once in answer to a request for the figures, and
/// overwritten when they are there.
pub open spec fn spec_placeholder() -> Seq<char> {
    "Loading vaccination stats..."@
}

/// The text that is sent at once in answer to a request for the figures.
pub fn placeholder() -> (text: &'static str)
    ensures
        text@ == spec_placeholder(),
{
    "Loading vaccination stats..."
}

/// The answer to a request for the version: the bot's name, a space, and the
/// version.
pub open spec fn spec_version_reply(version: Seq<char>) -> Seq<char> {
    "Vaxbot "@ + version
}

/// Writes the answer to a request for the version.
pub fn version_reply(version: &str) -> (reply: String)
    ensures
        reply@ == spec_version_reply(version@),
{
    let mut reply = "Vaxbot ".to_owned();
    reply.append(version);
    reply
}

} // verus!
