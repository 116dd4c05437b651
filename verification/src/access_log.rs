//! The access log: one line for every request that was answered.
//!
//! A line reads
//! `[time] "METHOD path HTTP/x.y" - "status"`, followed by ` - "agent"` where
//! the request named a user agent, and ends in a line feed.

use vstd::prelude::*;

use crate::status::reason_phrase;
use crate::status::status_text;
use crate::status::Status;
use crate::text::is_one_line;
use crate::text::is_single_line;

verus! {

/// The version of HTTP that a request was made in.
#[derive(Clone, Copy, Debug, PartialEq, Eq, Structural)]
pub enum Version {
    Http09,
    Http10,
    Http11,
    H2,
    H3,
}

impl Version {
    /// The version as a log shows it.
    pub open spec fn text(self) -> Seq<char> {
        match self {
            Version::Http09 => "HTTP/0.9"@,
            Version::Http10 => "HTTP/1.0"@,
            Version::Http11 => "HTTP/1.1"@,
            Version::H2 => "HTTP/2.0"@,
            Version::H3 => "HTTP/3.0"@,
        }
    }

    /// The version as a log shows it, such as `HTTP/1.1`.
    pub fn as_str(&self) -> (s: &'static str)
        ensures
            s@ == self.text(),
    {
        match self {
            Version::Http09 => "HTTP/0.9",
            Version::Http10 => "HTTP/1.0",
            Version::Http11 => "HTTP/1.1",
            Version::H2 => "HTTP/2.0",
            Version::H3 => "HTTP/3.0",
        }
    }
}

/// What the log records of one request and its response.
#[derive(Clone, Debug, PartialEq, Eq)]
pub struct Info {
    /// The request's method, such as `GET`.
    pub method: String,
    /// The path that was asked for.
    pub path: String,
    /// The protocol version of the request.
    pub version: Version,
    /// The status of the response.
    pub status: Status,
    /// The user agent, where the request named one.
    pub user_agent: Option<String>,
}

/// An `Info` as plain values.
pub struct InfoView {
    pub method: Seq<char>,
    pub path: Seq<char>,
    pub version: Version,
    pub status: u16,
    pub user_agent: Option<Seq<char>>,
}

impl View for Info {
    type V = InfoView;

    open spec fn view(&self) -> InfoView {
        InfoView {
            method: self.method@,
            path: self.path@,
            version: self.version,
            status: self.status@,
            user_agent: match self.user_agent {
                Some(agent) => Some(agent@),
                None => None,
            },
        }
    }
}

impl InfoView {
    /// Whether none of the texts holds a line feed.
    pub open spec fn is_single_line(self) -> bool {
        &&& is_single_line(self.method)
        &&& is_single_line(self.path)
        &&& (self.user_agent matches Some(agent) ==> is_single_line(agent))
    }
}

/// The end of a line that names the user agent `agent`, or nothing.
pub open spec fn agent_part(agent: Option<Seq<char>>) -> Seq<char> {
    match agent {
        Some(a) => " - \""@ + a + "\""@,
        None => Seq::empty(),
    }
}

/// A log line without its line feed, put together from its parts; `status` is
/// the status as text.
pub open spec fn entry_body(
    time: Seq<char>,
    method: Seq<char>,
    path: Seq<char>,
    version: Version,
    status: Seq<char>,
    agent: Option<Seq<char>>,
) -> Seq<char> {
    "["@ + time + "] \""@ + method + " "@ + path + " "@ + version.text() + "\" - \""@ + status
        + "\""@ + agent_part(agent)
}

/// A log line, put together from its parts; `status` is the status as text.
pub open spec fn entry(
    time: Seq<char>,
    method: Seq<char>,
    path: Seq<char>,
    version: Version,
    status: Seq<char>,
    agent: Option<Seq<char>>,
) -> Seq<char> {
    entry_body(time, method, path, version, status, agent) + "\n"@
}

/// The log line for `info`, written at `time`.
pub open spec fn entry_of(time: Seq<char>, info: InfoView) -> Seq<char> {
    entry(
        time,
        info.method,
        info.path,
        info.version,
        status_text(info.status, reason_phrase(info.status)),
        info.user_agent,
    )
}

/// Puts a log line together from its parts; `status` is the status as text.
pub fn format_entry(
    time: &str,
    method: &str,
    path: &str,
    version: Version,
    status: &str,
    agent: Option<&str>,
) -> (line: String)
    ensures
        line@ == entry(time@, method@, path@, version, status@, crate::status::opt_chars(agent)),
{
    let mut line = String::new();
    line.append("[");
    line.append(time);
    line.append("] \"");
    line.append(method);
    line.append(" ");
    line.append(path);
    line.append(" ");
    line.append(version.as_str());
    line.append("\" - \"");
    line.append(status);
    line.append("\"");
    let ghost head = line@;
    match agent {
        Some(a) => {
            line.append(" - \"");
            line.append(a);
            line.append("\"");
        },
        None => {},
    }
    assert(line@ =~= head + agent_part(crate::status::opt_chars(agent)));
    line.append("\n");
    assert(line@ =~= entry(
        time@,
        method@,
        path@,
        version,
        status@,
        crate::status::opt_chars(agent),
    ));
    line
}

/// The log line for `info`, with `time` as the time of writing.
pub fn log_line(time: &str, info: &Info) -> (line: String)
    ensures
        line@ == entry_of(time@, info@),
        is_one_line(line@) <==> is_single_line(time@) && info@.is_single_line(),
{
    let status = info.status.text();
    let line = match &info.user_agent {
        Some(agent) => format_entry(
            time,
            info.method.as_str(),
            info.path.as_str(),
            info.version,
            status.as_str(),
            Some(agent.as_str()),
        ),
        None => format_entry(
            time,
            info.method.as_str(),
            info.path.as_str(),
            info.version,
            status.as_str(),
            None,
        ),
    };
    proof {
        lemma_entry_is_one_line(
            time@,
            info@.method,
            info@.path,
            info@.version,
            status@,
            info@.user_agent,
        );
    }
    line
}

/// Reads the clock with `chrono::Local::now` and writes the moment down with
/// `DateTime::to_rfc3339`: the local date and time with the offset from UTC.
/// Which moment comes back depends on the clock and the time zone, so the
/// contract says only that the text holds no line feed.
#[verifier::external_body]
fn local_time_rfc3339() -> (time: String)
    ensures
        is_single_line(time@),
{
    chrono::Local::now().to_rfc3339()
}

/// The log line for `info`, stamped with the local time of this call.
pub fn log_line_now(info: &Info) -> (line: String)
    ensures
        exists|time: Seq<char>| is_single_line(time) && line@ == #[trigger] entry_of(time, info@),
        is_one_line(line@) <==> info@.is_single_line(),
{
    let time = local_time_rfc3339();
    log_line(time.as_str(), info)
}

/// Whether none of the parts of a log line holds a line feed.
pub open spec fn parts_are_single_line(
    time: Seq<char>,
    method: Seq<char>,
    path: Seq<char>,
    status: Seq<char>,
    agent: Option<Seq<char>>,
) -> bool {
    &&& is_single_line(time)
    &&& is_single_line(method)
    &&& is_single_line(path)
    &&& is_single_line(status)
    &&& (agent matches Some(a) ==> is_single_line(a))
}

/// `part` stands in `whole`, with `before` in front of it and `after` behind.
proof fn lemma_part_of_single_line(
    whole: Seq<char>,
    before: Seq<char>,
    part: Seq<char>,
    after: Seq<char>,
)
    requires
        whole == before + part + after,
        is_single_line(whole),
    ensures
        is_single_line(part),
{
    assert forall|i: int| 0 <= i < part.len() implies part[i] != '\n' by {
        assert(whole[before.len() + i] == part[i]);
    }
}

/// A log line is exactly one line, which ends in a line feed and holds no
/// other, where none of its parts holds a line feed, and only there.
pub proof fn lemma_entry_is_one_line(
    time: Seq<char>,
    method: Seq<char>,
    path: Seq<char>,
    version: Version,
    status: Seq<char>,
    agent: Option<Seq<char>>,
)
    ensures
        is_one_line(entry(time, method, path, version, status, agent))
            <==> parts_are_single_line(time, method, path, status, agent),
        entry(time, method, path, version, status, agent).drop_last() == entry_body(
            time,
            method,
            path,
            version,
            status,
            agent,
        ),
{
    reveal_strlit("[");
    reveal_strlit("] \"");
    reveal_strlit(" ");
    reveal_strlit("\" - \"");
    reveal_strlit("\"");
    reveal_strlit(" - \"");
    reveal_strlit("\n");
    reveal_strlit("HTTP/0.9");
    reveal_strlit("HTTP/1.0");
    reveal_strlit("HTTP/1.1");
    reveal_strlit("HTTP/2.0");
    reveal_strlit("HTTP/3.0");
    let body = entry_body(time, method, path, version, status, agent);
    let line = entry(time, method, path, version, status, agent);
    assert(line.drop_last() =~= body);
    assert(line.last() == '\n');
    assert(is_single_line(version.text()));
    if parts_are_single_line(time, method, path, status, agent) {
        assert(is_single_line(agent_part(agent)));
        assert(is_single_line(body));
    }
    if is_single_line(body) {
        let tail = agent_part(agent);
        let a = "["@;
        let b = "] \""@ + method + " "@ + path + " "@ + version.text() + "\" - \""@ + status
            + "\""@ + tail;
        assert(body =~= a + time + b);
        lemma_part_of_single_line(body, a, time, b);
        let a = "["@ + time + "] \""@;
        let b = " "@ + path + " "@ + version.text() + "\" - \""@ + status + "\""@ + tail;
        assert(body =~= a + method + b);
        lemma_part_of_single_line(body, a, method, b);
        let a = "["@ + time + "] \""@ + method + " "@;
        let b = " "@ + version.text() + "\" - \""@ + status + "\""@ + tail;
        assert(body =~= a + path + b);
        lemma_part_of_single_line(body, a, path, b);
        let a = "["@ + time + "] \""@ + method + " "@ + path + " "@ + version.text()
            + "\" - \""@;
        let b = "\""@ + tail;
        assert(body =~= a + status + b);
        lemma_part_of_single_line(body, a, status, b);
        match agent {
            Some(text) => {
                let a = "["@ + time + "] \""@ + method + " "@ + path + " "@ + version.text()
                    + "\" - \""@ + status + "\""@ + " - \""@;
                let b = "\""@;
                assert(body =~= a + text + b);
                lemma_part_of_single_line(body, a, text, b);
            },
            None => {},
        }
    }
}

} // verus!
