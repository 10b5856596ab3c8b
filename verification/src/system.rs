//! Addresses, process ids, program paths and connection retries.

use vstd::prelude::*;

verus! {

/// A digit's character.
pub open spec fn digit(value: nat) -> char {
    (48 + value) as char
}

/// A number in decimal notation.
pub open spec fn decimal(value: nat) -> Seq<char>
    decreases value,
{
    if value < 10 {
        seq![digit(value)]
    } else {
        decimal(value / 10).push(digit(value % 10))
    }
}

/// The characters that Unicode counts as white space.
pub open spec fn white_space(c: char) -> bool {
    let point = c as u32;
    ||| 0x9 <= point <= 0xd
    ||| point == 0x20
    ||| point == 0x85
    ||| point == 0xa0
    ||| point == 0x1680
    ||| 0x2000 <= point <= 0x200a
    ||| point == 0x2028
    ||| point == 0x2029
    ||| point == 0x202f
    ||| point == 0x205f
    ||| point == 0x3000
}

/// A text without the white space that it starts with.
pub open spec fn trimmed_start(text: Seq<char>) -> Seq<char>
    decreases text.len(),
{
    if text.len() > 0 && white_space(text[0]) {
        trimmed_start(text.drop_first())
    } else {
        text
    }
}

/// A text without the white space that it ends with.
pub open spec fn trimmed_end(text: Seq<char>) -> Seq<char>
    decreases text.len(),
{
    if text.len() > 0 && white_space(text.last()) {
        trimmed_end(text.drop_last())
    } else {
        text
    }
}

/// A text without the white space at both ends.
pub open spec fn trimmed(text: Seq<char>) -> Seq<char> {
    trimmed_end(trimmed_start(text))
}

/// Where the first line of a text ends: at its first newline, or at its end.
pub open spec fn line_end(text: Seq<char>) -> nat
    decreases text.len(),
{
    if text.len() == 0 || text[0] == '\n' {
        0
    } else {
        1 + line_end(text.drop_first())
    }
}

/// The lines of a text, each without white space at its ends. A newline ends a line; what stands
/// behind the last newline is a line unless it is empty.
pub open spec fn trimmed_lines(text: Seq<char>) -> Seq<Seq<char>>
    decreases text.len(),
{
    if text.len() == 0 {
        Seq::empty()
    } else {
        let end = line_end(text) as int;
        let rest = if 0 <= end < text.len() {
            trimmed_lines(text.skip(end + 1))
        } else {
            Seq::empty()
        };
        seq![trimmed(text.take(end))] + rest
    }
}

/// The text that `String::from_utf8_lossy` makes of bytes.
pub uninterp spec fn lossy_text(bytes: Seq<u8>) -> Seq<char>;

/// `String::from_utf8_lossy`: what it makes of bytes depends on the bytes alone, and bytes that
/// are UTF-8 give the text that they encode.
#[verifier::external_body]
fn from_utf8_lossy(bytes: &[u8]) -> (text: String)
    ensures
        text@ == lossy_text(bytes@),
        vstd::utf8::valid_utf8(bytes@) ==> text@ == vstd::utf8::decode_utf8(bytes@),
{
    String::from_utf8_lossy(bytes).into_owned()
}

/// The digit `value` as a text.
fn digit_text(value: u16) -> (text: &'static str)
    requires
        value < 10,
    ensures
        text@ == seq![digit(value as nat)],
{
    proof {
        reveal_strlit("0");
        reveal_strlit("1");
        reveal_strlit("2");
        reveal_strlit("3");
        reveal_strlit("4");
        reveal_strlit("5");
        reveal_strlit("6");
        reveal_strlit("7");
        reveal_strlit("8");
        reveal_strlit("9");
    }
    if value == 0 {
        "0"
    } else if value == 1 {
        "1"
    } else if value == 2 {
        "2"
    } else if value == 3 {
        "3"
    } else if value == 4 {
        "4"
    } else if value == 5 {
        "5"
    } else if value == 6 {
        "6"
    } else if value == 7 {
        "7"
    } else if value == 8 {
        "8"
    } else {
        "9"
    }
}

/// Writes a port number in decimal notation.
pub fn port_text(port: u16) -> (text: String)
    ensures
        text@ == decimal(port as nat),
    decreases port,
{
    if port < 10 {
        digit_text(port).to_owned()
    } else {
        let mut text = port_text(port / 10);
        text.append(digit_text(port % 10));
        text
    }
}

/// The address at which the window host reaches the document.
pub open spec fn sync_address(port: nat) -> Seq<char> {
    "ws://127.0.0.1:"@ + decimal(port) + "/sync"@
}

/// The filter that lists the processes on a port.
pub open spec fn port_pattern(port: nat) -> Seq<char> {
    ":"@ + decimal(port)
}

/// Writes the address at which the window host reaches the document.
pub fn sync_url(port: u16) -> (url: String)
    ensures
        url@ == "ws://127.0.0.1:"@ + decimal(port as nat) + "/sync"@,
        url@ == sync_address(port as nat),
{
    let mut url = "ws://127.0.0.1:".to_owned();
    url.append(port_text(port).as_str());
    url.append("/sync");
    url
}

/// Writes the filter that lists the processes on a port.
pub fn port_filter(port: u16) -> (filter: String)
    ensures
        filter@ == ":"@ + decimal(port as nat),
        filter@ == port_pattern(port as nat),
{
    let mut filter = ":".to_owned();
    filter.append(port_text(port).as_str());
    filter
}

/// Whether Unicode counts a character as white space.
fn is_white_space(c: char) -> (white: bool)
    ensures
        white == white_space(c),
{
    let point: u32 = c as u32;
    (0x9 <= point && point <= 0xd) || point == 0x20 || point == 0x85 || point == 0xa0 || point
        == 0x1680 || (0x2000 <= point && point <= 0x200a) || point == 0x2028 || point == 0x2029
        || point == 0x202f || point == 0x205f || point == 0x3000
}

/// Takes the white space off both ends of a text.
pub fn trim_text(text: &str) -> (inner: String)
    ensures
        inner@ == trimmed(text@),
{
    let len: usize = text.unicode_len();
    let mut start: usize = 0;
    assert(text@.skip(0) =~= text@);
    while start < len && is_white_space(text.get_char(start))
        invariant
            len == text@.len(),
            start <= len,
            trimmed_start(text@) == trimmed_start(text@.skip(start as int)),
        decreases len - start,
    {
        assert(text@.skip(start as int).drop_first() =~= text@.skip(start + 1));
        start = start + 1;
    }
    let ghost rest = text@.skip(start as int);
    assert(trimmed_start(text@) == rest);
    let mut end: usize = len;
    assert(text@.subrange(start as int, end as int) =~= rest);
    while end > start && is_white_space(text.get_char(end - 1))
        invariant
            len == text@.len(),
            start <= end <= len,
            trimmed_end(rest) == trimmed_end(text@.subrange(start as int, end as int)),
        decreases end,
    {
        assert(text@.subrange(start as int, end as int).drop_last() =~= text@.subrange(
            start as int,
            end - 1,
        ));
        end = end - 1;
    }
    text.substring_char(start, end).to_owned()
}

/// Reads the process ids that a listing gives, one on each line.
pub fn listed_pids(listing: &[u8]) -> (pids: Vec<String>)
    ensures
        pids.deep_view() == trimmed_lines(lossy_text(listing@)),
        vstd::utf8::valid_utf8(listing@) ==> pids.deep_view() == trimmed_lines(
            vstd::utf8::decode_utf8(listing@),
        ),
{
    let text = from_utf8_lossy(listing);
    pids_in_text(text.as_str())
}

/// Reads the process ids from the text of a listing.
pub fn pids_in_text(text: &str) -> (pids: Vec<String>)
    ensures
        pids.deep_view() == trimmed_lines(text@),
{
    let len: usize = text.unicode_len();
    let mut pids: Vec<String> = Vec::new();
    let mut start: usize = 0;
    proof {
        assert(text@.skip(0) =~= text@);
        assert(pids.deep_view() + trimmed_lines(text@) =~= trimmed_lines(text@));
    }
    while start < len
        invariant
            len == text@.len(),
            start <= len,
            pids.deep_view() + trimmed_lines(text@.skip(start as int)) == trimmed_lines(text@),
        decreases len - start,
    {
        let ghost rest = text@.skip(start as int);
        let mut end: usize = start;
        proof {
            assert(rest.skip(0) =~= rest);
        }
        while end < len && text.get_char(end) != '\n'
            invariant
                len == text@.len(),
                start <= end <= len,
                rest == text@.skip(start as int),
                line_end(rest) == (end - start) + line_end(rest.skip(end - start)),
            decreases len - end,
        {
            assert(rest.skip(end - start).drop_first() =~= rest.skip(end + 1 - start));
            end = end + 1;
        }
        let line = text.substring_char(start, end);
        let ghost done = pids.deep_view();
        pids.push(trim_text(line));
        proof {
            assert(line_end(rest) == end - start);
            assert(line@ =~= rest.take(end - start));
            assert(pids.deep_view() =~= done.push(trimmed(line@)));
        }
        if end < len {
            proof {
                assert(rest.skip(end - start + 1) =~= text@.skip(end + 1));
                assert(pids.deep_view() + trimmed_lines(text@.skip(end + 1)) =~= done
                    + trimmed_lines(rest));
            }
            start = end + 1;
        } else {
            proof {
                assert(text@.skip(end as int) =~= Seq::empty());
                assert(pids.deep_view() + trimmed_lines(text@.skip(end as int)) =~= done
                    + trimmed_lines(rest));
            }
            start = end;
        }
    }
    proof {
        assert(text@.skip(start as int) =~= Seq::empty());
        assert(pids.deep_view() =~= trimmed_lines(text@));
    }
    pids
}

/// Where a program stands: so many levels up from the running program's path, or from the working
/// directory, and then down the segments.
#[derive(Debug, PartialEq)]
pub struct ProgramPath {
    pub from_program: bool,
    pub levels_up: usize,
    pub segments: Vec<String>,
}

/// What a [`ProgramPath`] holds.
#[verifier::ext_equal]
pub struct PathModel {
    pub from_program: bool,
    pub levels_up: nat,
    pub segments: Seq<Seq<char>>,
}

impl DeepView for ProgramPath {
    type V = PathModel;

    open spec fn deep_view(&self) -> PathModel {
        PathModel {
            from_program: self.from_program,
            levels_up: self.levels_up as nat,
            segments: self.segments.deep_view(),
        }
    }
}

/// Where the window host's program stands.
pub open spec fn host_path(program_known: bool, stands_beside: bool) -> PathModel {
    PathModel {
        from_program: program_known,
        levels_up: if !program_known {
            0
        } else if stands_beside {
            1
        } else {
            2
        },
        segments: if !program_known {
            seq!["target"@, "debug"@, "web-host"@]
        } else if stands_beside {
            seq!["web-host"@]
        } else {
            seq!["web-host"@, "target"@, "debug"@, "web-host"@]
        },
    }
}

/// The path of the window host's program: beside the running program; where there is none, in the
/// build output of the workspace; where the running program's path is not known, in the build
/// output under the working directory.
pub fn host_program(program_known: bool, stands_beside: bool) -> (path: ProgramPath)
    ensures
        path.deep_view() == host_path(program_known, stands_beside),
        path.from_program == program_known,
        path.levels_up == (if !program_known {
            0int
        } else if stands_beside {
            1
        } else {
            2
        }),
        path.segments.deep_view() == (if !program_known {
            seq!["target"@, "debug"@, "web-host"@]
        } else if stands_beside {
            seq!["web-host"@]
        } else {
            seq!["web-host"@, "target"@, "debug"@, "web-host"@]
        }),
{
    let mut segments: Vec<String> = Vec::new();
    let mut levels_up: usize = 0;
    if program_known {
        segments.push("web-host".to_owned());
        levels_up = if stands_beside {
            1
        } else {
            2
        };
    }
    if !program_known || !stands_beside {
        segments.push("target".to_owned());
        segments.push("debug".to_owned());
        segments.push("web-host".to_owned());
    }
    ProgramPath { from_program: program_known, levels_up, segments }
}

/// How often the window host tries to reach the document.
pub const CONNECT_TRIES: u32 = 30;

/// How long the window host waits before it tries again, in milliseconds.
pub const RETRY_MILLIS: u64 = 500;

/// What follows a try to reach the document.
#[derive(Debug, Clone, Copy, PartialEq, Eq)]
pub enum ConnectStep {
    /// It was reached: go on.
    Connected,
    /// It was not: wait, and then try again or go on without.
    Wait { millis: u64, try_again: bool },
}

/// What follows the last of `tries_made` tries to reach the document.
pub open spec fn step_after(tries_made: nat, connected: bool) -> ConnectStep {
    if connected {
        ConnectStep::Connected
    } else {
        ConnectStep::Wait { millis: 500, try_again: tries_made < 30 }
    }
}

/// What follows the last of `tries_made` tries to reach the document: a wait after every try that
/// failed, and no more than thirty tries.
pub fn connect_step(tries_made: u32, connected: bool) -> (next: ConnectStep)
    ensures
        next == step_after(tries_made as nat, connected),
        connected <==> next is Connected,
        !connected ==> next == (ConnectStep::Wait { millis: 500, try_again: tries_made < 30 }),
{
    if connected {
        ConnectStep::Connected
    } else {
        ConnectStep::Wait { millis: RETRY_MILLIS, try_again: tries_made < CONNECT_TRIES }
    }
}

} // verus!
