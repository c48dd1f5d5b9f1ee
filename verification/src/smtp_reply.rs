use vstd::prelude::*;
use crate::host::{is_digit, DIGIT_0, DIGIT_9, HYPHEN};

verus! {

/// Longest reply line the parser accepts, terminator included.
pub const MAX_LINE_SIZE: usize = 512;

/// Reply code of a "service ready" greeting line.
pub const SERVICE_READY: u16 = 220;

/// Reply code of a "no service" greeting line.
pub const NO_SERVICE: u16 = 554;

pub const LF: u8 = 10;
pub const CR: u8 = 13;
pub const SP: u8 = 32;

/// Ways one reply line can be malformed.
#[derive(Clone, Copy, PartialEq, Eq, Structural, Debug)]
pub enum ResponseLineError {
    /// The line does not end in a line feed.
    MissingLineEnd,
    /// Fewer than three bytes before the terminator.
    TooShort,
    /// The first three bytes are not all decimal digits.
    InvalidCode,
    /// The byte after the code is neither a space nor a hyphen.
    InvalidDelimiter,
    /// A continuation line carries a different code than the reply began
    /// with.
    CodeMismatch,
}

/// The line with its terminator removed: the final line feed, and the
/// carriage return before it if there is one.
pub open spec fn line_content(line: Seq<u8>) -> Seq<u8> {
    let no_lf = line.take(line.len() - 1);
    if no_lf.len() > 0 && no_lf[no_lf.len() - 1] == CR {
        no_lf.take(no_lf.len() - 1)
    } else {
        no_lf
    }
}

/// A well-formed reply line content: three digits, then nothing, or a
/// space or hyphen delimiter and the message.
pub open spec fn wf_content(c: Seq<u8>) -> bool {
    &&& c.len() >= 3
    &&& is_digit(c[0]) && is_digit(c[1]) && is_digit(c[2])
    &&& (c.len() == 3 || c[3] == SP || c[3] == HYPHEN)
}

pub open spec fn content_code(c: Seq<u8>) -> u16 {
    (((c[0] - DIGIT_0) as u16) * 100 + ((c[1] - DIGIT_0) as u16) * 10 + ((c[2]
        - DIGIT_0) as u16)) as u16
}

/// Whether this line closes the reply: a space delimiter, or a bare
/// code.
pub open spec fn content_is_last(c: Seq<u8>) -> bool {
    c.len() == 3 || c[3] == SP
}

/// The message tail after code and delimiter.
pub open spec fn content_msg(c: Seq<u8>) -> Seq<u8> {
    if c.len() <= 3 {
        Seq::<u8>::empty()
    } else {
        c.skip(4)
    }
}

/// What feeding one raw line to a parser does, given whether a reply
/// is still open (`active`) under code `cur_code`: either the line's
/// message, or the malformation found.
pub open spec fn feed_result(cur_code: u16, active: bool, line: Seq<u8>) -> Result<
    Seq<u8>,
    ResponseLineError,
> {
    if line.len() == 0 || line[line.len() - 1] != LF {
        Err(ResponseLineError::MissingLineEnd)
    } else {
        let c = line_content(line);
        if c.len() < 3 {
            Err(ResponseLineError::TooShort)
        } else if !(is_digit(c[0]) && is_digit(c[1]) && is_digit(c[2])) {
            Err(ResponseLineError::InvalidCode)
        } else if c.len() > 3 && c[3] != SP && c[3] != HYPHEN {
            Err(ResponseLineError::InvalidDelimiter)
        } else if active && content_code(c) != cur_code {
            Err(ResponseLineError::CodeMismatch)
        } else {
            Ok(content_msg(c))
        }
    }
}

/// Progress of one SMTP-style multi-line reply: the code the reply
/// opened with, whether any line has been accepted, and whether the
/// closing line has been seen.
pub struct ResponseParser {
    code: u16,
    started: bool,
    finished: bool,
}

impl ResponseParser {
    pub closed spec fn code_spec(&self) -> u16 {
        self.code
    }

    pub closed spec fn started_spec(&self) -> bool {
        self.started
    }

    pub closed spec fn finished_spec(&self) -> bool {
        self.finished
    }

    /// A reply is open when a line has been accepted and the closing
    /// line has not.
    pub open spec fn active_spec(&self) -> bool {
        self.started_spec() && !self.finished_spec()
    }

    pub fn new() -> (r: Self)
        ensures
            r.code_spec() == 0,
            !r.started_spec(),
            !r.finished_spec(),
    {
        ResponseParser { code: 0, started: false, finished: false }
    }

    pub fn code(&self) -> (r: u16)
        ensures
            r == self.code_spec(),
    {
        self.code
    }

    pub fn finished(&self) -> (r: bool)
        ensures
            r == self.finished_spec(),
    {
        self.finished
    }

    /// Accepts one raw reply line.  On success the returned vector is
    /// the line's message and the parser records the line's code and
    /// whether it closed the reply; a line fed after a finished reply
    /// opens a new one.  On failure the parser is unchanged.
    pub fn feed_line(&mut self, line: &[u8]) -> (r: Result<Vec<u8>, ResponseLineError>)
        ensures
            match r {
                Ok(msg) => {
                    &&& feed_result(old(self).code_spec(), old(self).active_spec(), line@) == Ok::<
                        Seq<u8>,
                        ResponseLineError,
                    >(msg@)
                    &&& final(self).code_spec() == content_code(line_content(line@))
                    &&& final(self).started_spec()
                    &&& final(self).finished_spec() == content_is_last(line_content(line@))
                },
                Err(e) => {
                    &&& feed_result(old(self).code_spec(), old(self).active_spec(), line@)
                        == Err::<Seq<u8>, ResponseLineError>(e)
                    &&& *final(self) == *old(self)
                },
            },
    {
        let n = line.len();
        if n == 0 || line[n - 1] != LF {
            return Err(ResponseLineError::MissingLineEnd);
        }
        let content_len = if n >= 2 && line[n - 2] == CR {
            n - 2
        } else {
            n - 1
        };
        let ghost c = line_content(line@);
        proof {
            assert(c =~= line@.subrange(0, content_len as int));
        }
        if content_len < 3 {
            return Err(ResponseLineError::TooShort);
        }
        let b0 = line[0];
        let b1 = line[1];
        let b2 = line[2];
        if b0 < DIGIT_0 || b0 > DIGIT_9 || b1 < DIGIT_0 || b1 > DIGIT_9 || b2 < DIGIT_0 || b2
            > DIGIT_9 {
            return Err(ResponseLineError::InvalidCode);
        }
        if content_len > 3 {
            let d = line[3];
            if d != SP && d != HYPHEN {
                return Err(ResponseLineError::InvalidDelimiter);
            }
        }
        let code = ((b0 - DIGIT_0) as u16) * 100 + ((b1 - DIGIT_0) as u16) * 10 + ((b2
            - DIGIT_0) as u16);
        if self.started && !self.finished && code != self.code {
            return Err(ResponseLineError::CodeMismatch);
        }
        let msg_start: usize = if content_len <= 3 {
            content_len
        } else {
            4
        };
        let mut msg: Vec<u8> = Vec::new();
        let mut i: usize = msg_start;
        while i < content_len
            invariant
                msg_start <= i <= content_len <= line@.len(),
                msg@ == line@.subrange(msg_start as int, i as int),
            decreases content_len - i,
        {
            msg.push(line[i]);
            proof {
                assert(line@.subrange(msg_start as int, i + 1) =~= line@.subrange(
                    msg_start as int,
                    i as int,
                ).push(line@[i as int]));
            }
            i += 1;
        }
        proof {
            assert(msg@ =~= content_msg(c));
        }
        self.code = code;
        self.started = true;
        self.finished = content_len == 3 || line[3] == SP;
        Ok(msg)
    }
}

impl Default for ResponseParser {
    /// A parser that has seen nothing yet.
    fn default() -> (r: Self)
        ensures
            r.code_spec() == 0,
            !r.started_spec(),
            !r.finished_spec(),
    {
        ResponseParser::new()
    }
}

/// The synthesized negative greeting sent when the real one failed
/// before any byte reached the client: code, the server's own address,
/// and a short reason.
pub open spec fn no_service_text(ip: Seq<char>, reason: Seq<char>) -> Seq<char> {
    "554 "@ + ip + " upstream service not ready: "@ + reason + "\r\n"@
}

/// Builds the synthesized "service not ready" reply line.
pub fn upstream_service_not_ready(ip: &str, reason: &str) -> (r: String)
    ensures
        r@ == no_service_text(ip@, reason@),
{
    let mut s = String::from_str("554 ");
    s.append(ip);
    s.append(" upstream service not ready: ");
    s.append(reason);
    s.append("\r\n");
    s
}

} // verus!
