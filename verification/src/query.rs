//! Which raw texts are handed to the query parser at all. The parser's
//! grammar does not return on every text, so a text is scanned here first,
//! byte by byte, and refused where the grammar cannot take it:
//!
//! * where a `*` follows a sign (`+` or `-`) and white space: the grammar
//!   reads the `*` as a test for a field's presence, finds no field named,
//!   and fails beyond recovery;
//! * where more than `MAX_DEPTH` groups are open at once: the grammar
//!   parses the inside of a group twice, once for each reading of what
//!   may follow it, so its work doubles with each level;
//! * where the word `NOT` stands more than `MAX_NEGATION_RUN` times in a
//!   row: the grammar reads what follows a `NOT` by a call of itself, so
//!   the run is as deep on the stack as it is long.
//!
//! The scan follows the grammar's own reading of a text. What stands
//! between double quotes is a phrase and is passed over, and so is the
//! byte behind a backslash, but for an opening parenthesis, which counts.
//! A single quote may open a phrase or be part of a word, which a scan of
//! bytes cannot tell: behind the first one no closing parenthesis is
//! taken to close a group any more, and nothing is passed over.

use vstd::prelude::*;
use vstd::utf8::encode_utf8;

verus! {

/// The number of groups that may be open at once. At this depth the
/// grammar parses the innermost text 256 times.
pub const MAX_DEPTH: usize = 8;

/// The number of times the word `NOT` may stand in a row. Such a run, in
/// every open group, stays far below any thread's stack.
pub const MAX_NEGATION_RUN: usize = 8;

/// What the scan knows after a prefix of the text.
#[derive(Clone, Copy, Debug, PartialEq, Eq, Structural)]
pub struct Scan {
    /// The prefix holds what the grammar cannot take.
    pub refused: bool,
    /// A single quote was passed: closing parentheses no longer count,
    /// and nothing is passed over.
    pub loose: bool,
    /// The prefix ends inside a phrase between double quotes.
    pub in_phrase: bool,
    /// The prefix ends on a backslash that escapes the next byte.
    pub escaped: bool,
    /// The number of groups that are open, never above `MAX_DEPTH + 1`.
    pub depth: usize,
    /// 1 where the prefix ends on a sign, 2 where it ends on a sign and
    /// white space behind it, else 0.
    pub sign: u8,
    /// The last byte, and the one before it.
    pub last: u8,
    pub last_but_one: u8,
    /// The length of the run of `NOT` that the prefix ends on, for the
    /// prefix itself and for those one and two bytes shorter, never above
    /// `MAX_NEGATION_RUN + 1`. White space behind a `NOT` keeps the run,
    /// any other byte ends it.
    pub run: usize,
    pub run_one_back: usize,
    pub run_two_back: usize,
}

/// The byte is white space to the grammar: a space, a tab, a line feed or
/// a carriage return.
pub open spec fn is_space(byte: u8) -> bool {
    byte == 0x20 || byte == 0x09 || byte == 0x0a || byte == 0x0d
}

/// The scan before the first byte.
pub open spec fn start() -> Scan {
    Scan {
        refused: false,
        loose: false,
        in_phrase: false,
        escaped: false,
        depth: 0,
        sign: 0,
        last: 0,
        last_but_one: 0,
        run: 0,
        run_one_back: 0,
        run_two_back: 0,
    }
}

/// The byte is passed over: it stands in a phrase, or behind a backslash,
/// and the scan can still tell.
pub open spec fn passes_over(s: Scan, byte: u8) -> bool {
    !s.loose && (s.in_phrase || (s.escaped && byte != 0x28))
}

/// The number of open groups behind one more byte.
pub open spec fn depth_behind(s: Scan, byte: u8) -> usize {
    if passes_over(s, byte) {
        s.depth
    } else if byte == 0x28 {
        if s.depth <= MAX_DEPTH {
            (s.depth + 1) as usize
        } else {
            s.depth
        }
    } else if byte == 0x29 && !s.loose && !s.escaped && s.depth > 0 {
        (s.depth - 1) as usize
    } else {
        s.depth
    }
}

/// The state of a sign behind one more byte.
pub open spec fn sign_behind(s: Scan, byte: u8) -> u8 {
    if passes_over(s, byte) && s.in_phrase {
        0
    } else if byte == 0x2b || byte == 0x2d {
        1
    } else if is_space(byte) && s.sign >= 1 {
        2
    } else {
        0
    }
}

/// The run of `NOT` behind one more byte.
pub open spec fn run_behind(s: Scan, byte: u8) -> usize {
    if !s.loose && s.in_phrase {
        0
    } else if s.last_but_one == 0x4e && s.last == 0x4f && byte == 0x54 {
        if s.run_two_back <= MAX_NEGATION_RUN {
            (s.run_two_back + 1) as usize
        } else {
            s.run_two_back
        }
    } else if is_space(byte) {
        s.run
    } else {
        0
    }
}

/// The scan behind one more byte.
pub open spec fn step(s: Scan, byte: u8) -> Scan {
    Scan {
        refused: s.refused || depth_behind(s, byte) > MAX_DEPTH || run_behind(s, byte) > MAX_NEGATION_RUN
            || (byte == 0x2a && s.sign == 2 && !(!s.loose && s.in_phrase)),
        loose: s.loose || (byte == 0x27 && !s.in_phrase && !s.escaped),
        in_phrase: if s.loose || s.escaped {
            s.in_phrase
        } else if byte == 0x22 {
            !s.in_phrase
        } else {
            s.in_phrase
        },
        escaped: !s.loose && !s.escaped && byte == 0x5c,
        depth: depth_behind(s, byte),
        sign: sign_behind(s, byte),
        last: if !s.loose && s.in_phrase {
            0
        } else {
            byte
        },
        last_but_one: if !s.loose && s.in_phrase {
            0
        } else {
            s.last
        },
        run: run_behind(s, byte),
        run_one_back: if !s.loose && s.in_phrase {
            0
        } else {
            s.run
        },
        run_two_back: if !s.loose && s.in_phrase {
            0
        } else {
            s.run_one_back
        },
    }
}

/// The scan behind the first `n` bytes of a text.
pub open spec fn scan(text: Seq<u8>, n: nat) -> Scan
    decreases n,
{
    if n == 0 {
        start()
    } else {
        step(scan(text, (n - 1) as nat), text[n - 1])
    }
}

/// The text, as UTF-8, is one that the grammar can take: its scan ends
/// without a refusal.
pub open spec fn is_admitted(text: Seq<u8>) -> bool {
    !scan(text, text.len()).refused
}

/// The raw query is one that the parser is asked about.
pub open spec fn admits_text(raw: Seq<char>) -> bool {
    is_admitted(encode_utf8(raw))
}

/// The scan behind one more byte.
pub fn advance(s: Scan, byte: u8) -> (r: Scan)
    requires
        s.depth <= MAX_DEPTH + 1,
        s.run <= MAX_NEGATION_RUN + 1,
        s.run_one_back <= MAX_NEGATION_RUN + 1,
        s.run_two_back <= MAX_NEGATION_RUN + 1,
    ensures
        r == step(s, byte),
        r.depth <= MAX_DEPTH + 1,
        r.run <= MAX_NEGATION_RUN + 1,
        r.run_one_back <= MAX_NEGATION_RUN + 1,
        r.run_two_back <= MAX_NEGATION_RUN + 1,
{
    let space = byte == 0x20 || byte == 0x09 || byte == 0x0a || byte == 0x0d;
    let phrase = !s.loose && s.in_phrase;
    let over = !s.loose && (s.in_phrase || (s.escaped && byte != 0x28));
    let depth: usize = if over {
        s.depth
    } else if byte == 0x28 {
        if s.depth <= MAX_DEPTH {
            s.depth + 1
        } else {
            s.depth
        }
    } else if byte == 0x29 && !s.loose && !s.escaped && s.depth > 0 {
        s.depth - 1
    } else {
        s.depth
    };
    let sign: u8 = if over && s.in_phrase {
        0
    } else if byte == 0x2b || byte == 0x2d {
        1
    } else if space && s.sign >= 1 {
        2
    } else {
        0
    };
    let run: usize = if phrase {
        0
    } else if s.last_but_one == 0x4e && s.last == 0x4f && byte == 0x54 {
        if s.run_two_back <= MAX_NEGATION_RUN {
            s.run_two_back + 1
        } else {
            s.run_two_back
        }
    } else if space {
        s.run
    } else {
        0
    };
    Scan {
        refused: s.refused || depth > MAX_DEPTH || run > MAX_NEGATION_RUN || (byte == 0x2a && s.sign == 2
            && !phrase),
        loose: s.loose || (byte == 0x27 && !s.in_phrase && !s.escaped),
        in_phrase: if s.loose || s.escaped {
            s.in_phrase
        } else if byte == 0x22 {
            !s.in_phrase
        } else {
            s.in_phrase
        },
        escaped: !s.loose && !s.escaped && byte == 0x5c,
        depth,
        sign,
        last: if phrase {
            0
        } else {
            byte
        },
        last_but_one: if phrase {
            0
        } else {
            s.last
        },
        run,
        run_one_back: if phrase {
            0
        } else {
            s.run
        },
        run_two_back: if phrase {
            0
        } else {
            s.run_one_back
        },
    }
}

/// Decides whether the parser is asked about a raw query.
pub fn admits(raw: &str) -> (r: bool)
    ensures
        r == admits_text(raw@),
{
    let text = raw.as_bytes();
    let mut s = Scan {
        refused: false,
        loose: false,
        in_phrase: false,
        escaped: false,
        depth: 0,
        sign: 0,
        last: 0,
        last_but_one: 0,
        run: 0,
        run_one_back: 0,
        run_two_back: 0,
    };
    let mut i: usize = 0;
    while i < text.len()
        invariant
            i <= text.len(),
            text@ == encode_utf8(raw@),
            s == scan(text@, i as nat),
            s.depth <= MAX_DEPTH + 1,
            s.run <= MAX_NEGATION_RUN + 1,
            s.run_one_back <= MAX_NEGATION_RUN + 1,
            s.run_two_back <= MAX_NEGATION_RUN + 1,
        decreases text.len() - i,
    {
        s = advance(s, text[i]);
        i += 1;
    }
    !s.refused
}

} // verus!
