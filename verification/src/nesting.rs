//! A bound on how deep a text nests what it holds, taken before the text is
//! handed to a parser that descends once for every level.
//!
//! The text is scanned byte by byte, and strings and comments are told from
//! the rest as the parser's own tokenizer tells them. Every byte that
//! matters is ASCII, and no byte of a longer character is one of them.
//!
//! TOML. A comment runs from `#` to the end of the line. A string of one
//! line runs from its quote to the next, and in a basic string a backslash
//! takes the byte after it along. Three quotes open a string of many lines,
//! which the next three quotes in a row close; up to two more quotes that
//! follow at once still belong to it. Two quotes and then anything else are
//! the empty string. The header of a table is read from its own line.
//!
//! JSON5. A comment runs from `//` to the end of the line, which a line
//! feed, a carriage return, a line separator or a paragraph separator
//! makes, or from `/*` to `*/`. A string runs from its quote to the next,
//! and a backslash takes the byte after it along.
//!
//! Outside strings and comments the scan keeps the number of brackets that
//! are open, and, for TOML, the number of dots on the line, since a dotted
//! key and the header of a table nest one level for every dot and lie
//! within one line.
//!
//! With `p` for the most brackets that are open at once and `d` for the most
//! dots of a line, no value of a TOML text lies deeper than
//! `(p + 2) * (d + 1)`: on the way down to it there is the header of its
//! table, `d + 1` levels at most, the brackets that are open, `p` at most,
//! and one key for every such bracket and one more, `d` levels each. No
//! value of a JSON5 text lies deeper than `p`.
//!
//! Where the scan and the parser part, the parser has met an error and
//! descends no further, so the bound holds of every text: of a TOML text as
//! the parser reads it, and of every JSON5 text that the parser accepts.

use vstd::prelude::*;
use vstd::string::*;
use vstd::utf8::encode_utf8;

verus! {

/// The most that the bound of a text may be for the text to be parsed.
pub const NESTING_LIMIT: usize = 200;

/// The kind of a TOML string: basic, in `"`, or literal, in `'`.
#[derive(Clone, Copy, Debug, PartialEq, Eq, Structural)]
pub enum Quote {
    Basic,
    Literal,
}

/// What a byte outside strings and comments is to the bound.
#[derive(Clone, Copy, Debug, PartialEq, Eq, Structural)]
pub enum Mark {
    /// Nothing.
    Plain,
    /// A bracket that opens.
    Open,
    /// A bracket that closes.
    Close,
    /// A dot.
    Dot,
}

/// Where the scan of a TOML text stands.
#[derive(Clone, Copy, Debug, PartialEq, Eq, Structural)]
pub enum TomlLex {
    /// Outside strings and comments.
    Code,
    /// In a comment, which ends with the line.
    Comment,
    /// After the quote that opens a string.
    Opened(Quote),
    /// After two quotes: an empty string, or two thirds of the opening of a
    /// string of many lines.
    OpenedTwice(Quote),
    /// In a string of one line.
    Single(Quote),
    /// After the backslash of an escape in a basic string of one line.
    SingleEscape,
    /// In a string of many lines, after so many quotes in a row, two at
    /// most.
    Multi(Quote, u8),
    /// After the backslash of an escape in a basic string of many lines.
    MultiEscape,
    /// After the three quotes that close a string of many lines: so many
    /// more quotes, two at most, still belong to it.
    Closing(Quote, u8),
}

/// Where the scan of a JSON5 text stands.
#[derive(Clone, Copy, Debug, PartialEq, Eq, Structural)]
pub enum JsonLex {
    /// Outside strings and comments.
    Code,
    /// After a slash.
    Slash,
    /// In a comment that ends with the line; after so many bytes, two at
    /// most, of a line or paragraph separator.
    Line(u8),
    /// In a comment between `/*` and `*/`.
    Block,
    /// In such a comment, after a star.
    BlockStar,
    /// In a string in `"`.
    Double,
    /// After a backslash in a string in `"`.
    DoubleEscape,
    /// In a string in `'`.
    Apostrophe,
    /// After a backslash in a string in `'`.
    ApostropheEscape,
}

/// The byte of the quote of a string.
pub open spec fn delimiter(quote: Quote) -> u8 {
    match quote {
        Quote::Basic => 34,
        Quote::Literal => 39,
    }
}

/// What a byte is to the bound, were it outside strings and comments.
pub open spec fn mark_of(byte: u8) -> Mark {
    if byte == 91 || byte == 123 {
        Mark::Open
    } else if byte == 93 || byte == 125 {
        Mark::Close
    } else if byte == 46 {
        Mark::Dot
    } else {
        Mark::Plain
    }
}

/// The scan of TOML at a byte outside strings and comments: `#` begins a
/// comment and a quote a string.
pub open spec fn toml_code(byte: u8) -> (TomlLex, Mark) {
    if byte == 35 {
        (TomlLex::Comment, Mark::Plain)
    } else if byte == 34 {
        (TomlLex::Opened(Quote::Basic), Mark::Plain)
    } else if byte == 39 {
        (TomlLex::Opened(Quote::Literal), Mark::Plain)
    } else {
        (TomlLex::Code, mark_of(byte))
    }
}

/// The scan of TOML at a byte in a string of one line: its quote ends it,
/// and in a basic string a backslash begins an escape. The end of the line
/// is an error to the parser.
pub open spec fn toml_single(quote: Quote, byte: u8) -> TomlLex {
    if byte == delimiter(quote) || byte == 10 {
        TomlLex::Code
    } else if quote == Quote::Basic && byte == 92 {
        TomlLex::SingleEscape
    } else {
        TomlLex::Single(quote)
    }
}

/// The scan of TOML at a byte: where it stands after the byte, and what the
/// byte is to the bound.
pub open spec fn toml_lex(lex: TomlLex, byte: u8) -> (TomlLex, Mark) {
    match lex {
        TomlLex::Code => toml_code(byte),
        TomlLex::Comment => (
            if byte == 10 {
                TomlLex::Code
            } else {
                TomlLex::Comment
            },
            Mark::Plain,
        ),
        TomlLex::Opened(quote) => (
            if byte == delimiter(quote) {
                TomlLex::OpenedTwice(quote)
            } else {
                toml_single(quote, byte)
            },
            Mark::Plain,
        ),
        TomlLex::OpenedTwice(quote) => if byte == delimiter(quote) {
            (TomlLex::Multi(quote, 0), Mark::Plain)
        } else {
            toml_code(byte)
        },
        TomlLex::Single(quote) => (toml_single(quote, byte), Mark::Plain),
        TomlLex::SingleEscape => (TomlLex::Single(Quote::Basic), Mark::Plain),
        TomlLex::Multi(quote, run) => (
            if byte == delimiter(quote) {
                if run >= 2 {
                    TomlLex::Closing(quote, 2)
                } else {
                    TomlLex::Multi(quote, (run + 1) as u8)
                }
            } else if quote == Quote::Basic && byte == 92 {
                TomlLex::MultiEscape
            } else {
                TomlLex::Multi(quote, 0)
            },
            Mark::Plain,
        ),
        TomlLex::MultiEscape => (TomlLex::Multi(Quote::Basic, 0), Mark::Plain),
        TomlLex::Closing(quote, left) => if byte == delimiter(quote) && left > 0 {
            (TomlLex::Closing(quote, (left - 1) as u8), Mark::Plain)
        } else {
            toml_code(byte)
        },
    }
}

/// The scan of JSON5 at a byte outside strings and comments.
pub open spec fn json_code(byte: u8) -> (JsonLex, Mark) {
    if byte == 47 {
        (JsonLex::Slash, Mark::Plain)
    } else if byte == 34 {
        (JsonLex::Double, Mark::Plain)
    } else if byte == 39 {
        (JsonLex::Apostrophe, Mark::Plain)
    } else {
        (JsonLex::Code, mark_of(byte))
    }
}

/// The scan of JSON5 at a byte: where it stands after the byte, and what
/// the byte is to the bound. A comment of one line ends with a line feed, a
/// carriage return, or a line or paragraph separator, whose bytes are
/// `E2 80 A8` and `E2 80 A9`.
pub open spec fn json_lex(lex: JsonLex, byte: u8) -> (JsonLex, Mark) {
    match lex {
        JsonLex::Code => json_code(byte),
        JsonLex::Slash => if byte == 47 {
            (JsonLex::Line(0), Mark::Plain)
        } else if byte == 42 {
            (JsonLex::Block, Mark::Plain)
        } else {
            json_code(byte)
        },
        JsonLex::Line(seen) => (
            if byte == 10 || byte == 13 {
                JsonLex::Code
            } else if byte == 226 {
                JsonLex::Line(1)
            } else if seen == 1 && byte == 128 {
                JsonLex::Line(2)
            } else if seen == 2 && (byte == 168 || byte == 169) {
                JsonLex::Code
            } else {
                JsonLex::Line(0)
            },
            Mark::Plain,
        ),
        JsonLex::Block => (
            if byte == 42 {
                JsonLex::BlockStar
            } else {
                JsonLex::Block
            },
            Mark::Plain,
        ),
        JsonLex::BlockStar => (
            if byte == 47 {
                JsonLex::Code
            } else if byte == 42 {
                JsonLex::BlockStar
            } else {
                JsonLex::Block
            },
            Mark::Plain,
        ),
        JsonLex::Double => (
            if byte == 34 {
                JsonLex::Code
            } else if byte == 92 {
                JsonLex::DoubleEscape
            } else {
                JsonLex::Double
            },
            Mark::Plain,
        ),
        JsonLex::DoubleEscape => (JsonLex::Double, Mark::Plain),
        JsonLex::Apostrophe => (
            if byte == 39 {
                JsonLex::Code
            } else if byte == 92 {
                JsonLex::ApostropheEscape
            } else {
                JsonLex::Apostrophe
            },
            Mark::Plain,
        ),
        JsonLex::ApostropheEscape => (JsonLex::Apostrophe, Mark::Plain),
    }
}

/// What the scan has counted: the brackets that are open and the most that
/// were open at once; the dots of the line at hand and the most of a line
/// before.
pub struct Tally {
    pub depth: nat,
    pub peak: nat,
    pub dots: nat,
    pub width: nat,
}

impl Tally {
    /// The count of no text.
    pub open spec fn start() -> Tally {
        Tally { depth: 0, peak: 0, dots: 0, width: 0 }
    }

    /// The most dots of a line so far, the line at hand included.
    pub open spec fn widest(self) -> nat {
        if self.dots > self.width {
            self.dots
        } else {
            self.width
        }
    }

    /// The count after a byte that is `mark` to the bound. A line feed ends
    /// the line.
    pub open spec fn step(self, mark: Mark, byte: u8) -> Tally {
        let marked = match mark {
            Mark::Plain => self,
            Mark::Open => Tally {
                depth: self.depth + 1,
                peak: if self.depth + 1 > self.peak {
                    self.depth + 1
                } else {
                    self.peak
                },
                ..self
            },
            Mark::Close => Tally {
                depth: if self.depth > 0 {
                    (self.depth - 1) as nat
                } else {
                    0
                },
                ..self
            },
            Mark::Dot => Tally { dots: self.dots + 1, ..self },
        };
        if byte == 10 {
            Tally { dots: 0, width: marked.widest(), ..marked }
        } else {
            marked
        }
    }
}

/// The scan of a TOML text, byte by byte.
pub open spec fn toml_scan(bytes: Seq<u8>) -> (TomlLex, Tally)
    decreases bytes.len(),
{
    if bytes.len() == 0 {
        (TomlLex::Code, Tally::start())
    } else {
        let (lex, tally) = toml_scan(bytes.drop_last());
        let (next, mark) = toml_lex(lex, bytes.last());
        (next, tally.step(mark, bytes.last()))
    }
}

/// The scan of a JSON5 text, byte by byte.
pub open spec fn json_scan(bytes: Seq<u8>) -> (JsonLex, Tally)
    decreases bytes.len(),
{
    if bytes.len() == 0 {
        (JsonLex::Code, Tally::start())
    } else {
        let (lex, tally) = json_scan(bytes.drop_last());
        let (next, mark) = json_lex(lex, bytes.last());
        (next, tally.step(mark, bytes.last()))
    }
}

/// The bound on the nesting of a TOML text.
pub open spec fn toml_nesting(text: Seq<char>) -> nat {
    let tally = toml_scan(encode_utf8(text)).1;
    (tally.peak + 2) * (tally.widest() + 1)
}

/// The bound on the nesting of a JSON5 text.
pub open spec fn json_nesting(text: Seq<char>) -> nat {
    json_scan(encode_utf8(text)).1.peak
}

/// The diagnostic for a text that nests too deep.
pub open spec fn too_deep() -> Seq<char> {
    "The text nests too deep."@
}

/// The text of [`too_deep`].
pub fn too_deep_text() -> (r: String)
    ensures
        r@ == too_deep(),
{
    "The text nests too deep.".to_owned()
}

/// The count as the scan holds it.
pub struct Counts {
    pub depth: usize,
    pub peak: usize,
    pub dots: usize,
    pub width: usize,
}

impl View for Counts {
    type V = Tally;

    open spec fn view(&self) -> Tally {
        Tally {
            depth: self.depth as nat,
            peak: self.peak as nat,
            dots: self.dots as nat,
            width: self.width as nat,
        }
    }
}

fn mark(byte: u8) -> (r: Mark)
    ensures
        r == mark_of(byte),
{
    if byte == 91 || byte == 123 {
        Mark::Open
    } else if byte == 93 || byte == 125 {
        Mark::Close
    } else if byte == 46 {
        Mark::Dot
    } else {
        Mark::Plain
    }
}

fn quote_byte(quote: Quote) -> (r: u8)
    ensures
        r == delimiter(quote),
{
    match quote {
        Quote::Basic => 34,
        Quote::Literal => 39,
    }
}

fn is_basic(quote: Quote) -> (r: bool)
    ensures
        r == (quote == Quote::Basic),
{
    match quote {
        Quote::Basic => true,
        Quote::Literal => false,
    }
}

fn lex_toml_code(byte: u8) -> (r: (TomlLex, Mark))
    ensures
        r == toml_code(byte),
{
    if byte == 35 {
        (TomlLex::Comment, Mark::Plain)
    } else if byte == 34 {
        (TomlLex::Opened(Quote::Basic), Mark::Plain)
    } else if byte == 39 {
        (TomlLex::Opened(Quote::Literal), Mark::Plain)
    } else {
        (TomlLex::Code, mark(byte))
    }
}

fn lex_toml_single(quote: Quote, byte: u8) -> (r: TomlLex)
    ensures
        r == toml_single(quote, byte),
{
    if byte == quote_byte(quote) || byte == 10 {
        TomlLex::Code
    } else if is_basic(quote) && byte == 92 {
        TomlLex::SingleEscape
    } else {
        TomlLex::Single(quote)
    }
}

fn lex_toml(lex: TomlLex, byte: u8) -> (r: (TomlLex, Mark))
    ensures
        r == toml_lex(lex, byte),
{
    match lex {
        TomlLex::Code => lex_toml_code(byte),
        TomlLex::Comment => if byte == 10 {
            (TomlLex::Code, Mark::Plain)
        } else {
            (TomlLex::Comment, Mark::Plain)
        },
        TomlLex::Opened(quote) => if byte == quote_byte(quote) {
            (TomlLex::OpenedTwice(quote), Mark::Plain)
        } else {
            (lex_toml_single(quote, byte), Mark::Plain)
        },
        TomlLex::OpenedTwice(quote) => if byte == quote_byte(quote) {
            (TomlLex::Multi(quote, 0), Mark::Plain)
        } else {
            lex_toml_code(byte)
        },
        TomlLex::Single(quote) => (lex_toml_single(quote, byte), Mark::Plain),
        TomlLex::SingleEscape => (TomlLex::Single(Quote::Basic), Mark::Plain),
        TomlLex::Multi(quote, run) => if byte == quote_byte(quote) {
            if run >= 2 {
                (TomlLex::Closing(quote, 2), Mark::Plain)
            } else {
                (TomlLex::Multi(quote, run + 1), Mark::Plain)
            }
        } else if is_basic(quote) && byte == 92 {
            (TomlLex::MultiEscape, Mark::Plain)
        } else {
            (TomlLex::Multi(quote, 0), Mark::Plain)
        },
        TomlLex::MultiEscape => (TomlLex::Multi(Quote::Basic, 0), Mark::Plain),
        TomlLex::Closing(quote, left) => if byte == quote_byte(quote) && left > 0 {
            (TomlLex::Closing(quote, left - 1), Mark::Plain)
        } else {
            lex_toml_code(byte)
        },
    }
}

fn lex_json_code(byte: u8) -> (r: (JsonLex, Mark))
    ensures
        r == json_code(byte),
{
    if byte == 47 {
        (JsonLex::Slash, Mark::Plain)
    } else if byte == 34 {
        (JsonLex::Double, Mark::Plain)
    } else if byte == 39 {
        (JsonLex::Apostrophe, Mark::Plain)
    } else {
        (JsonLex::Code, mark(byte))
    }
}

fn lex_json(lex: JsonLex, byte: u8) -> (r: (JsonLex, Mark))
    ensures
        r == json_lex(lex, byte),
{
    match lex {
        JsonLex::Code => lex_json_code(byte),
        JsonLex::Slash => if byte == 47 {
            (JsonLex::Line(0), Mark::Plain)
        } else if byte == 42 {
            (JsonLex::Block, Mark::Plain)
        } else {
            lex_json_code(byte)
        },
        JsonLex::Line(seen) => if byte == 10 || byte == 13 {
            (JsonLex::Code, Mark::Plain)
        } else if byte == 226 {
            (JsonLex::Line(1), Mark::Plain)
        } else if seen == 1 && byte == 128 {
            (JsonLex::Line(2), Mark::Plain)
        } else if seen == 2 && (byte == 168 || byte == 169) {
            (JsonLex::Code, Mark::Plain)
        } else {
            (JsonLex::Line(0), Mark::Plain)
        },
        JsonLex::Block => if byte == 42 {
            (JsonLex::BlockStar, Mark::Plain)
        } else {
            (JsonLex::Block, Mark::Plain)
        },
        JsonLex::BlockStar => if byte == 47 {
            (JsonLex::Code, Mark::Plain)
        } else if byte == 42 {
            (JsonLex::BlockStar, Mark::Plain)
        } else {
            (JsonLex::Block, Mark::Plain)
        },
        JsonLex::Double => if byte == 34 {
            (JsonLex::Code, Mark::Plain)
        } else if byte == 92 {
            (JsonLex::DoubleEscape, Mark::Plain)
        } else {
            (JsonLex::Double, Mark::Plain)
        },
        JsonLex::DoubleEscape => (JsonLex::Double, Mark::Plain),
        JsonLex::Apostrophe => if byte == 39 {
            (JsonLex::Code, Mark::Plain)
        } else if byte == 92 {
            (JsonLex::ApostropheEscape, Mark::Plain)
        } else {
            (JsonLex::Apostrophe, Mark::Plain)
        },
        JsonLex::ApostropheEscape => (JsonLex::Apostrophe, Mark::Plain),
    }
}

fn count(counts: Counts, mark: Mark, byte: u8) -> (r: Counts)
    requires
        counts.depth < usize::MAX,
        counts.dots < usize::MAX,
    ensures
        r@ == counts@.step(mark, byte),
{
    let mut depth = counts.depth;
    let mut peak = counts.peak;
    let mut dots = counts.dots;
    let mut width = counts.width;
    match mark {
        Mark::Plain => {},
        Mark::Open => {
            depth = depth + 1;
            if depth > peak {
                peak = depth;
            }
        },
        Mark::Close => {
            if depth > 0 {
                depth = depth - 1;
            }
        },
        Mark::Dot => {
            dots = dots + 1;
        },
    }
    if byte == 10 {
        if dots > width {
            width = dots;
        }
        dots = 0;
    }
    Counts { depth, peak, dots, width }
}

/// Whether the bound on the nesting of the TOML text `text` is within the
/// limit.
pub fn toml_within_limit(text: &str) -> (r: bool)
    ensures
        r == (toml_nesting(text@) <= NESTING_LIMIT),
{
    let bytes = text.as_bytes();
    let mut lex = TomlLex::Code;
    let mut counts = Counts { depth: 0, peak: 0, dots: 0, width: 0 };
    let mut i: usize = 0;
    while i < bytes.len()
        invariant
            i <= bytes@.len(),
            bytes@ == encode_utf8(text@),
            counts.depth <= i,
            counts.peak <= i,
            counts.dots <= i,
            counts.width <= i,
            toml_scan(bytes@.take(i as int)) == (lex, counts@),
        decreases bytes@.len() - i,
    {
        let byte = bytes[i];
        proof {
            assert(bytes@.take(i + 1).drop_last() =~= bytes@.take(i as int));
            assert(bytes@.take(i + 1).last() == byte);
        }
        let (next, mark) = lex_toml(lex, byte);
        lex = next;
        counts = count(counts, mark, byte);
        i = i + 1;
    }
    assert(bytes@.take(i as int) =~= bytes@);
    let peak = counts.peak;
    let widest = if counts.dots > counts.width {
        counts.dots
    } else {
        counts.width
    };
    if peak > NESTING_LIMIT || widest > NESTING_LIMIT {
        assert((peak + 2) * (widest + 1) > NESTING_LIMIT) by (nonlinear_arith)
            requires
                peak > NESTING_LIMIT || widest > NESTING_LIMIT,
                peak >= 0,
                widest >= 0,
        ;
        false
    } else {
        assert((peak + 2) * (widest + 1) <= 202 * 201) by (nonlinear_arith)
            requires
                0 <= peak <= 200,
                0 <= widest <= 200,
        ;
        (peak + 2) * (widest + 1) <= NESTING_LIMIT
    }
}

/// Whether the bound on the nesting of the JSON5 text `text` is within the
/// limit.
pub fn json_within_limit(text: &str) -> (r: bool)
    ensures
        r == (json_nesting(text@) <= NESTING_LIMIT),
{
    let bytes = text.as_bytes();
    let mut lex = JsonLex::Code;
    let mut counts = Counts { depth: 0, peak: 0, dots: 0, width: 0 };
    let mut i: usize = 0;
    while i < bytes.len()
        invariant
            i <= bytes@.len(),
            bytes@ == encode_utf8(text@),
            counts.depth <= i,
            counts.peak <= i,
            counts.dots <= i,
            counts.width <= i,
            json_scan(bytes@.take(i as int)) == (lex, counts@),
        decreases bytes@.len() - i,
    {
        let byte = bytes[i];
        proof {
            assert(bytes@.take(i + 1).drop_last() =~= bytes@.take(i as int));
            assert(bytes@.take(i + 1).last() == byte);
        }
        let (next, mark) = lex_json(lex, byte);
        lex = next;
        counts = count(counts, mark, byte);
        i = i + 1;
    }
    assert(bytes@.take(i as int) =~= bytes@);
    counts.peak <= NESTING_LIMIT
}

} // verus!
