use vstd::prelude::*;
use vstd::string::*;

verus! {

/// The decimal digit `d`, for `d < 10`.
pub open spec fn digit_char(d: nat) -> char {
    seq!['0', '1', '2', '3', '4', '5', '6', '7', '8', '9'][d as int]
}

/// The decimal numeral of `n`, without leading zeros.
pub open spec fn decimal(n: nat) -> Seq<char>
    decreases n,
{
    if n < 10 {
        seq![digit_char(n)]
    } else {
        decimal(n / 10).push(digit_char(n % 10))
    }
}

/// How a location reads: `file:[line:column]`, dimmed by terminal colour codes.
pub open spec fn location_text(l: LocationView) -> Seq<char> {
    "\x1b[90m"@ + l.file + ":["@ + decimal(l.line as nat) + ":"@ + decimal(l.column as nat)
        + "]\x1b[0m"@
}

fn digit_str(d: u32) -> (r: &'static str)
    requires
        d < 10,
    ensures
        r@ == seq![digit_char(d as nat)],
{
    proof {
        reveal_strlit("0");
        reveal_strlit("1");
        reveal_strlit("2");
        reveal_strlit("3");
        reveal_strlit("4");
        reveal_strlit("5");
        reveal_strlit("6");
        reveal_strlit("7");
        reveal_strlit("8");
        reveal_strlit("9");
    }
    match d {
        0 => "0",
        1 => "1",
        2 => "2",
        3 => "3",
        4 => "4",
        5 => "5",
        6 => "6",
        7 => "7",
        8 => "8",
        _ => "9",
    }
}

/// Appends the decimal numeral of `n` to `s`.
fn append_decimal(s: &mut String, n: u32)
    ensures
        final(s)@ == old(s)@ + decimal(n as nat),
    decreases n,
{
    if n >= 10 {
        append_decimal(s, n / 10);
    }
    s.append(digit_str(n % 10));
    assert(s@ =~= old(s)@ + decimal(n as nat));
}

/// The mathematical value of a [`Location`].
pub struct LocationView {
    pub file: Seq<char>,
    pub line: u32,
    pub column: u32,
}

/// A source position: file, line and column, the two numbers counted from 1.
#[derive(Debug)]
pub struct Location {
    file: String,
    line: u32,
    column: u32,
}

impl View for Location {
    type V = LocationView;

    closed spec fn view(&self) -> LocationView {
        LocationView { file: self.file@, line: self.line, column: self.column }
    }
}

impl Location {
    #[verifier::type_invariant]
    spec fn counted_from_one(&self) -> bool {
        self.line >= 1 && self.column >= 1
    }

    /// The position `file:[line:column]`.
    pub fn new(file: String, line: u32, column: u32) -> (r: Location)
        requires
            line >= 1,
            column >= 1,
        ensures
            r@ == (LocationView { file: file@, line, column }),
    {
        Location { file, line, column }
    }

    pub fn file(&self) -> (r: &str)
        ensures
            r@ == self@.file,
    {
        self.file.as_str()
    }

    pub fn line(&self) -> (r: u32)
        ensures
            r == self@.line,
            r >= 1,
    {
        proof {
            use_type_invariant(self);
        }
        self.line
    }

    pub fn column(&self) -> (r: u32)
        ensures
            r == self@.column,
            r >= 1,
    {
        proof {
            use_type_invariant(self);
        }
        self.column
    }

    /// Appends how this location reads to `s`.
    pub(crate) fn append_text(&self, s: &mut String)
        ensures
            final(s)@ == old(s)@ + location_text(self@),
    {
        s.append("\x1b[90m");
        s.append(self.file.as_str());
        s.append(":[");
        append_decimal(s, self.line);
        s.append(":");
        append_decimal(s, self.column);
        s.append("]\x1b[0m");
        assert(s@ =~= old(s)@ + location_text(self@));
    }
}

} // verus!
