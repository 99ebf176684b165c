use crate::location::{location_text, Location, LocationView};
use vstd::prelude::*;
use vstd::string::*;

verus! {

/// The mathematical value of an [`Error`]: its message, where it was raised, and the
/// textual representations of its causes, nearest first.
pub struct ErrorView {
    pub message: Option<Seq<char>>,
    pub location: LocationView,
    pub causes: Seq<Seq<char>>,
}

/// A freshly raised error: a message or none, a location, and no cause.
pub open spec fn raised(message: Option<Seq<char>>, location: LocationView) -> ErrorView {
    ErrorView { message, location, causes: Seq::empty() }
}

/// `e` with its message replaced by `context`.
pub open spec fn relabeled(e: ErrorView, context: Seq<char>) -> ErrorView {
    ErrorView { message: Some(context), ..e }
}

/// `e` with its causes replaced by the chain `cause`.
pub open spec fn caused_by(e: ErrorView, cause: Seq<Seq<char>>) -> ErrorView {
    ErrorView { causes: cause, ..e }
}

/// The first line of a rendering: the message and four spaces, if there is a message,
/// then the location.
pub open spec fn head_text(e: ErrorView) -> Seq<char> {
    match e.message {
        Some(m) => m + "    "@ + location_text(e.location),
        None => location_text(e.location),
    }
}

/// One line `Caused by: <text>` for each cause, each after a line break.
pub open spec fn causes_text(causes: Seq<Seq<char>>) -> Seq<char>
    decreases causes.len(),
{
    if causes.len() == 0 {
        Seq::empty()
    } else {
        causes_text(causes.drop_last()) + "\nCaused by: "@ + causes.last()
    }
}

/// The full rendering of an error and its chain of causes.
pub open spec fn render(e: ErrorView) -> Seq<char> {
    head_text(e) + causes_text(e.causes)
}

/// The chain of an error as text: the error itself, then each cause in turn.
pub open spec fn chain_of(e: ErrorView) -> Seq<Seq<char>> {
    seq![render(e)] + e.causes
}

/// An error of another kind, kept as the chain of its textual representations: the
/// error itself first, then its cause, its cause's cause, and so on.
#[derive(Debug)]
pub struct Cause {
    links: Vec<String>,
}

impl View for Cause {
    type V = Seq<Seq<char>>;

    closed spec fn view(&self) -> Seq<Seq<char>> {
        self.links@.map_values(|t: String| t@)
    }
}

impl Cause {
    #[verifier::type_invariant]
    spec fn nonempty(&self) -> bool {
        self.links.len() > 0
    }

    /// An error with the textual representation `text` and no further cause.
    pub fn new(text: String) -> (r: Cause)
        ensures
            r@ == seq![text@],
    {
        let r = Cause { links: vec![text] };
        assert(r@ =~= seq![text@]);
        r
    }

    /// An error with the textual representation `text` whose cause is `source`.
    pub fn with_source(text: String, source: Cause) -> (r: Cause)
        ensures
            r@ == seq![text@] + source@,
    {
        let mut links = vec![text];
        let mut rest = source.links;
        links.append(&mut rest);
        let r = Cause { links };
        assert(r@ =~= seq![text@] + source@);
        r
    }

    /// The textual representation of the error itself.
    pub fn text(&self) -> (r: &str)
        ensures
            self@.len() >= 1,
            r@ == self@[0],
    {
        proof {
            use_type_invariant(self);
        }
        self.links[0].as_str()
    }

    /// The number of errors in the chain, the first included.
    pub fn len(&self) -> (r: usize)
        ensures
            r == self@.len(),
            r >= 1,
    {
        proof {
            use_type_invariant(self);
        }
        self.links.len()
    }
}

/// An error: an optional message, the location where it was raised, and an optional
/// cause of another kind.
#[derive(Debug)]
pub struct Error {
    context: Option<String>,
    source: Option<Cause>,
    location: Location,
}

impl View for Error {
    type V = ErrorView;

    closed spec fn view(&self) -> ErrorView {
        ErrorView {
            message: match self.context {
                Some(c) => Some(c@),
                None => None,
            },
            location: self.location@,
            causes: match self.source {
                Some(c) => c@,
                None => Seq::empty(),
            },
        }
    }
}

impl Error {
    /// An error with the message `context`, if any, raised at `location`, with no cause.
    pub fn new(context: Option<String>, location: Location) -> (r: Error)
        ensures
            r@ == raised(
                match context {
                    Some(c) => Some(c@),
                    None => None,
                },
                location@,
            ),
    {
        Error { context, location, source: None }
    }

    /// This error with its message replaced by `context`; location and cause are kept.
    pub fn context(self, context: String) -> (r: Error)
        ensures
            r@ == relabeled(self@, context@),
    {
        Error { context: Some(context), ..self }
    }

    /// This error with its cause set to `source`, in place of any earlier cause.
    pub fn chain(self, source: Cause) -> (r: Error)
        ensures
            r@ == caused_by(self@, source@),
    {
        Error { source: Some(source), ..self }
    }

    /// The rendering of this error and its chain of causes.
    pub fn to_string(&self) -> (r: String)
        ensures
            r@ == render(self@),
    {
        let mut s = String::new();
        if let Some(c) = &self.context {
            s.append(c.as_str());
            s.append("    ");
        }
        self.location.append_text(&mut s);
        assert(s@ =~= head_text(self@));
        if let Some(c) = &self.source {
            let mut i: usize = 0;
            while i < c.links.len()
                invariant
                    i <= c.links.len(),
                    c@ == self@.causes,
                    s@ == head_text(self@) + causes_text(c@.take(i as int)),
                decreases c.links.len() - i,
            {
                s.append("\nCaused by: ");
                s.append(c.links[i].as_str());
                proof {
                    let next = c@.take(i + 1);
                    assert(next.drop_last() =~= c@.take(i as int));
                    assert(next.last() == c@[i as int]);
                }
                i = i + 1;
                assert(s@ =~= head_text(self@) + causes_text(c@.take(i as int)));
            }
            assert(c@.take(i as int) =~= c@);
        } else {
            assert(self@.causes =~= Seq::<Seq<char>>::empty());
        }
        s
    }

    /// This error as the cause of another: its own rendering, then its causes.
    pub fn into_cause(self) -> (r: Cause)
        ensures
            r@ == seq![render(self@)] + self@.causes,
    {
        let text = self.to_string();
        match self.source {
            Some(source) => Cause::with_source(text, source),
            None => {
                let r = Cause::new(text);
                assert(r@ =~= seq![render(self@)] + self@.causes);
                r
            },
        }
    }

    /// A walk over the chain of this error: the error itself, then each cause in turn.
    pub fn chain_iter(&self) -> (r: ChainIter<'_>)
        ensures
            r@ == chain_of(self@),
    {
        let r = ChainIter { error: self, root_done: false, next_link: 0 };
        assert(r@ =~= chain_of(self@));
        r
    }

    /// The message of this error, if it has one.
    pub fn message(&self) -> (r: Option<&str>)
        ensures
            match r {
                Some(m) => self@.message == Some(m@),
                None => self@.message is None,
            },
    {
        match &self.context {
            Some(c) => Some(c.as_str()),
            None => None,
        }
    }

    /// Where this error was raised.
    pub fn location(&self) -> (r: &Location)
        ensures
            r@ == self@.location,
    {
        &self.location
    }

    /// The direct cause of this error, if it has one.
    pub fn source(&self) -> (r: Option<&Cause>)
        ensures
            match r {
                Some(c) => c@ == self@.causes,
                None => self@.causes.len() == 0,
            },
    {
        match &self.source {
            Some(c) => Some(c),
            None => None,
        }
    }
}

/// A forward walk over the chain of an [`Error`]; it leaves the error unchanged.
pub struct ChainIter<'a> {
    error: &'a Error,
    root_done: bool,
    next_link: usize,
}

impl<'a> ChainIter<'a> {
    #[verifier::type_invariant]
    spec fn within_chain(&self) -> bool {
        &&& self.next_link <= self.error@.causes.len()
        &&& !self.root_done ==> self.next_link == 0
    }

    closed spec fn position(&self) -> int {
        if self.root_done {
            self.next_link + 1
        } else {
            0
        }
    }
}

impl<'a> View for ChainIter<'a> {
    type V = Seq<Seq<char>>;

    /// What the walk has still to yield.
    closed spec fn view(&self) -> Seq<Seq<char>> {
        chain_of(self.error@).skip(self.position())
    }
}

impl<'a> ChainIter<'a> {
    /// The textual representation of the next element of the chain, or `None` at its end.
    pub fn next(&mut self) -> (r: Option<String>)
        ensures
            old(self)@.len() == 0 ==> r is None && final(self)@ == old(self)@,
            old(self)@.len() > 0 ==> r is Some && r->Some_0@ == old(self)@[0] && final(self)@
                == old(self)@.drop_first(),
    {
        proof {
            use_type_invariant(&*self);
        }
        let ghost before = self@;
        if !self.root_done {
            self.root_done = true;
            assert(self@ =~= before.drop_first());
            return Some(self.error.to_string());
        }
        match &self.error.source {
            None => {
                assert(before =~= Seq::<Seq<char>>::empty());
                None
            },
            Some(c) => {
                if self.next_link < c.links.len() {
                    let t = c.links[self.next_link].clone();
                    self.next_link = self.next_link + 1;
                    assert(self@ =~= before.drop_first());
                    Some(t)
                } else {
                    assert(before =~= Seq::<Seq<char>>::empty());
                    None
                }
            },
        }
    }
}

} // verus!
