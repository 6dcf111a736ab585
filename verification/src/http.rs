//! What a request handler answers, as plain values. Turning a `Reply` into a
//! response on the wire is the server's work.

use vstd::prelude::*;

verus! {

/// The content type of a page.
#[derive(Debug, Clone, Copy, PartialEq, Eq, Structural)]
pub enum ContentType {
    /// `text/html`
    Html,
    /// `text/plain`
    Plain,
}

/// The answer of a request handler.
#[derive(Debug)]
pub enum Reply {
    /// 200, with a body of the given type.
    Page { content_type: ContentType, body: String },
    /// 302, with the address to go to.
    Found { location: String },
    /// 404, with the reason.
    NotFound { reason: String },
}

/// A `Reply` as mathematics.
pub enum ReplyView {
    Page { content_type: ContentType, body: Seq<char> },
    Found { location: Seq<char> },
    NotFound { reason: Seq<char> },
}

impl View for Reply {
    type V = ReplyView;

    open spec fn view(&self) -> ReplyView {
        match *self {
            Reply::Page { content_type, body } => ReplyView::Page { content_type, body: body@ },
            Reply::Found { location } => ReplyView::Found { location: location@ },
            Reply::NotFound { reason } => ReplyView::NotFound { reason: reason@ },
        }
    }
}

/// The decimal digit for a number below ten.
pub open spec fn digit(n: nat) -> char
    recommends
        n < 10,
{
    if n == 0 {
        '0'
    } else if n == 1 {
        '1'
    } else if n == 2 {
        '2'
    } else if n == 3 {
        '3'
    } else if n == 4 {
        '4'
    } else if n == 5 {
        '5'
    } else if n == 6 {
        '6'
    } else if n == 7 {
        '7'
    } else if n == 8 {
        '8'
    } else {
        '9'
    }
}

/// A number in decimal, without sign or leading zeros.
pub open spec fn decimal(n: nat) -> Seq<char>
    decreases n,
{
    if n < 10 {
        seq![digit(n)]
    } else {
        decimal(n / 10).push(digit(n % 10))
    }
}

/// `Display` for `u64`, through `format!`: the number in decimal.
#[verifier::external_body]
pub(crate) fn decimal_string(value: u64) -> (text: String)
    ensures
        text@ == decimal(value as nat),
{
    format!("{}", value)
}

} // verus!
