//! Pieces of styled text.

use crate::text::{decimal, push_decimal};
use vstd::prelude::*;

verus! {

/// How a piece of text is to be shown.
#[derive(Debug, Clone, Copy, PartialEq, Eq, Structural)]
pub enum Style {
    /// As it is.
    Plain,
    /// In bold.
    Bold,
    /// In red.
    Red,
    /// In green.
    Green,
    /// In yellow.
    Yellow,
    /// In blue.
    Blue,
    /// In red and bold.
    RedBold,
}

/// A piece of text and its style.
#[derive(Debug)]
pub struct Span {
    /// The text.
    pub text: String,
    /// How it is to be shown.
    pub style: Style,
}

/// The pieces that a list of spans holds.
pub open spec fn pieces(v: Seq<Span>) -> Seq<(Seq<char>, Style)> {
    Seq::new(v.len(), |i: int| (v[i].text@, v[i].style))
}

/// The style `style` where colour is wanted, no style where it is not.
pub open spec fn styled(plain: bool, style: Style) -> Style {
    if plain {
        Style::Plain
    } else {
        style
    }
}

/// A line of `width` heavy dashes.
pub open spec fn ruler(width: nat) -> Seq<char> {
    Seq::new(width, |i: int| '━')
}

/// Adds a piece to `out`.
pub fn put(out: &mut Vec<Span>, text: &str, style: Style)
    ensures
        pieces(final(out)@) == pieces(old(out)@).push((text@, style)),
{
    out.push(Span { text: String::from_str(text), style });
    assert(pieces(out@) =~= pieces(old(out)@).push((text@, style)));
}

/// Adds a number to `out`, in base ten.
pub fn put_number(out: &mut Vec<Span>, n: u64, style: Style)
    ensures
        pieces(final(out)@) == pieces(old(out)@).push((decimal(n as nat), style)),
{
    let mut text = String::new();
    push_decimal(&mut text, n);
    assert(Seq::<char>::empty() + decimal(n as nat) =~= decimal(n as nat));
    out.push(Span { text, style });
    assert(pieces(out@) =~= pieces(old(out)@).push((decimal(n as nat), style)));
}

/// A line of `width` heavy dashes.
pub fn make_ruler(width: usize) -> (r: String)
    ensures
        r@ == ruler(width as nat),
{
    let mut out = String::new();
    let mut i: usize = 0;
    proof {
        reveal_strlit("━");
    }
    assert(out@ =~= ruler(0));
    while i < width
        invariant
            i <= width,
            out@ == ruler(i as nat),
            "━"@ == seq!['━'],
        decreases width - i,
    {
        out.append("━");
        assert(out@ =~= ruler((i + 1) as nat));
        i += 1;
    }
    out
}

} // verus!
