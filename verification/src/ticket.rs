//! Presenting this node's connection ticket.
//!
//! A peer joins by consuming the ticket, so the connect screen shows it
//! both as text and — when it fits — as a QR code rendered to SVG.

use vstd::prelude::*;
use fast_qr::convert::Builder;

verus! {

/// The rounded-square SVG rendering of a QR code for the given text,
/// where one can be built: whether building succeeds, and what it
/// renders, are both conditions of the content alone — it fails exactly
/// when the content exceeds what a QR code can hold.
pub uninterp spec fn qr_svg_of(content: Seq<char>) -> Option<Seq<char>>;

/// Relies on fast_qr's `QRBuilder` and `SvgBuilder`: building and
/// rendering read nothing but the encoded text, so the whole outcome is
/// the named function of the content.
#[verifier::external_body]
fn qr_svg(content: &String) -> (r: Option<String>)
    ensures
        match r {
            Some(s) => qr_svg_of(content@) == Some(s@),
            None => qr_svg_of(content@) is None,
        },
{
    match fast_qr::qr::QRBuilder::new(content.as_str()).build() {
        Ok(code) => Some(
            fast_qr::convert::svg::SvgBuilder::default().shape(
                fast_qr::convert::Shape::RoundedSquare,
            ).to_str(&code),
        ),
        Err(_) => None,
    }
}

/// What the connect screen shows for this node's ticket.
#[derive(Debug, PartialEq, Eq)]
pub struct TicketDisplay {
    /// The serialized ticket, verbatim, for copying by hand.
    pub ticket: String,
    /// Its QR rendering, where the ticket fits a QR code.
    pub qr_svg: Option<String>,
}

/// Builds the display of a freshly produced ticket: the text is shown
/// unchanged, and the QR rendering is attached exactly when the ticket
/// fits a QR code.
pub fn ticket_display(ticket: String) -> (r: TicketDisplay)
    ensures
        r.ticket == ticket,
        r.qr_svg is Some <==> qr_svg_of(ticket@) is Some,
        r.qr_svg matches Some(s) ==> qr_svg_of(ticket@) == Some(s@),
{
    let qr = qr_svg(&ticket);
    TicketDisplay { ticket, qr_svg: qr }
}

} // verus!
