//! Addresses that requests are sent to. The adapters write them as text; a
//! text that is no URL is a defect of the program and is told apart here.

use vstd::prelude::*;

verus! {

/// Whether `text` is an absolute URL, as `reqwest::Url::parse` reads it.
pub uninterp spec fn is_url(text: Seq<char>) -> bool;

/// Calls `reqwest::Url::parse` and tells whether it gave a URL or an error.
///
/// Trusted: whether a text parses depends on the text alone. Which texts
/// parse is not stated.
#[verifier::external_body]
fn parses_as_url(text: &str) -> (ok: bool)
    ensures
        ok == is_url(text@),
{
    reqwest::Url::parse(text).is_ok()
}

/// An address that was looked at.
#[derive(Debug, Clone)]
pub enum Address {
    /// The text is a URL: a request can be sent to it.
    Url(String),
    /// The text is no URL.
    Malformed(String),
}

/// What an [`Address`] holds.
pub enum AddressView {
    Url(Seq<char>),
    Malformed(Seq<char>),
}

impl View for Address {
    type V = AddressView;

    open spec fn view(&self) -> AddressView {
        match self {
            Address::Url(text) => AddressView::Url(text@),
            Address::Malformed(text) => AddressView::Malformed(text@),
        }
    }
}

/// The address that `text` is, given whether it is a URL.
pub open spec fn address_of(text: Seq<char>, well_formed: bool) -> AddressView {
    if well_formed {
        AddressView::Url(text)
    } else {
        AddressView::Malformed(text)
    }
}

/// The address that `text` is.
pub open spec fn checked(text: Seq<char>) -> AddressView {
    address_of(text, is_url(text))
}

impl Address {
    /// Files `text` under what was found of it: `well_formed` says whether it
    /// is a URL.
    pub fn from_finding(text: String, well_formed: bool) -> (address: Address)
        ensures
            address@ == address_of(text@, well_formed),
    {
        if well_formed {
            Address::Url(text)
        } else {
            Address::Malformed(text)
        }
    }

    /// Finds out whether `text` is a URL and files it accordingly. The text is
    /// kept as it stands either way.
    pub fn check(text: String) -> (address: Address)
        ensures
            address@ == checked(text@),
    {
        let well_formed = parses_as_url(text.as_str());
        Address::from_finding(text, well_formed)
    }
}

} // verus!
