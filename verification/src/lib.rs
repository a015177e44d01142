//! Decoding of UIC rail ticket barcodes: the TLB ("#UT") container with its
//! records, the DOSIPAS barcode header, and the checking of their signatures
//! against a database of issuer keys.

pub mod dosipas;
pub mod flex;
pub mod helpers;
pub mod pretix;
pub mod sig;
pub mod tlb;
pub mod tlb_records;

use vstd::prelude::*;

use crate::dosipas::{
    ticket_from_header, DosipasTicket, DosipasTicketView, HeaderVersion, UicBarcodeHeader,
    UicBarcodeHeaderView,
};
use crate::tlb::{magic_ut, ticket_at, TicketView as TlbTicketView};

verus! {

/// Why a barcode could not be read.
#[derive(Debug, Clone)]
pub enum Error {
    /// The data is neither a TLB ticket nor a DOSIPAS barcode header.
    UnknownBarcodeType,
    /// The data does not read as the format it claims.
    InvalidFormat(String),
    /// A key or signature library refused its input; the text is its message.
    CryptographyError(String),
    /// The data is well formed but of a kind this library does not handle.
    UnsupportedData(String),
}

/// The value of an `Error`.
pub enum ErrorView {
    UnknownBarcodeType,
    InvalidFormat(Seq<char>),
    CryptographyError(Seq<char>),
    UnsupportedData(Seq<char>),
}

impl View for Error {
    type V = ErrorView;

    open spec fn view(&self) -> ErrorView {
        match self {
            Error::UnknownBarcodeType => ErrorView::UnknownBarcodeType,
            Error::InvalidFormat(m) => ErrorView::InvalidFormat(m@),
            Error::CryptographyError(m) => ErrorView::CryptographyError(m@),
            Error::UnsupportedData(m) => ErrorView::UnsupportedData(m@),
        }
    }
}

/// The text that describes an error.
pub open spec fn error_message(e: Error) -> Seq<char> {
    match e {
        Error::UnknownBarcodeType => "unknown barcode type"@,
        Error::InvalidFormat(m) => "invalid barcode format: "@ + m@,
        Error::CryptographyError(m) => "cryptography error: "@ + m@,
        Error::UnsupportedData(m) => "unsupported data: "@ + m@,
    }
}

impl Error {
    /// The text that describes the error.
    pub fn message(&self) -> (text: String)
        ensures
            text@ == error_message(*self),
    {
        match self {
            Error::UnknownBarcodeType => String::from_str("unknown barcode type"),
            Error::InvalidFormat(m) => String::from_str("invalid barcode format: ").concat(
                m.as_str(),
            ),
            Error::CryptographyError(m) => String::from_str("cryptography error: ").concat(
                m.as_str(),
            ),
            Error::UnsupportedData(m) => String::from_str("unsupported data: ").concat(m.as_str()),
        }
    }
}

/// The value of a result whose error is an `Error`.
pub open spec fn result_view<T: View>(r: Result<T, Error>) -> Result<T::V, ErrorView> {
    match r {
        Ok(v) => Ok(v@),
        Err(e) => Err(e@),
    }
}

/// A UIC ticket barcode.
#[derive(Clone)]
#[non_exhaustive]
pub enum Ticket {
    UicTlbTicket(tlb::Ticket),
    UicDosipasTicket(DosipasTicket),
}

/// The value of a `Ticket`.
pub enum TicketView {
    UicTlbTicket(TlbTicketView),
    UicDosipasTicket(DosipasTicketView),
}

impl View for Ticket {
    type V = TicketView;

    open spec fn view(&self) -> TicketView {
        match self {
            Ticket::UicTlbTicket(t) => TicketView::UicTlbTicket(t@),
            Ticket::UicDosipasTicket(t) => TicketView::UicDosipasTicket(t@),
        }
    }
}

/// The message for data that starts as a TLB ticket but does not read as one.
pub open spec fn tlb_error_message() -> Seq<char> {
    "malformed TLB ticket"@
}

/// Whether `data` starts with the TLB magic `#UT`.
pub open spec fn starts_as_tlb(data: Seq<u8>) -> bool {
    data.len() >= 3 && data.take(3) == magic_ut()
}

/// The DOSIPAS ticket that a barcode header of the given version makes, as
/// a ticket.
pub open spec fn dosipas_ticket(h: UicBarcodeHeaderView, version: HeaderVersion) -> Result<
    TicketView,
    ErrorView,
> {
    match ticket_from_header(h, version) {
        Ok(t) => Ok(TicketView::UicDosipasTicket(t)),
        Err(e) => Err(e),
    }
}

/// The ticket that the barcode `data` holds.  Data that starts with `#UT`
/// is a TLB ticket; other data is a DOSIPAS barcode, read from the version 2
/// header that its UPER decoding gives (`header_v2`) or, failing that
/// decoding, from the version 1 header (`header_v1`); data that decodes as
/// neither is of no known type.
pub open spec fn ticket_of(
    data: Seq<u8>,
    header_v2: Option<UicBarcodeHeaderView>,
    header_v1: Option<UicBarcodeHeaderView>,
) -> Result<TicketView, ErrorView> {
    if starts_as_tlb(data) {
        match ticket_at(data) {
            Some(t) => Ok(TicketView::UicTlbTicket(t)),
            None => Err(ErrorView::InvalidFormat(tlb_error_message())),
        }
    } else {
        match header_v2 {
            Some(h) => dosipas_ticket(h, HeaderVersion::V2),
            None => match header_v1 {
                Some(h) => dosipas_ticket(h, HeaderVersion::V1),
                None => Err(ErrorView::UnknownBarcodeType),
            },
        }
    }
}

impl Ticket {
    /// Reads the barcode `data`.  The UPER decoding of a DOSIPAS barcode
    /// header is not done here: `header_v2` and `header_v1` are what the
    /// data decodes to as a version 2 and as a version 1 header, if it does.
    pub fn parse(
        data: &[u8],
        header_v2: Option<UicBarcodeHeader>,
        header_v1: Option<UicBarcodeHeader>,
    ) -> (res: Result<Ticket, Error>)
        ensures
            result_view(res) == ticket_of(data@, opt_view(header_v2), opt_view(header_v1)),
    {
        let magic: [u8; 3] = [0x23u8, 0x55, 0x54];
        assert(magic@ =~= magic_ut());
        if data.len() >= 3 && helpers::bytes_eq(
            vstd::slice::slice_subrange(data, 0, 3),
            magic.as_slice(),
        ) {
            assert(data@.subrange(0, 3) =~= data@.take(3));
            match tlb::Ticket::read(data) {
                Some(t) => Ok(Ticket::UicTlbTicket(t)),
                None => Err(Error::InvalidFormat(String::from_str("malformed TLB ticket"))),
            }
        } else {
            proof {
                if data@.len() >= 3 {
                    assert(data@.subrange(0, 3) =~= data@.take(3));
                }
            }
            match header_v2 {
                Some(h) => match DosipasTicket::try_from_v2(h) {
                    Ok(t) => Ok(Ticket::UicDosipasTicket(t)),
                    Err(e) => Err(e),
                },
                None => match header_v1 {
                    Some(h) => match DosipasTicket::try_from_v1(h) {
                        Ok(t) => Ok(Ticket::UicDosipasTicket(t)),
                        Err(e) => Err(e),
                    },
                    None => Err(Error::UnknownBarcodeType),
                },
            }
        }
    }
}

/// A barcode that starts with `#UT` reads as a TLB ticket or not at all,
/// and any other barcode never reads as a TLB ticket.
pub proof fn law_magic_decides_kind(
    data: Seq<u8>,
    header_v2: Option<UicBarcodeHeaderView>,
    header_v1: Option<UicBarcodeHeaderView>,
)
    ensures
        ticket_of(data, header_v2, header_v1) matches Ok(t) ==> (t is UicTlbTicket
            <==> starts_as_tlb(data)),
{
}

/// A barcode that is not a TLB ticket and decodes as no barcode header is
/// of no known type.
pub proof fn law_unknown_barcode(data: Seq<u8>)
    requires
        !starts_as_tlb(data),
    ensures
        ticket_of(data, None, None) == Err::<TicketView, ErrorView>(ErrorView::UnknownBarcodeType),
{
}

/// The value of an optional value.
pub open spec fn opt_view<T: View>(o: Option<T>) -> Option<T::V> {
    match o {
        Some(t) => Some(t@),
        None => None,
    }
}

} // verus!
