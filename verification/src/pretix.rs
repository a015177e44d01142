//! pretix ticket records: an ASN.1 UPER encoding of the pretix ticket data,
//! kept here as the encoded bytes.

use vstd::prelude::*;

verus! {

/// The UPER-encoded content of a pretix ticket record.
#[derive(Clone, Debug)]
pub struct PretixTicket {
    pub data: Vec<u8>,
}

/// The content of a pretix record: the `record_length` bytes at `pos`.
pub open spec fn pretix_record_body(data: Seq<u8>, pos: int, record_length: int) -> Option<
    (Seq<u8>, int),
> {
    if 0 <= pos && 0 <= record_length && pos + record_length <= data.len() {
        Some((data.subrange(pos, pos + record_length), pos + record_length))
    } else {
        None
    }
}

/// Reads the content of a pretix record, `record_length` bytes at `pos`.
pub fn parse_pretix_ticket_tlv(data: &[u8], pos: usize, record_length: usize) -> (res: Option<
    (PretixTicket, usize),
>)
    ensures
        match res {
            Some((t, next)) => pretix_record_body(data@, pos as int, record_length as int) == Some(
                (t.data@, next as int),
            ),
            None => pretix_record_body(data@, pos as int, record_length as int) is None,
        },
{
    if pos > data.len() || record_length > data.len() - pos {
        return None;
    }
    let body = vstd::slice::slice_to_vec(vstd::slice::slice_subrange(data, pos, pos + record_length));
    Some((PretixTicket { data: body }, pos + record_length))
}

} // verus!
