//! The records inside a TLB ticket's payload: the ticket header (`U_HEAD`),
//! the ticket layout (`U_TLAY`), flexible content (`U_FLEX`), pretix tickets
//! (`5101PX`) and any other record, kept as it stands.

use vstd::prelude::*;
use vstd::slice::{slice_subrange, slice_to_vec};

use crate::flex::{parse_flex_tlv, flex_record_body, FlexData, FlexDataView};
use crate::pretix::{parse_pretix_ticket_tlv, pretix_record_body, PretixTicket};
pub use crate::helpers::{
    EditionTime, FixedLengthString, FixedLengthStringNumber, FixedLengthStringStripSpace,
    FixedLengthStringStripSpaceZero, LengthPrefixedString,
};
use crate::helpers::{
    bytes_eq, edition_time_field, field_at, length_prefixed_field, lossy_text, number_field,
    space_pad, space_zero_pad, text_field, text_of,
};

verus! {

// Record identifiers and versions, as bytes.
/// `U_HEAD`
pub open spec fn id_u_head() -> Seq<u8> {
    seq![0x55u8, 0x5f, 0x48, 0x45, 0x41, 0x44]
}

/// `U_TLAY`
pub open spec fn id_u_tlay() -> Seq<u8> {
    seq![0x55u8, 0x5f, 0x54, 0x4c, 0x41, 0x59]
}

/// `U_FLEX`
pub open spec fn id_u_flex() -> Seq<u8> {
    seq![0x55u8, 0x5f, 0x46, 0x4c, 0x45, 0x58]
}

/// `5101PX`
pub open spec fn id_pretix() -> Seq<u8> {
    seq![0x35u8, 0x31, 0x30, 0x31, 0x50, 0x58]
}

/// `1`
pub open spec fn version_1() -> Seq<u8> {
    seq![0x31u8]
}

/// `13`
pub open spec fn version_13() -> Seq<u8> {
    seq![0x31u8, 0x33]
}

/// `2`
pub open spec fn version_2() -> Seq<u8> {
    seq![0x32u8]
}

/// `3`
pub open spec fn version_3() -> Seq<u8> {
    seq![0x33u8]
}

/// The flags byte of the ticket header: its three low bits, lowest first.
#[derive(Clone, Copy, PartialEq, Eq, Debug)]
pub struct HeaderFlags {
    pub international_ticket: bool,
    pub edited_by_agent: bool,
    pub specimen: bool,
    /// The five high bits, which carry no meaning.
    pub unused: u8,
}

/// The header flags that the byte `b` holds.
pub open spec fn header_flags_of(b: u8) -> HeaderFlags {
    HeaderFlags {
        international_ticket: b & 1 != 0,
        edited_by_agent: b & 2 != 0,
        specimen: b & 4 != 0,
        unused: b >> 3,
    }
}

impl HeaderFlags {
    pub fn from_byte(b: u8) -> (flags: Self)
        ensures
            flags == header_flags_of(b),
    {
        HeaderFlags {
            international_ticket: b & 1 != 0,
            edited_by_agent: b & 2 != 0,
            specimen: b & 4 != 0,
            unused: b >> 3,
        }
    }
}

/// The formatting byte of a layout field: its three low bits, lowest first.
#[derive(Clone, Copy, PartialEq, Eq, Debug)]
pub struct TlayFieldFormatting {
    pub bold: bool,
    pub italic: bool,
    pub small: bool,
    /// The five high bits, which carry no meaning.
    pub unused: u8,
}

/// The layout field formatting that the byte `b` holds.
pub open spec fn field_formatting_of(b: u8) -> TlayFieldFormatting {
    TlayFieldFormatting { bold: b & 1 != 0, italic: b & 2 != 0, small: b & 4 != 0, unused: b >> 3 }
}

impl TlayFieldFormatting {
    pub fn from_byte(b: u8) -> (format: Self)
        ensures
            format == field_formatting_of(b),
    {
        TlayFieldFormatting {
            bold: b & 1 != 0,
            italic: b & 2 != 0,
            small: b & 4 != 0,
            unused: b >> 3,
        }
    }
}

/// The byte at `pos`, if there is one.
pub open spec fn byte_at(data: Seq<u8>, pos: int) -> Option<u8> {
    if 0 <= pos < data.len() {
        Some(data[pos])
    } else {
        None
    }
}

fn read_byte(data: &[u8], pos: usize) -> (res: Option<(u8, usize)>)
    ensures
        match res {
            Some((b, next)) => byte_at(data@, pos as int) == Some(b) && next == pos + 1,
            None => byte_at(data@, pos as int) is None,
        },
{
    if pos < data.len() {
        Some((data[pos], pos + 1))
    } else {
        None
    }
}

/// The ticket header record (`U_HEAD`).
#[derive(Clone)]
pub struct Header {
    pub distributor_rics: FixedLengthStringStripSpaceZero<4>,
    pub ticket_id: FixedLengthStringStripSpace<20>,
    pub edition_time: EditionTime,
    pub flags: HeaderFlags,
    pub language: FixedLengthStringStripSpace<2>,
    pub second_language: FixedLengthStringStripSpace<2>,
}

/// The value of a `Header`.
pub struct HeaderView {
    pub distributor_rics: Seq<u8>,
    pub ticket_id: Seq<u8>,
    pub edition_time: EditionTime,
    pub flags: HeaderFlags,
    pub language: Seq<u8>,
    pub second_language: Seq<u8>,
}

impl View for Header {
    type V = HeaderView;

    open spec fn view(&self) -> HeaderView {
        HeaderView {
            distributor_rics: self.distributor_rics@,
            ticket_id: self.ticket_id@,
            edition_time: self.edition_time,
            flags: self.flags,
            language: self.language@,
            second_language: self.second_language@,
        }
    }
}

/// The ticket header at `pos`, and the position after it: 41 bytes.
pub open spec fn header_at(data: Seq<u8>, pos: int) -> Option<(HeaderView, int)> {
    match (
        text_field(data, pos, 4, space_zero_pad()),
        text_field(data, pos + 4, 20, space_pad()),
        edition_time_field(data, pos + 24),
        byte_at(data, pos + 36),
        text_field(data, pos + 37, 2, space_pad()),
        text_field(data, pos + 39, 2, space_pad()),
    ) {
        (Some(rics), Some(id), Some(time), Some(flags), Some(lang), Some(lang2)) => Some(
            (
                HeaderView {
                    distributor_rics: rics,
                    ticket_id: id,
                    edition_time: time,
                    flags: header_flags_of(flags),
                    language: lang,
                    second_language: lang2,
                },
                pos + 41,
            ),
        ),
        _ => None,
    }
}

impl Header {
    /// Reads the header at `pos`; gives it and the position after it.
    pub fn read(data: &[u8], pos: usize) -> (res: Option<(Self, usize)>)
        ensures
            match res {
                Some((h, next)) => header_at(data@, pos as int) == Some((h@, next as int)),
                None => header_at(data@, pos as int) is None,
            },
    {
        let (distributor_rics, p) = match FixedLengthStringStripSpaceZero::<4>::read(data, pos) {
            Some(r) => r,
            None => return None,
        };
        let (ticket_id, p) = match FixedLengthStringStripSpace::<20>::read(data, p) {
            Some(r) => r,
            None => return None,
        };
        let (edition_time, p) = match EditionTime::read(data, p) {
            Some(r) => r,
            None => return None,
        };
        let (flags, p) = match read_byte(data, p) {
            Some(r) => r,
            None => return None,
        };
        let (language, p) = match FixedLengthStringStripSpace::<2>::read(data, p) {
            Some(r) => r,
            None => return None,
        };
        let (second_language, p) = match FixedLengthStringStripSpace::<2>::read(data, p) {
            Some(r) => r,
            None => return None,
        };
        let h = Header {
            distributor_rics,
            ticket_id,
            edition_time,
            flags: HeaderFlags::from_byte(flags),
            language,
            second_language,
        };
        Some((h, p))
    }
}

/// A field of the ticket layout: its place on the ticket, its formatting and
/// its text.
#[derive(Clone)]
pub struct LayoutField {
    pub line: FixedLengthStringNumber<2>,
    pub column: FixedLengthStringNumber<2>,
    pub height: FixedLengthStringNumber<2>,
    pub width: FixedLengthStringNumber<2>,
    pub format: TlayFieldFormatting,
    pub text: LengthPrefixedString,
}

/// The value of a `LayoutField`.
pub struct LayoutFieldView {
    pub line: usize,
    pub column: usize,
    pub height: usize,
    pub width: usize,
    pub format: TlayFieldFormatting,
    pub text: Seq<char>,
}

impl View for LayoutField {
    type V = LayoutFieldView;

    open spec fn view(&self) -> LayoutFieldView {
        LayoutFieldView {
            line: self.line.0,
            column: self.column.0,
            height: self.height.0,
            width: self.width.0,
            format: self.format,
            text: self.text@,
        }
    }
}

/// The layout field at `pos`, and the position after it.
pub open spec fn layout_field_at(data: Seq<u8>, pos: int) -> Option<(LayoutFieldView, int)> {
    match (
        number_field(data, pos, 2),
        number_field(data, pos + 2, 2),
        number_field(data, pos + 4, 2),
        number_field(data, pos + 6, 2),
        byte_at(data, pos + 8),
        length_prefixed_field(data, pos + 9),
    ) {
        (Some(line), Some(column), Some(height), Some(width), Some(format), Some((text, next))) => Some(
            (
                LayoutFieldView {
                    line,
                    column,
                    height,
                    width,
                    format: field_formatting_of(format),
                    text,
                },
                next,
            ),
        ),
        _ => None,
    }
}

impl LayoutField {
    /// Reads the layout field at `pos`; gives it and the position after it.
    pub fn read(data: &[u8], pos: usize) -> (res: Option<(Self, usize)>)
        ensures
            match res {
                Some((f, next)) => layout_field_at(data@, pos as int) == Some((f@, next as int)),
                None => layout_field_at(data@, pos as int) is None,
            },
    {
        let (line, p) = match FixedLengthStringNumber::<2>::read(data, pos) {
            Some(r) => r,
            None => return None,
        };
        let (column, p) = match FixedLengthStringNumber::<2>::read(data, p) {
            Some(r) => r,
            None => return None,
        };
        let (height, p) = match FixedLengthStringNumber::<2>::read(data, p) {
            Some(r) => r,
            None => return None,
        };
        let (width, p) = match FixedLengthStringNumber::<2>::read(data, p) {
            Some(r) => r,
            None => return None,
        };
        let (format, p) = match read_byte(data, p) {
            Some(r) => r,
            None => return None,
        };
        let (text, p) = match LengthPrefixedString::read(data, p) {
            Some(r) => r,
            None => return None,
        };
        let f = LayoutField {
            line,
            column,
            height,
            width,
            format: TlayFieldFormatting::from_byte(format),
            text,
        };
        Some((f, p))
    }
}

/// The first `count` layout fields from `pos` on, and the position after
/// them.
pub open spec fn layout_fields_at(data: Seq<u8>, pos: int, count: nat) -> Option<
    (Seq<LayoutFieldView>, int),
>
    decreases count,
{
    if count == 0 {
        Some((Seq::empty(), pos))
    } else {
        match layout_fields_at(data, pos, (count - 1) as nat) {
            Some((fields, p)) => match layout_field_at(data, p) {
                Some((f, next)) => Some((fields.push(f), next)),
                None => None,
            },
            None => None,
        }
    }
}

proof fn lemma_layout_fields_fail(data: Seq<u8>, pos: int, k: nat, count: nat)
    requires
        k <= count,
        layout_fields_at(data, pos, k) is None,
    ensures
        layout_fields_at(data, pos, count) is None,
    decreases count - k,
{
    if k < count {
        lemma_layout_fields_fail(data, pos, k + 1, count);
    }
}

/// The ticket layout record (`U_TLAY`).
#[derive(Clone)]
pub struct Layout {
    pub layout_standard: FixedLengthStringStripSpace<4>,
    pub number_of_fields: FixedLengthStringNumber<4>,
    pub fields: Vec<LayoutField>,
}

/// The value of a `Layout`.
pub struct LayoutView {
    pub layout_standard: Seq<u8>,
    pub number_of_fields: usize,
    pub fields: Seq<LayoutFieldView>,
}

impl View for Layout {
    type V = LayoutView;

    open spec fn view(&self) -> LayoutView {
        LayoutView {
            layout_standard: self.layout_standard@,
            number_of_fields: self.number_of_fields.0,
            fields: self.fields@.map_values(|f: LayoutField| f@),
        }
    }
}

/// The ticket layout at `pos`, and the position after it.
pub open spec fn layout_at(data: Seq<u8>, pos: int) -> Option<(LayoutView, int)> {
    match (text_field(data, pos, 4, space_pad()), number_field(data, pos + 4, 4)) {
        (Some(standard), Some(count)) => match layout_fields_at(data, pos + 8, count as nat) {
            Some((fields, next)) => Some(
                (LayoutView { layout_standard: standard, number_of_fields: count, fields }, next),
            ),
            None => None,
        },
        _ => None,
    }
}

impl Layout {
    /// Reads the layout at `pos`; gives it and the position after it.
    pub fn read(data: &[u8], pos: usize) -> (res: Option<(Self, usize)>)
        ensures
            match res {
                Some((l, next)) => layout_at(data@, pos as int) == Some((l@, next as int)),
                None => layout_at(data@, pos as int) is None,
            },
    {
        let (layout_standard, p) = match FixedLengthStringStripSpace::<4>::read(data, pos) {
            Some(r) => r,
            None => return None,
        };
        let (number_of_fields, p) = match FixedLengthStringNumber::<4>::read(data, p) {
            Some(r) => r,
            None => return None,
        };
        let count = number_of_fields.0;
        let mut fields: Vec<LayoutField> = Vec::new();
        let mut p = p;
        let mut i: usize = 0;
        let ghost start = p as int;
        assert(start == pos + 8);
        assert(fields@.map_values(|f: LayoutField| f@) =~= Seq::<LayoutFieldView>::empty());
        while i < count
            invariant
                i <= count,
                start == pos + 8,
                text_field(data@, pos as int, 4, space_pad()) == Some(layout_standard@),
                number_field(data@, pos + 4, 4) == Some(count),
                number_of_fields.0 == count,
                layout_fields_at(data@, start, i as nat) == Some(
                    (fields@.map_values(|f: LayoutField| f@), p as int),
                ),
            decreases count - i,
        {
            match LayoutField::read(data, p) {
                Some((f, next)) => {
                    let ghost before = fields@;
                    fields.push(f);
                    assert(fields@.map_values(|f: LayoutField| f@) =~= before.map_values(
                        |f: LayoutField| f@,
                    ).push(f@));
                    p = next;
                },
                None => {
                    proof {
                        assert(layout_fields_at(data@, start, (i + 1) as nat) is None);
                        lemma_layout_fields_fail(data@, start, (i + 1) as nat, count as nat);
                    }
                    return None;
                },
            }
            i += 1;
        }
        Some((Layout { layout_standard, number_of_fields, fields }, p))
    }
}

/// A record that no other kind takes: its identifier and version as text,
/// and its content.
#[derive(Clone)]
pub struct CustomRecord {
    pub record_id: String,
    pub record_version: String,
    pub data: Vec<u8>,
}

/// The value of a `CustomRecord`.
pub struct CustomRecordView {
    pub record_id: Seq<char>,
    pub record_version: Seq<char>,
    pub data: Seq<u8>,
}

impl View for CustomRecord {
    type V = CustomRecordView;

    open spec fn view(&self) -> CustomRecordView {
        CustomRecordView {
            record_id: self.record_id@,
            record_version: self.record_version@,
            data: self.data@,
        }
    }
}

/// A record of a TLB ticket's payload.
#[derive(Clone)]
pub enum Record {
    UHead(Header),
    UTlay(Layout),
    UFlex(FlexData),
    PretixTicket(PretixTicket),
    Custom(CustomRecord),
}

/// The value of a `Record`.
pub enum RecordView {
    UHead(HeaderView),
    UTlay(LayoutView),
    UFlex(FlexDataView),
    PretixTicket(Seq<u8>),
    Custom(CustomRecordView),
}

impl View for Record {
    type V = RecordView;

    open spec fn view(&self) -> RecordView {
        match self {
            Record::UHead(h) => RecordView::UHead(h@),
            Record::UTlay(l) => RecordView::UTlay(l@),
            Record::UFlex(f) => RecordView::UFlex(f@),
            Record::PretixTicket(t) => RecordView::PretixTicket(t.data@),
            Record::Custom(c) => RecordView::Custom(c@),
        }
    }
}

/// The content at `pos` of a record with identifier `id`, version `version`
/// and length `record_length` (which counts the 12 bytes of identifier,
/// version and length), and the position after it.  The kinds are tried in
/// turn, and the first whose identifier and version match and whose content
/// reads is taken: a header or layout reads as far as its fields go, the
/// other kinds take the `record_length - 12` bytes at `pos`.
pub open spec fn record_body_at(data: Seq<u8>, pos: int, id: Seq<u8>, version: Seq<u8>, record_length: int) -> Option<
    (RecordView, int),
> {
    let body_length = record_length - 12;
    let header = header_at(data, pos);
    let layout = layout_at(data, pos);
    let flex = flex_record_body(data, pos, version, body_length);
    let pretix = pretix_record_body(data, pos, body_length);
    if id == id_u_head() && version == version_1() && header is Some {
        Some((RecordView::UHead(header.unwrap().0), header.unwrap().1))
    } else if id == id_u_tlay() && version == version_1() && layout is Some {
        Some((RecordView::UTlay(layout.unwrap().0), layout.unwrap().1))
    } else if id == id_u_flex() && (version == version_13() || version == version_2() || version
        == version_3()) && flex is Some {
        Some((RecordView::UFlex(flex.unwrap().0), flex.unwrap().1))
    } else if id == id_pretix() && version == version_1() && pretix is Some {
        Some((RecordView::PretixTicket(pretix.unwrap().0), pretix.unwrap().1))
    } else {
        match field_at(data, pos, body_length) {
            Some(content) => Some(
                (
                    RecordView::Custom(
                        CustomRecordView {
                            record_id: text_of(id),
                            record_version: text_of(version),
                            data: content,
                        },
                    ),
                    pos + body_length,
                ),
            ),
            None => None,
        }
    }
}

fn tag_eq(field: &[u8], tag: &[u8], Ghost(expected): Ghost<Seq<u8>>) -> (same: bool)
    requires
        tag@ == expected,
    ensures
        same == (field@ == expected),
{
    bytes_eq(field, tag)
}

impl Record {
    /// Reads the content at `pos` of a record with the given identifier,
    /// version and length; gives it and the position after it.
    pub fn read(
        data: &[u8],
        pos: usize,
        record_id: &FixedLengthStringStripSpace<6>,
        record_version: &FixedLengthStringStripSpaceZero<2>,
        record_length: usize,
    ) -> (res: Option<(Self, usize)>)
        requires
            record_length >= 12,
        ensures
            match res {
                Some((r, next)) => record_body_at(
                    data@,
                    pos as int,
                    record_id@,
                    record_version@,
                    record_length as int,
                ) == Some((r@, next as int)),
                None => record_body_at(
                    data@,
                    pos as int,
                    record_id@,
                    record_version@,
                    record_length as int,
                ) is None,
            },
    {
        let id = record_id.as_bytes();
        let version = record_version.as_bytes();
        let body_length = record_length - 12;
        let u_head: [u8; 6] = [0x55u8, 0x5f, 0x48, 0x45, 0x41, 0x44];
        let u_tlay: [u8; 6] = [0x55u8, 0x5f, 0x54, 0x4c, 0x41, 0x59];
        let u_flex: [u8; 6] = [0x55u8, 0x5f, 0x46, 0x4c, 0x45, 0x58];
        let pretix: [u8; 6] = [0x35u8, 0x31, 0x30, 0x31, 0x50, 0x58];
        let v1: [u8; 1] = [0x31u8];
        let v13: [u8; 2] = [0x31u8, 0x33];
        let v2: [u8; 1] = [0x32u8];
        let v3: [u8; 1] = [0x33u8];
        assert(u_head@ =~= id_u_head());
        assert(u_tlay@ =~= id_u_tlay());
        assert(u_flex@ =~= id_u_flex());
        assert(pretix@ =~= id_pretix());
        assert(v1@ =~= version_1());
        assert(v13@ =~= version_13());
        assert(v2@ =~= version_2());
        assert(v3@ =~= version_3());
        let is_v1 = tag_eq(version, v1.as_slice(), Ghost(version_1()));
        if tag_eq(id, u_head.as_slice(), Ghost(id_u_head())) && is_v1 {
            if let Some((h, next)) = Header::read(data, pos) {
                return Some((Record::UHead(h), next));
            }
        }
        if tag_eq(id, u_tlay.as_slice(), Ghost(id_u_tlay())) && is_v1 {
            if let Some((l, next)) = Layout::read(data, pos) {
                return Some((Record::UTlay(l), next));
            }
        }
        if tag_eq(id, u_flex.as_slice(), Ghost(id_u_flex())) && (tag_eq(
            version,
            v13.as_slice(),
            Ghost(version_13()),
        ) || tag_eq(version, v2.as_slice(), Ghost(version_2())) || tag_eq(
            version,
            v3.as_slice(),
            Ghost(version_3()),
        )) {
            if let Some((f, next)) = parse_flex_tlv(data, pos, version, body_length) {
                return Some((Record::UFlex(f), next));
            }
        }
        if tag_eq(id, pretix.as_slice(), Ghost(id_pretix())) && is_v1 {
            if let Some((t, next)) = parse_pretix_ticket_tlv(data, pos, body_length) {
                return Some((Record::PretixTicket(t), next));
            }
        }
        if pos > data.len() || body_length > data.len() - pos {
            return None;
        }
        let content = slice_to_vec(slice_subrange(data, pos, pos + body_length));
        let custom = CustomRecord {
            record_id: lossy_text(id),
            record_version: lossy_text(version),
            data: content,
        };
        Some((Record::Custom(custom), pos + body_length))
    }
}

proof fn lemma_layout_fields_count(data: Seq<u8>, pos: int, count: nat)
    ensures
        layout_fields_at(data, pos, count) matches Some((fields, _)) ==> fields.len() == count,
    decreases count,
{
    if count > 0 {
        lemma_layout_fields_count(data, pos, (count - 1) as nat);
    }
}

/// A layout has as many fields as its field count announces.
pub proof fn law_layout_has_announced_fields(data: Seq<u8>, pos: int)
    ensures
        layout_at(data, pos) matches Some((layout, _)) ==> layout.fields.len()
            == layout.number_of_fields,
{
    if let Some(count) = number_field(data, pos + 4, 4) {
        lemma_layout_fields_count(data, pos + 8, count as nat);
    }
}

proof fn lemma_layout_fields_advance(data: Seq<u8>, pos: int, count: nat)
    ensures
        layout_fields_at(data, pos, count) matches Some((_, end)) ==> end >= pos,
    decreases count,
{
    if count > 0 {
        lemma_layout_fields_advance(data, pos, (count - 1) as nat);
    }
}

/// Every record's content ends at or after where it starts.
pub proof fn lemma_record_body_advances(
    data: Seq<u8>,
    pos: int,
    id: Seq<u8>,
    version: Seq<u8>,
    record_length: int,
)
    requires
        record_length >= 12,
    ensures
        record_body_at(data, pos, id, version, record_length) matches Some((_, next)) ==> next
            >= pos,
{
    if let Some(count) = number_field(data, pos + 4, 4) {
        lemma_layout_fields_advance(data, pos + 8, count as nat);
    }
}

/// A record whose identifier is none of `U_HEAD`, `U_TLAY`, `U_FLEX` and
/// `5101PX` is kept as a custom record of its identifier, version and
/// content, the `record_length - 12` bytes after its 12 leading bytes.
pub proof fn law_unknown_record_kept_as_custom(
    data: Seq<u8>,
    pos: int,
    id: Seq<u8>,
    version: Seq<u8>,
    record_length: int,
)
    requires
        record_length >= 12,
        id != id_u_head(),
        id != id_u_tlay(),
        id != id_u_flex(),
        id != id_pretix(),
    ensures
        record_body_at(data, pos, id, version, record_length) == (match field_at(
            data,
            pos,
            record_length - 12,
        ) {
            Some(content) => Some(
                (
                    RecordView::Custom(
                        CustomRecordView {
                            record_id: text_of(id),
                            record_version: text_of(version),
                            data: content,
                        },
                    ),
                    pos + record_length - 12,
                ),
            ),
            None => None,
        }),
{
}

/// A `U_HEAD` record of version 1 whose 41 bytes read as a header is that
/// header, whatever its length field says.
pub proof fn law_header_record(data: Seq<u8>, pos: int, record_length: int)
    requires
        record_length >= 12,
    ensures
        header_at(data, pos) matches Some((h, next)) ==> record_body_at(
            data,
            pos,
            id_u_head(),
            version_1(),
            record_length,
        ) == Some((RecordView::UHead(h), next)),
{
}

/// A `5101PX` record of version 1 holds exactly the `record_length - 12`
/// bytes that follow its 12 bytes of identifier, version and length, and
/// reading goes on after them.
pub proof fn law_pretix_record_content(data: Seq<u8>, pos: int, record_length: int)
    requires
        0 <= pos,
        12 <= record_length,
        pos + record_length - 12 <= data.len(),
    ensures
        record_body_at(data, pos, id_pretix(), version_1(), record_length) == Some(
            (
                RecordView::PretixTicket(data.subrange(pos, pos + record_length - 12)),
                pos + record_length - 12,
            ),
        ),
{
    assert(id_pretix()[0] != id_u_head()[0]);
    assert(id_pretix()[0] != id_u_tlay()[0]);
    assert(id_pretix()[0] != id_u_flex()[0]);
}

/// The flags byte of a ticket header: bit 0 (value 1) marks an
/// international ticket, bit 1 (value 2) a ticket edited by an agent, bit 2
/// (value 4) a specimen; the five bits above them are kept as they are.
pub proof fn law_header_flag_bits(b: u8)
    ensures
        header_flags_of(b).international_ticket == (b % 2 == 1),
        header_flags_of(b).edited_by_agent == ((b / 2) % 2 == 1),
        header_flags_of(b).specimen == ((b / 4) % 2 == 1),
        header_flags_of(b).unused == b / 8,
{
    assert((b & 1 != 0) == (b % 2 == 1)) by (bit_vector);
    assert((b & 2 != 0) == ((b / 2) % 2 == 1)) by (bit_vector);
    assert((b & 4 != 0) == ((b / 4) % 2 == 1)) by (bit_vector);
    assert(b >> 3 == b / 8) by (bit_vector);
}

/// The formatting byte of a layout field: bit 0 (value 1) is bold, bit 1
/// (value 2) italic, bit 2 (value 4) small print; the five bits above them
/// are kept as they are.
pub proof fn law_field_formatting_bits(b: u8)
    ensures
        field_formatting_of(b).bold == (b % 2 == 1),
        field_formatting_of(b).italic == ((b / 2) % 2 == 1),
        field_formatting_of(b).small == ((b / 4) % 2 == 1),
        field_formatting_of(b).unused == b / 8,
{
    assert((b & 1 != 0) == (b % 2 == 1)) by (bit_vector);
    assert((b & 2 != 0) == ((b / 2) % 2 == 1)) by (bit_vector);
    assert((b & 4 != 0) == ((b / 4) % 2 == 1)) by (bit_vector);
    assert(b >> 3 == b / 8) by (bit_vector);
}

/// A `U_FLEX` record of version `13` holds, as flexible content of layout
/// version 1.3, exactly the `record_length - 12` bytes that follow its 12
/// bytes of identifier, version and length.  Versions `02` and `03` reach
/// the dispatch as `2` and `3`, which select no layout, so such a record is
/// kept as a custom record of those bytes.
pub proof fn law_flex_record_content(data: Seq<u8>, pos: int, record_length: int)
    requires
        0 <= pos,
        12 <= record_length,
        pos + record_length - 12 <= data.len(),
    ensures
        record_body_at(data, pos, id_u_flex(), version_13(), record_length) == Some(
            (
                RecordView::UFlex(FlexDataView::V1_3(data.subrange(pos, pos + record_length - 12))),
                pos + record_length - 12,
            ),
        ),
        record_body_at(data, pos, id_u_flex(), version_2(), record_length) matches Some(
            (RecordView::Custom(c), next),
        ) && c.data == data.subrange(pos, pos + record_length - 12) && next == pos + record_length
            - 12,
        record_body_at(data, pos, id_u_flex(), version_3(), record_length) matches Some(
            (RecordView::Custom(c), next),
        ) && c.data == data.subrange(pos, pos + record_length - 12) && next == pos + record_length
            - 12,
{
    assert(id_u_flex()[2] != id_u_head()[2]);
    assert(id_u_flex()[2] != id_u_tlay()[2]);
    assert(id_u_flex()[0] != id_pretix()[0]);
    assert(version_13().len() != version_1().len());
    assert(version_2()[0] != version_1()[0]);
    assert(version_3()[0] != version_1()[0]);
    assert(version_2().len() != seq![0x31u8, 0x33u8].len());
    assert(version_3().len() != seq![0x31u8, 0x33u8].len());
    assert(version_13() =~= seq![0x31u8, 0x33u8]);
}

} // verus!
