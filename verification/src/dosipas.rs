//! DOSIPAS barcodes: the UIC barcode header (versions 1 and 2), as its
//! ASN.1 decoding gives it, and the ticket that the library makes of it.
//!
//! The header's ASN.1 UPER decoding is done outside this library; a
//! `UicBarcodeHeader` holds what the ticket is made of, together with the
//! UPER encodings of the parts that the two signatures cover.  The data
//! records stay in their UPER encoding.

use vstd::prelude::*;

use crate::flex::{FlexData, FlexDataView};
use crate::helpers::{str_eq, u16_text};
use crate::pretix::PretixTicket;
use crate::sig::{key_from_spki, PublicKey, PublicKeyView};
use crate::{Error, ErrorView};

verus! {

/// An ASN.1 `DataType`: the name of a data format and data in it.
#[derive(Clone, Debug)]
pub struct DataType {
    pub data_format: String,
    pub data: Vec<u8>,
}

/// The value of a `DataType`.
pub struct DataTypeView {
    pub data_format: Seq<char>,
    pub data: Seq<u8>,
}

impl View for DataType {
    type V = DataTypeView;

    open spec fn view(&self) -> DataTypeView {
        DataTypeView { data_format: self.data_format@, data: self.data@ }
    }
}

/// The level 1 data of a barcode header.  The end of validity and the
/// validity duration exist in version 2 only.
#[derive(Clone, Debug)]
pub struct Level1Data {
    pub security_provider_num: Option<u16>,
    pub security_provider_ia5: Option<String>,
    pub key_id: Option<u32>,
    pub data_sequence: Vec<DataType>,
    pub level1_key_alg: Option<Vec<u32>>,
    pub level2_key_alg: Option<Vec<u32>>,
    pub level1_signing_alg: Option<Vec<u32>>,
    pub level2_signing_alg: Option<Vec<u32>>,
    pub level2_public_key: Option<Vec<u8>>,
    pub end_of_validity_year: Option<u16>,
    pub end_of_validity_day: Option<u16>,
    pub end_of_validity_time: Option<u16>,
    pub validity_duration: Option<u16>,
}

/// The value of a `Level1Data`.
pub struct Level1DataView {
    pub security_provider_num: Option<u16>,
    pub security_provider_ia5: Option<Seq<char>>,
    pub key_id: Option<u32>,
    pub data_sequence: Seq<DataTypeView>,
    pub level1_key_alg: Option<Seq<u32>>,
    pub level2_key_alg: Option<Seq<u32>>,
    pub level1_signing_alg: Option<Seq<u32>>,
    pub level2_signing_alg: Option<Seq<u32>>,
    pub level2_public_key: Option<Seq<u8>>,
    pub end_of_validity_year: Option<u16>,
    pub end_of_validity_day: Option<u16>,
    pub end_of_validity_time: Option<u16>,
    pub validity_duration: Option<u16>,
}

impl View for Level1Data {
    type V = Level1DataView;

    open spec fn view(&self) -> Level1DataView {
        Level1DataView {
            security_provider_num: self.security_provider_num,
            security_provider_ia5: crate::opt_view(self.security_provider_ia5),
            key_id: self.key_id,
            data_sequence: self.data_sequence@.map_values(|d: DataType| d@),
            level1_key_alg: crate::opt_view(self.level1_key_alg),
            level2_key_alg: crate::opt_view(self.level2_key_alg),
            level1_signing_alg: crate::opt_view(self.level1_signing_alg),
            level2_signing_alg: crate::opt_view(self.level2_signing_alg),
            level2_public_key: crate::opt_view(self.level2_public_key),
            end_of_validity_year: self.end_of_validity_year,
            end_of_validity_day: self.end_of_validity_day,
            end_of_validity_time: self.end_of_validity_time,
            validity_duration: self.validity_duration,
        }
    }
}

/// A UIC barcode header, with the UPER encodings of its level 1 data and of
/// its level 2 signed data (level 1 data, level 1 signature and level 2
/// data).  The two encodings are taken as the caller gives them: nothing
/// here ties them to the decoded fields, and the signatures are checked over
/// these bytes.
#[derive(Clone, Debug)]
pub struct UicBarcodeHeader {
    pub format: String,
    pub level1_data: Level1Data,
    pub level1_data_encoded: Vec<u8>,
    pub level1_signature: Option<Vec<u8>>,
    pub level2_data: Option<DataType>,
    pub level2_signed_data_encoded: Vec<u8>,
    pub level2_signature: Option<Vec<u8>>,
}

/// The value of a `UicBarcodeHeader`.
pub struct UicBarcodeHeaderView {
    pub format: Seq<char>,
    pub level1_data: Level1DataView,
    pub level1_data_encoded: Seq<u8>,
    pub level1_signature: Option<Seq<u8>>,
    pub level2_data: Option<DataTypeView>,
    pub level2_signed_data_encoded: Seq<u8>,
    pub level2_signature: Option<Seq<u8>>,
}

impl View for UicBarcodeHeader {
    type V = UicBarcodeHeaderView;

    open spec fn view(&self) -> UicBarcodeHeaderView {
        UicBarcodeHeaderView {
            format: self.format@,
            level1_data: self.level1_data@,
            level1_data_encoded: self.level1_data_encoded@,
            level1_signature: crate::opt_view(self.level1_signature),
            level2_data: match self.level2_data {
                Some(d) => Some(d@),
                None => None,
            },
            level2_signed_data_encoded: self.level2_signed_data_encoded@,
            level2_signature: crate::opt_view(self.level2_signature),
        }
    }
}

/// The UPER encoding of the dynamic content data of a level 2 record.
#[derive(Clone, Debug)]
pub struct DynamicContentData {
    pub data: Vec<u8>,
}

/// A record whose data format is not one the library knows.
#[derive(Clone, Debug)]
pub struct CustomRecord {
    pub record_id: String,
    pub data: Vec<u8>,
}

/// The value of a `CustomRecord`.
pub struct CustomRecordView {
    pub record_id: Seq<char>,
    pub data: Seq<u8>,
}

impl View for CustomRecord {
    type V = CustomRecordView;

    open spec fn view(&self) -> CustomRecordView {
        CustomRecordView { record_id: self.record_id@, data: self.data@ }
    }
}

/// A level 1 data record.
#[derive(Clone, Debug)]
pub enum Record {
    Flex(FlexData),
    PretixTicket(PretixTicket),
    Custom(CustomRecord),
}

/// The value of a `Record`.
pub enum RecordView {
    Flex(FlexDataView),
    PretixTicket(Seq<u8>),
    Custom(CustomRecordView),
}

impl View for Record {
    type V = RecordView;

    open spec fn view(&self) -> RecordView {
        match self {
            Record::Flex(f) => RecordView::Flex(f@),
            Record::PretixTicket(t) => RecordView::PretixTicket(t.data@),
            Record::Custom(c) => RecordView::Custom(c@),
        }
    }
}

/// The level 2 data record.
#[derive(Clone, Debug)]
pub enum Level2Data {
    DynamicContentData(DynamicContentData),
    Custom(CustomRecord),
}

/// The value of a `Level2Data`.
pub enum Level2DataView {
    DynamicContentData(Seq<u8>),
    Custom(CustomRecordView),
}

impl View for Level2Data {
    type V = Level2DataView;

    open spec fn view(&self) -> Level2DataView {
        match self {
            Level2Data::DynamicContentData(d) => Level2DataView::DynamicContentData(d.data@),
            Level2Data::Custom(c) => Level2DataView::Custom(c@),
        }
    }
}

/// The record that a level 1 data entry of format `format` makes: `FCB1`,
/// `FCB2` and `FCB3` flexible content of layout 1.3, 2 and 3, `_5101PTIX` a
/// pretix ticket, any other format a custom record.
pub open spec fn record_of(format: Seq<char>, data: Seq<u8>) -> RecordView {
    if format == "FCB1"@ {
        RecordView::Flex(FlexDataView::V1_3(data))
    } else if format == "FCB2"@ {
        RecordView::Flex(FlexDataView::V2(data))
    } else if format == "FCB3"@ {
        RecordView::Flex(FlexDataView::V3(data))
    } else if format == "_5101PTIX"@ {
        RecordView::PretixTicket(data)
    } else {
        RecordView::Custom(CustomRecordView { record_id: format, data })
    }
}

/// The record that the level 2 data of format `format` makes: `FDC1`
/// dynamic content data, any other format a custom record.
pub open spec fn level2_data_of(format: Seq<char>, data: Seq<u8>) -> Level2DataView {
    if format == "FDC1"@ {
        Level2DataView::DynamicContentData(data)
    } else {
        Level2DataView::Custom(CustomRecordView { record_id: format, data })
    }
}

fn parse_record(data_format: &String, data: &Vec<u8>) -> (record: Record)
    ensures
        record@ == record_of(data_format@, data@),
{
    let d = data.clone();
    assert(d@ == data@);
    if str_eq(data_format.as_str(), "FCB1") {
        Record::Flex(FlexData::V1_3(d))
    } else if str_eq(data_format.as_str(), "FCB2") {
        Record::Flex(FlexData::V2(d))
    } else if str_eq(data_format.as_str(), "FCB3") {
        Record::Flex(FlexData::V3(d))
    } else if str_eq(data_format.as_str(), "_5101PTIX") {
        Record::PretixTicket(PretixTicket { data: d })
    } else {
        Record::Custom(CustomRecord { record_id: data_format.clone(), data: d })
    }
}

fn parse_leve2_data(data_format: &String, data: &Vec<u8>) -> (record: Level2Data)
    ensures
        record@ == level2_data_of(data_format@, data@),
{
    let d = data.clone();
    assert(d@ == data@);
    if str_eq(data_format.as_str(), "FDC1") {
        Level2Data::DynamicContentData(DynamicContentData { data: d })
    } else {
        Level2Data::Custom(CustomRecord { record_id: data_format.clone(), data: d })
    }
}

// ---------------------------------------------------------------------------
// Dates.
// ---------------------------------------------------------------------------

/// A moment in UTC: a day, as a year and the day's number in it (1 for
/// 1 January), and the seconds since midnight.
#[derive(Clone, Copy, PartialEq, Eq, Debug)]
pub struct UtcDateTime {
    pub year: i32,
    pub ordinal: u32,
    pub second_of_day: u32,
}

/// Leap years of the proleptic Gregorian calendar.
pub open spec fn is_leap_year(year: int) -> bool {
    year % 4 == 0 && (year % 100 != 0 || year % 400 == 0)
}

/// Whether the year and day number name a date that chrono's
/// `NaiveDate::from_yo_opt` gives: a year from -262143 to 262142 and a day
/// of that year.
pub open spec fn is_date(year: int, ordinal: int) -> bool {
    &&& -262143 <= year <= 262142
    &&& 1 <= ordinal
    &&& ordinal <= (if is_leap_year(year) {
        366int
    } else {
        365int
    })
}

/// The date `year`, day `ordinal`, if there is one (`NaiveDate::from_yo_opt`).
pub fn date_from_year_ordinal(year: i32, ordinal: u32) -> (day: Option<(i32, u32)>)
    ensures
        match day {
            Some(d) => is_date(year as int, ordinal as int) && d == (year, ordinal),
            None => !is_date(year as int, ordinal as int),
        },
{
    if year < -262143 || year > 262142 || ordinal == 0 || ordinal > 366 {
        return None;
    }
    let leap = year % 4 == 0 && (year % 100 != 0 || year % 400 == 0);
    if ordinal == 366 && !leap {
        return None;
    }
    Some((year, ordinal))
}

/// The message for an end of validity that is no moment.
pub open spec fn validity_range_message() -> Seq<char> {
    "End of Validity out of range"@
}

/// The message for an end of validity of which only some parts are set.
pub open spec fn validity_parts_message() -> Seq<char> {
    "End of Validity inconsistently set"@
}

/// The message for level 1 data without a security provider.
pub open spec fn missing_provider_message() -> Seq<char> {
    "One of securityProviderNum or securityProviderIA5 must be set"@
}

/// The end of validity that the year, day and minute of the day of
/// version 2 level 1 data give: none if none is set, a moment if all are
/// set and name one.
pub open spec fn end_of_validity_of(l1: Level1DataView) -> Result<Option<UtcDateTime>, ErrorView> {
    match (l1.end_of_validity_year, l1.end_of_validity_day, l1.end_of_validity_time) {
        (Some(y), Some(d), Some(t)) => if is_date(y as int, d as int) && t * 60 < 86400 {
            Ok(Some(UtcDateTime { year: y as i32, ordinal: d as u32, second_of_day: (t * 60) as u32 }))
        } else {
            Err(ErrorView::InvalidFormat(validity_range_message()))
        },
        (None, None, None) => Ok(None),
        _ => Err(ErrorView::InvalidFormat(validity_parts_message())),
    }
}

fn end_of_validity(l1: &Level1Data) -> (res: Result<Option<UtcDateTime>, Error>)
    ensures
        match res {
            Ok(v) => end_of_validity_of(l1@) == Ok::<Option<UtcDateTime>, ErrorView>(v),
            Err(e) => end_of_validity_of(l1@) == Err::<Option<UtcDateTime>, ErrorView>(e@),
        },
{
    match (l1.end_of_validity_year, l1.end_of_validity_day, l1.end_of_validity_time) {
        (Some(y), Some(d), Some(t)) => {
            let date = match date_from_year_ordinal(y as i32, d as u32) {
                Some(date) => date,
                None => {
                    return Err(Error::InvalidFormat(String::from_str("End of Validity out of range")));
                },
            };
            let secs = t as u32 * 60;
            if secs >= 86400 {
                return Err(Error::InvalidFormat(String::from_str("End of Validity out of range")));
            }
            Ok(Some(UtcDateTime { year: date.0, ordinal: date.1, second_of_day: secs }))
        },
        (None, None, None) => Ok(None),
        _ => Err(Error::InvalidFormat(String::from_str("End of Validity inconsistently set"))),
    }
}

// ---------------------------------------------------------------------------
// The ticket.
// ---------------------------------------------------------------------------

/// A DOSIPAS ticket.
#[derive(Clone, Debug)]
pub struct DosipasTicket {
    pub security_provider: String,
    pub key_id: u32,
    pub level1_signed_data: Vec<u8>,
    pub level2_signed_data: Vec<u8>,
    pub level1_signature: Vec<u8>,
    pub level2_signature: Option<Vec<u8>>,
    pub level1_key_alg: Option<Vec<u32>>,
    pub level2_key_alg: Option<Vec<u32>>,
    pub level1_signing_alg: Option<Vec<u32>>,
    pub level2_signing_alg: Option<Vec<u32>>,
    pub level2_public_key: Option<PublicKey>,
    pub end_of_validity: Option<UtcDateTime>,
    /// The validity duration in seconds.
    pub validity_duration: Option<i64>,
    pub records: Vec<Record>,
    pub level2_data: Option<Level2Data>,
}

/// The value of a `DosipasTicket`.
pub struct DosipasTicketView {
    pub security_provider: Seq<char>,
    pub key_id: u32,
    pub level1_signed_data: Seq<u8>,
    pub level2_signed_data: Seq<u8>,
    pub level1_signature: Seq<u8>,
    pub level2_signature: Option<Seq<u8>>,
    pub level1_key_alg: Option<Seq<u32>>,
    pub level2_key_alg: Option<Seq<u32>>,
    pub level1_signing_alg: Option<Seq<u32>>,
    pub level2_signing_alg: Option<Seq<u32>>,
    pub level2_public_key: Option<PublicKeyView>,
    pub end_of_validity: Option<UtcDateTime>,
    pub validity_duration: Option<i64>,
    pub records: Seq<RecordView>,
    pub level2_data: Option<Level2DataView>,
}

impl View for DosipasTicket {
    type V = DosipasTicketView;

    open spec fn view(&self) -> DosipasTicketView {
        DosipasTicketView {
            security_provider: self.security_provider@,
            key_id: self.key_id,
            level1_signed_data: self.level1_signed_data@,
            level2_signed_data: self.level2_signed_data@,
            level1_signature: self.level1_signature@,
            level2_signature: crate::opt_view(self.level2_signature),
            level1_key_alg: crate::opt_view(self.level1_key_alg),
            level2_key_alg: crate::opt_view(self.level2_key_alg),
            level1_signing_alg: crate::opt_view(self.level1_signing_alg),
            level2_signing_alg: crate::opt_view(self.level2_signing_alg),
            level2_public_key: match self.level2_public_key {
                Some(k) => Some(k@),
                None => None,
            },
            end_of_validity: self.end_of_validity,
            validity_duration: self.validity_duration,
            records: self.records@.map_values(|r: Record| r@),
            level2_data: match self.level2_data {
                Some(d) => Some(d@),
                None => None,
            },
        }
    }
}

/// The two versions of the barcode header.
pub enum HeaderVersion {
    V1,
    V2,
}

/// The security provider that level 1 data names: its number in decimal,
/// else its IA5 name.
pub open spec fn security_provider_of(l1: Level1DataView) -> Option<Seq<char>> {
    match l1.security_provider_num {
        Some(n) => Some(crate::helpers::decimal_text(n as nat)),
        None => l1.security_provider_ia5,
    }
}

/// The level 2 public key that level 1 data carries, read as
/// `key_from_spki` reads a key; a well-formed key of an algorithm or curve
/// that `key_from_spki` does not take is kept as an `Other` key.
pub open spec fn level2_key_of(l1: Level1DataView) -> Result<Option<PublicKeyView>, ErrorView> {
    match l1.level2_public_key {
        Some(der) => match key_from_spki(der) {
            Ok(k) => Ok(Some(k)),
            Err(ErrorView::UnsupportedData(_)) => Ok(Some(PublicKeyView::Other(der))),
            Err(e) => Err(e),
        },
        None => Ok(None),
    }
}

/// The ticket that a barcode header of version `version` makes.  The
/// header's format must be `U1` (version 1) or `U2` (version 2); then, in
/// this order, the level 2 public key must read (as `level2_key_of` says),
/// the end of validity (version 2) must be a moment or absent, and a
/// security provider must be named.  A missing key id is 0 and a missing level 1 signature is empty.
pub open spec fn ticket_from_header(h: UicBarcodeHeaderView, version: HeaderVersion) -> Result<
    DosipasTicketView,
    ErrorView,
> {
    let l1 = h.level1_data;
    let expected_format = match version {
        HeaderVersion::V1 => "U1"@,
        HeaderVersion::V2 => "U2"@,
    };
    let validity = match version {
        HeaderVersion::V1 => Ok(None),
        HeaderVersion::V2 => end_of_validity_of(l1),
    };
    if h.format != expected_format {
        Err(ErrorView::UnknownBarcodeType)
    } else {
        match level2_key_of(l1) {
            Err(e) => Err(e),
            Ok(level2_public_key) => match validity {
                Err(e) => Err(e),
                Ok(end_of_validity) => match security_provider_of(l1) {
                    None => Err(ErrorView::InvalidFormat(missing_provider_message())),
                    Some(security_provider) => Ok(
                        DosipasTicketView {
                            security_provider,
                            key_id: match l1.key_id {
                                Some(k) => k,
                                None => 0,
                            },
                            level1_signed_data: h.level1_data_encoded,
                            level2_signed_data: h.level2_signed_data_encoded,
                            level1_signature: match h.level1_signature {
                                Some(s) => s,
                                None => Seq::empty(),
                            },
                            level2_signature: h.level2_signature,
                            level1_key_alg: l1.level1_key_alg,
                            level2_key_alg: l1.level2_key_alg,
                            level1_signing_alg: l1.level1_signing_alg,
                            level2_signing_alg: l1.level2_signing_alg,
                            level2_public_key,
                            end_of_validity,
                            validity_duration: match version {
                                HeaderVersion::V1 => None,
                                HeaderVersion::V2 => match l1.validity_duration {
                                    Some(v) => Some(v as i64),
                                    None => None,
                                },
                            },
                            records: l1.data_sequence.map_values(
                                |d: DataTypeView| record_of(d.data_format, d.data),
                            ),
                            level2_data: match h.level2_data {
                                Some(d) => Some(level2_data_of(d.data_format, d.data)),
                                None => None,
                            },
                        },
                    ),
                },
            },
        }
    }
}

fn clone_bytes_opt(o: &Option<Vec<u8>>) -> (c: Option<Vec<u8>>)
    ensures
        crate::opt_view(c) == crate::opt_view(*o),
{
    match o {
        Some(v) => {
            let w = v.clone();
            assert(w@ == v@);
            Some(w)
        },
        None => None,
    }
}

fn clone_oid_opt(o: &Option<Vec<u32>>) -> (c: Option<Vec<u32>>)
    ensures
        crate::opt_view(c) == crate::opt_view(*o),
{
    match o {
        Some(v) => {
            let w = v.clone();
            assert(w@ == v@);
            Some(w)
        },
        None => None,
    }
}

impl DosipasTicket {
    /// Whether the ticket carries a level 2 signature.
    pub fn has_level2_signature(&self) -> (has: bool)
        ensures
            has == self.level2_signature is Some,
    {
        self.level2_signature.is_some()
    }

    fn from_header(header: &UicBarcodeHeader, version: HeaderVersion) -> (res: Result<Self, Error>)
        ensures
            crate::result_view(res) == ticket_from_header(header@, version),
    {
        let l1 = &header.level1_data;
        let expected = match version {
            HeaderVersion::V1 => "U1",
            HeaderVersion::V2 => "U2",
        };
        if !str_eq(header.format.as_str(), expected) {
            return Err(Error::UnknownBarcodeType);
        }
        let level2_public_key = match &l1.level2_public_key {
            Some(der) => match PublicKey::from_der(der.as_slice()) {
                Ok(k) => Some(k),
                Err(Error::UnsupportedData(_)) => {
                    let kept = der.clone();
                    assert(kept@ == der@);
                    Some(PublicKey::Other(kept))
                },
                Err(e) => return Err(e),
            },
            None => None,
        };
        let end_of_validity = match version {
            HeaderVersion::V1 => None,
            HeaderVersion::V2 => match end_of_validity(l1) {
                Ok(v) => v,
                Err(e) => return Err(e),
            },
        };
        let validity_duration = match version {
            HeaderVersion::V1 => None,
            HeaderVersion::V2 => match l1.validity_duration {
                Some(v) => Some(v as i64),
                None => None,
            },
        };
        let security_provider = match l1.security_provider_num {
            Some(n) => u16_text(n),
            None => match &l1.security_provider_ia5 {
                Some(name) => name.clone(),
                None => {
                    return Err(
                        Error::InvalidFormat(
                            String::from_str(
                                "One of securityProviderNum or securityProviderIA5 must be set",
                            ),
                        ),
                    );
                },
            },
        };
        let mut records: Vec<Record> = Vec::new();
        let mut i: usize = 0;
        while i < l1.data_sequence.len()
            invariant
                i <= l1.data_sequence@.len(),
                records@.map_values(|r: Record| r@) =~= l1.data_sequence@.take(i as int).map_values(
                    |d: DataType| record_of(d.data_format@, d.data@),
                ),
            decreases l1.data_sequence@.len() - i,
        {
            let d = &l1.data_sequence[i];
            let r = parse_record(&d.data_format, &d.data);
            let ghost before = records@;
            records.push(r);
            proof {
                let f = |d: DataType| record_of(d.data_format@, d.data@);
                assert(l1.data_sequence@.take(i + 1) =~= l1.data_sequence@.take(i as int).push(*d));
                assert(l1.data_sequence@.take(i as int).push(*d).map_values(f) =~= l1.data_sequence@.take(
                    i as int,
                ).map_values(f).push(f(*d)));
                assert(records@.map_values(|r: Record| r@) =~= before.map_values(|r: Record| r@).push(
                    r@,
                ));
            }
            i += 1;
        }
        assert(l1.data_sequence@.take(i as int) =~= l1.data_sequence@);
        let level2_data = match &header.level2_data {
            Some(d) => Some(parse_leve2_data(&d.data_format, &d.data)),
            None => None,
        };
        let ticket = DosipasTicket {
            security_provider,
            key_id: match l1.key_id {
                Some(k) => k,
                None => 0,
            },
            level1_signed_data: header.level1_data_encoded.clone(),
            level2_signed_data: header.level2_signed_data_encoded.clone(),
            level1_signature: match &header.level1_signature {
                Some(s) => s.clone(),
                None => Vec::new(),
            },
            level2_signature: clone_bytes_opt(&header.level2_signature),
            level1_key_alg: clone_oid_opt(&l1.level1_key_alg),
            level2_key_alg: clone_oid_opt(&l1.level2_key_alg),
            level1_signing_alg: clone_oid_opt(&l1.level1_signing_alg),
            level2_signing_alg: clone_oid_opt(&l1.level2_signing_alg),
            level2_public_key,
            end_of_validity,
            validity_duration,
            records,
            level2_data,
        };
        proof {
            let tv = ticket@;
            let hv = header@;
            assert(tv.records =~= hv.level1_data.data_sequence.map_values(
                |d: DataTypeView| record_of(d.data_format, d.data),
            ));
        }
        Ok(ticket)
    }

    /// The ticket that a version 1 barcode header makes.
    pub fn try_from_v1(header: UicBarcodeHeader) -> (res: Result<Self, Error>)
        ensures
            crate::result_view(res) == ticket_from_header(header@, HeaderVersion::V1),
    {
        DosipasTicket::from_header(&header, HeaderVersion::V1)
    }

    /// The ticket that a version 2 barcode header makes.
    pub fn try_from_v2(header: UicBarcodeHeader) -> (res: Result<Self, Error>)
        ensures
            crate::result_view(res) == ticket_from_header(header@, HeaderVersion::V2),
    {
        DosipasTicket::from_header(&header, HeaderVersion::V2)
    }
}

/// A header makes a ticket only if its format is `U1` for version 1 and
/// `U2` for version 2; a header of another format is of no known barcode
/// type.
pub proof fn law_format_selects_version(h: UicBarcodeHeaderView)
    ensures
        h.format != "U1"@ ==> ticket_from_header(h, HeaderVersion::V1) == Err::<
            DosipasTicketView,
            ErrorView,
        >(ErrorView::UnknownBarcodeType),
        h.format != "U2"@ ==> ticket_from_header(h, HeaderVersion::V2) == Err::<
            DosipasTicketView,
            ErrorView,
        >(ErrorView::UnknownBarcodeType),
{
}

/// A version 1 ticket has neither an end of validity nor a validity
/// duration; a version 2 ticket has an end of validity exactly when its
/// header sets the year, day and time of it.
pub proof fn law_end_of_validity(h: UicBarcodeHeaderView)
    ensures
        ticket_from_header(h, HeaderVersion::V1) matches Ok(t) ==> t.end_of_validity is None
            && t.validity_duration is None,
        ticket_from_header(h, HeaderVersion::V2) matches Ok(t) ==> (t.end_of_validity is Some
            <==> (h.level1_data.end_of_validity_year is Some
            && h.level1_data.end_of_validity_day is Some
            && h.level1_data.end_of_validity_time is Some)),
{
}

/// A ticket has one record for each data entry of its header, in order, and
/// keeps its data as it stands.
pub proof fn law_one_record_per_entry(h: UicBarcodeHeaderView, version: HeaderVersion, i: int)
    requires
        0 <= i < h.level1_data.data_sequence.len(),
    ensures
        ticket_from_header(h, version) matches Ok(t) ==> t.records.len()
            == h.level1_data.data_sequence.len() && t.records[i] == record_of(
            h.level1_data.data_sequence[i].data_format,
            h.level1_data.data_sequence[i].data,
        ),
{
}

} // verus!
