use vstd::prelude::*;

use crate::guid_names::{
    get_guid_name_const, guid_name_table, lookup_name, MF_MT_FRAME_RATE,
    MF_MT_FRAME_RATE_RANGE_MAX, MF_MT_FRAME_RATE_RANGE_MIN, MF_MT_FRAME_SIZE,
    MF_MT_GEOMETRIC_APERTURE, MF_MT_MINIMUM_DISPLAY_APERTURE, MF_MT_PAN_SCAN_APERTURE,
    MF_MT_PIXEL_ASPECT_RATIO,
};
use crate::text::{append_decimal, decimal_string, decimal_text};

verus! {

/// The upper-case hexadecimal digit of `d` (`0 <= d < 16`).
pub open spec fn hex_digit_char(d: int) -> char {
    if d < 10 {
        (48 + d) as char
    } else {
        (55 + d) as char
    }
}

/// The last `width` hexadecimal digits of `v`, most significant first,
/// padded with zeros.
pub open spec fn hex_text(v: nat, width: nat) -> Seq<char>
    decreases width,
{
    if width == 0 {
        seq![]
    } else {
        hex_text(v / 16, (width - 1) as nat).push(hex_digit_char((v % 16) as int))
    }
}

/// The text form of a GUID: its 32 upper-case hexadecimal digits in groups
/// of 8, 4, 4, 4 and 12, separated by dashes.
pub open spec fn guid_text(guid: u128) -> Seq<char> {
    let h = hex_text(guid as nat, 32);
    h.subrange(0, 8) + seq!['-'] + h.subrange(8, 12) + seq!['-'] + h.subrange(12, 16) + seq![
        '-',
    ] + h.subrange(16, 20) + seq!['-'] + h.subrange(20, 32)
}

/// `Debug` of `windows_core::GUID`, on the GUID whose 128-bit value is
/// `guid`. Its source writes the fields `data1`, `data2`, `data3` and the
/// eight bytes of `data4` as upper-case hexadecimal numbers of 8, 4, 4 and
/// 2 digits, with dashes after the third field and the second byte; with
/// `GUID::from_u128` those fields are the value's bits from the most
/// significant down, so the text is `guid_text(guid)`.
#[verifier::external_body]
fn guid_debug_text(guid: u128) -> (text: String)
    ensures
        text@ == guid_text(guid),
{
    format!("{:?}", windows_core::GUID::from_u128(guid))
}

/// The name the viewer prints for an identifier: its known name, or else
/// its text form.
pub open spec fn guid_name_text(guid: u128) -> Seq<char> {
    match lookup_name(guid_name_table(), guid) {
        Some(name) => name@,
        None => guid_text(guid),
    }
}

/// The name the viewer prints for an identifier: its known name, or else
/// its text form.
pub fn get_guid_name(guid: u128) -> (name: String)
    ensures
        name@ == guid_name_text(guid),
{
    if let Some(name) = get_guid_name_const(guid) {
        name.to_owned()
    } else {
        guid_debug_text(guid)
    }
}

/// Splits a 64-bit value into its upper and lower 32 bits.
pub fn unpack_2_u32_as_u64(unpacked: u64, high: &mut u32, low: &mut u32)
    ensures
        *final(high) == unpacked / 0x1_0000_0000,
        *final(low) == unpacked % 0x1_0000_0000,
        *final(high) as int * 0x1_0000_0000 + *final(low) as int == unpacked as int,
{
    *high = (unpacked >> 32) as u32;
    *low = unpacked as u32;
    assert((unpacked >> 32) as u32 == unpacked / 0x1_0000_0000) by (bit_vector);
    assert(unpacked as u32 == unpacked % 0x1_0000_0000) by (bit_vector);
}

/// The attributes whose value packs two 32-bit numbers into 64 bits.
pub open spec fn is_packed_pair_attribute(guid: u128) -> bool {
    guid == MF_MT_FRAME_RATE || guid == MF_MT_FRAME_RATE_RANGE_MAX || guid
        == MF_MT_FRAME_RATE_RANGE_MIN || guid == MF_MT_FRAME_SIZE || guid
        == MF_MT_PIXEL_ASPECT_RATIO
}

/// The aperture attributes, whose value the viewer does not decode.
pub open spec fn is_aperture_attribute(guid: u128) -> bool {
    guid == MF_MT_GEOMETRIC_APERTURE || guid == MF_MT_MINIMUM_DISPLAY_APERTURE || guid
        == MF_MT_PAN_SCAN_APERTURE
}

/// The text that replaces an attribute's value for the attributes handled
/// apart: the two packed numbers as `"<high> x <low>"`, a placeholder for
/// the apertures, nothing for the others. `packed` is the value's 64-bit word.
pub open spec fn special_case_text(guid: u128, packed: u64) -> Option<Seq<char>> {
    if is_packed_pair_attribute(guid) {
        Some(
            decimal_text((packed / 0x1_0000_0000) as nat) + " x "@ + decimal_text(
                (packed % 0x1_0000_0000) as nat,
            ),
        )
    } else if is_aperture_attribute(guid) {
        Some("TODO"@)
    } else {
        None
    }
}

/// The text of an attribute's value when the attribute is handled apart
/// (see `special_case_text`); `packed` is the value's 64-bit word.
pub fn special_case_attribute_value(guid: u128, packed: u64) -> (text: Option<String>)
    ensures
        match text {
            Some(t) => special_case_text(guid, packed) == Some(t@),
            None => special_case_text(guid, packed) is None,
        },
        guid == MF_MT_FRAME_RATE || guid == MF_MT_FRAME_RATE_RANGE_MAX || guid
            == MF_MT_FRAME_RATE_RANGE_MIN || guid == MF_MT_FRAME_SIZE || guid
            == MF_MT_PIXEL_ASPECT_RATIO ==> (text matches Some(t) && t@ == decimal_text(
            (packed / 0x1_0000_0000) as nat,
        ) + " x "@ + decimal_text((packed % 0x1_0000_0000) as nat)),
{
    proof {
        lemma_packed_pair_text(guid, packed);
    }
    if guid == MF_MT_FRAME_RATE || guid == MF_MT_FRAME_RATE_RANGE_MAX || guid
        == MF_MT_FRAME_RATE_RANGE_MIN || guid == MF_MT_FRAME_SIZE || guid
        == MF_MT_PIXEL_ASPECT_RATIO {
        let mut high: u32 = 0;
        let mut low: u32 = 0;
        unpack_2_u32_as_u64(packed, &mut high, &mut low);
        let mut text = decimal_string(high as u64);
        text.append(" x ");
        append_decimal(&mut text, low as u64);
        Some(text)
    } else if guid == MF_MT_GEOMETRIC_APERTURE || guid == MF_MT_MINIMUM_DISPLAY_APERTURE || guid
        == MF_MT_PAN_SCAN_APERTURE {
        Some("TODO".to_owned())
    } else {
        None
    }
}

// Variant types of a property value (the `VARENUM` numbers).
pub const VT_R8: u16 = 5;
pub const VT_UNKNOWN: u16 = 13;
pub const VT_UI1: u16 = 17;
pub const VT_UI4: u16 = 19;
pub const VT_UI8: u16 = 21;
pub const VT_LPWSTR: u16 = 31;
pub const VT_CLSID: u16 = 72;
pub const VT_VECTOR: u16 = 4096;

/// How the viewer reads a property value of a given variant type.
#[derive(Clone, Copy, Debug, PartialEq, Eq, Structural)]
pub enum VariantKind {
    /// An unsigned 32-bit number.
    UInt32,
    /// An unsigned 64-bit number.
    UInt64,
    /// A double-precision number.
    Real,
    /// A class identifier, held behind a pointer.
    Clsid,
    /// A wide string.
    WideString,
    /// A vector or a single byte, shown without its contents.
    ByteArray,
    /// A COM interface pointer.
    Unknown,
    /// Any other variant type.
    Unexpected,
}

/// The kind of value that variant type `vt` holds.
pub open spec fn kind_of(vt: u16) -> VariantKind {
    if vt == VT_UI4 {
        VariantKind::UInt32
    } else if vt == VT_UI8 {
        VariantKind::UInt64
    } else if vt == VT_R8 {
        VariantKind::Real
    } else if vt == VT_CLSID {
        VariantKind::Clsid
    } else if vt == VT_LPWSTR {
        VariantKind::WideString
    } else if vt == VT_VECTOR || vt == VT_UI1 {
        VariantKind::ByteArray
    } else if vt == VT_UNKNOWN {
        VariantKind::Unknown
    } else {
        VariantKind::Unexpected
    }
}

/// The kind of value that variant type `vt` holds, which tells which field
/// of the property value to read.
pub fn variant_kind(vt: u16) -> (kind: VariantKind)
    ensures
        kind == kind_of(vt),
{
    if vt == VT_UI4 {
        VariantKind::UInt32
    } else if vt == VT_UI8 {
        VariantKind::UInt64
    } else if vt == VT_R8 {
        VariantKind::Real
    } else if vt == VT_CLSID {
        VariantKind::Clsid
    } else if vt == VT_LPWSTR {
        VariantKind::WideString
    } else if vt == VT_VECTOR || vt == VT_UI1 {
        VariantKind::ByteArray
    } else if vt == VT_UNKNOWN {
        VariantKind::Unknown
    } else {
        VariantKind::Unexpected
    }
}

/// A property value, read according to its variant type.
pub enum AttributeValue {
    UInt32(u32),
    UInt64(u64),
    /// A double-precision number, held as its decimal text.
    Real(String),
    Clsid(u128),
    WideString(String),
    ByteArray,
    Unknown,
    /// A value of another variant type, held as that type's number.
    Unexpected(u16),
}

/// The text the viewer shows for a property value.
pub open spec fn value_text(value: AttributeValue) -> Seq<char> {
    match value {
        AttributeValue::UInt32(n) => decimal_text(n as nat),
        AttributeValue::UInt64(n) => decimal_text(n as nat),
        AttributeValue::Real(t) => t@,
        AttributeValue::Clsid(g) => guid_name_text(g),
        AttributeValue::WideString(t) => t@,
        AttributeValue::ByteArray => "<<byte array>>"@,
        AttributeValue::Unknown => "IUnknown"@,
        AttributeValue::Unexpected(vt) => "Unexpected attribute type (vt = "@ + decimal_text(
            vt as nat,
        ) + ")"@,
    }
}

/// The text the viewer shows for a property value.
pub fn format_value(value: &AttributeValue) -> (text: String)
    ensures
        text@ == value_text(*value),
{
    match value {
        AttributeValue::UInt32(n) => decimal_string(*n as u64),
        AttributeValue::UInt64(n) => decimal_string(*n),
        AttributeValue::Real(t) => t.clone(),
        AttributeValue::Clsid(g) => get_guid_name(*g),
        AttributeValue::WideString(t) => t.clone(),
        AttributeValue::ByteArray => "<<byte array>>".to_owned(),
        AttributeValue::Unknown => "IUnknown".to_owned(),
        AttributeValue::Unexpected(vt) => {
            let mut text = "Unexpected attribute type (vt = ".to_owned();
            append_decimal(&mut text, *vt as u64);
            text.append(")");
            text
        },
    }
}

/// One attribute of a media type: its identifier, the 64-bit word of its
/// value, and its value read according to its variant type.
pub struct Attribute {
    pub guid: u128,
    pub packed: u64,
    pub value: AttributeValue,
}

/// The line the viewer prints for an attribute: its name, a dash, and its
/// value's text (the special text where the attribute has one).
pub open spec fn attribute_line_text(attribute: Attribute) -> Seq<char> {
    guid_name_text(attribute.guid) + " - "@ + match special_case_text(
        attribute.guid,
        attribute.packed,
    ) {
        Some(t) => t,
        None => value_text(attribute.value),
    }
}

/// The line the viewer prints for an attribute.
pub fn attribute_line(attribute: &Attribute) -> (line: String)
    ensures
        line@ == attribute_line_text(*attribute),
{
    let value_string = match special_case_attribute_value(attribute.guid, attribute.packed) {
        Some(text) => text,
        None => format_value(&attribute.value),
    };
    let mut line = get_guid_name(attribute.guid);
    line.append(" - ");
    line.append(value_string.as_str());
    line
}

/// The lines the viewer prints for a media type with the given attributes:
/// one line per attribute, or a single line saying that it is empty.
pub open spec fn media_type_text(attributes: Seq<Attribute>) -> Seq<Seq<char>> {
    if attributes.len() == 0 {
        seq!["Empty media type"@]
    } else {
        attributes.map_values(|a: Attribute| attribute_line_text(a))
    }
}

/// The lines the viewer prints for a media type with the given attributes.
pub fn describe_media_type(attributes: &Vec<Attribute>) -> (lines: Vec<String>)
    ensures
        lines@.map_values(|l: String| l@) == media_type_text(attributes@),
{
    let mut lines: Vec<String> = Vec::new();
    if attributes.len() == 0 {
        lines.push("Empty media type".to_owned());
        proof {
            assert(lines@.map_values(|l: String| l@) =~= media_type_text(attributes@));
        }
        return lines;
    }
    let mut i: usize = 0;
    while i < attributes.len()
        invariant
            0 <= i <= attributes.len(),
            lines@.len() == i,
            forall|j: int| 0 <= j < i ==> #[trigger] lines@[j]@ == attribute_line_text(attributes@[j]),
        decreases attributes.len() - i,
    {
        let line = attribute_line(&attributes[i]);
        lines.push(line);
        i = i + 1;
    }
    proof {
        assert(lines@.map_values(|l: String| l@) =~= media_type_text(attributes@));
    }
    lines
}

/// The service identifier under which a media source is asked for itself
/// (`MF_MEDIASOURCE_SERVICE`).
pub const MF_MEDIASOURCE_SERVICE: u128 = 0xf09992f7_9fba_4c4a_a37f_8c47b4e1dfe7;

/// The interface identifier of `IMFMediaSource`.
pub const IID_IMF_MEDIA_SOURCE: u128 = 0x279a808d_aec7_40c8_9c6b_a6b492c78a66;

/// The error code for an interface that an object does not offer
/// (`E_NOINTERFACE`, `0x80004002`).
pub const E_NOINTERFACE: i32 = -2147467262;

/// The error code for a service that an object does not offer
/// (`MF_E_UNSUPPORTED_SERVICE`, `0xC00D36BA`).
pub const MF_E_UNSUPPORTED_SERVICE: i32 = -1072875846;

/// The answer of the wrapped media source to a request for service
/// `service` with interface `riid`: `Ok` when it hands out the inner media
/// source, else the error code it returns.
pub open spec fn service_answer(service: u128, riid: u128) -> Result<(), i32> {
    if service != MF_MEDIASOURCE_SERVICE {
        Err(MF_E_UNSUPPORTED_SERVICE)
    } else if riid != IID_IMF_MEDIA_SOURCE {
        Err(E_NOINTERFACE)
    } else {
        Ok(())
    }
}

/// Decides a request for service `service` with interface `riid` made to
/// the wrapped media source: only the media-source service with the
/// `IMFMediaSource` interface is offered.
pub fn get_service(service: u128, riid: u128) -> (r: Result<(), i32>)
    ensures
        r == service_answer(service, riid),
        service != MF_MEDIASOURCE_SERVICE ==> r == Err::<(), i32>(MF_E_UNSUPPORTED_SERVICE),
        service == MF_MEDIASOURCE_SERVICE && riid != IID_IMF_MEDIA_SOURCE ==> r == Err::<(), i32>(
            E_NOINTERFACE,
        ),
        service == MF_MEDIASOURCE_SERVICE && riid == IID_IMF_MEDIA_SOURCE ==> r == Ok::<(), i32>(()),
{
    proof {
        lemma_service_answers(service, riid);
    }
    if service == MF_MEDIASOURCE_SERVICE {
        if riid == IID_IMF_MEDIA_SOURCE {
            Ok(())
        } else {
            Err(E_NOINTERFACE)
        }
    } else {
        Err(MF_E_UNSUPPORTED_SERVICE)
    }
}

/// The larger of two numbers.
pub open spec fn max_nat(a: nat, b: nat) -> nat {
    if a < b {
        b
    } else {
        a
    }
}

/// The largest width among the video tracks' `(width, height)`, 0 for none.
pub open spec fn max_width(tracks: Seq<(u32, u32)>) -> nat
    decreases tracks.len(),
{
    if tracks.len() == 0 {
        0
    } else {
        max_nat(max_width(tracks.drop_last()), tracks.last().0 as nat)
    }
}

/// The largest height among the video tracks' `(width, height)`, 0 for none.
pub open spec fn max_height(tracks: Seq<(u32, u32)>) -> nat
    decreases tracks.len(),
{
    if tracks.len() == 0 {
        0
    } else {
        max_nat(max_height(tracks.drop_last()), tracks.last().1 as nat)
    }
}

/// The size of the surface that shows a media item: the largest width and
/// the largest height among its video tracks' `(width, height)`.
pub fn get_max_video_track_size(tracks: &Vec<(u32, u32)>) -> (size: (u32, u32))
    ensures
        size.0 == max_width(tracks@),
        size.1 == max_height(tracks@),
{
    let mut width: u32 = 0;
    let mut height: u32 = 0;
    let mut i: usize = 0;
    while i < tracks.len()
        invariant
            0 <= i <= tracks.len(),
            width == max_width(tracks@.take(i as int)),
            height == max_height(tracks@.take(i as int)),
        decreases tracks.len() - i,
    {
        let (w, h) = tracks[i];
        proof {
            assert(tracks@.take(i + 1).drop_last() =~= tracks@.take(i as int));
        }
        if width < w {
            width = w;
        }
        if height < h {
            height = h;
        }
        i = i + 1;
    }
    proof {
        assert(tracks@.take(i as int) =~= tracks@);
    }
    (width, height)
}

/// The surface is as large as every track, and no larger than needed: each
/// dimension is 0 for no tracks, and else that of some track.
pub proof fn lemma_max_track_size(tracks: Seq<(u32, u32)>)
    ensures
        forall|i: int| 0 <= i < tracks.len() ==> #[trigger] tracks[i].0 <= max_width(tracks)
            && tracks[i].1 <= max_height(tracks),
        tracks.len() == 0 ==> max_width(tracks) == 0 && max_height(tracks) == 0,
        tracks.len() > 0 ==> exists|i: int| 0 <= i < tracks.len() && #[trigger] tracks[i].0 == max_width(tracks),
        tracks.len() > 0 ==> exists|i: int| 0 <= i < tracks.len() && #[trigger] tracks[i].1 == max_height(tracks),
    decreases tracks.len(),
{
    if tracks.len() > 0 {
        let prefix = tracks.drop_last();
        lemma_max_track_size(prefix);
        assert forall|i: int| 0 <= i < tracks.len() implies #[trigger] tracks[i].0 <= max_width(tracks)
            && tracks[i].1 <= max_height(tracks) by {
            if i < tracks.len() - 1 {
                assert(tracks[i] == prefix[i]);
            }
        }
        let last = tracks.len() - 1;
        if max_width(tracks) != tracks[last].0 {
            let i = choose|i: int| 0 <= i < prefix.len() && #[trigger] prefix[i].0 == max_width(prefix);
            assert(tracks[i] == prefix[i]);
        }
        if max_height(tracks) != tracks[last].1 {
            let i = choose|i: int| 0 <= i < prefix.len() && #[trigger] prefix[i].1 == max_height(prefix);
            assert(tracks[i] == prefix[i]);
        }
    }
}

/// Every identifier of the name table is known: looking it up gives a name.
pub proof fn lemma_table_guids_are_named(i: int)
    requires
        0 <= i < guid_name_table().len(),
    ensures
        lookup_name(guid_name_table(), guid_name_table()[i].0) is Some,
{
    crate::guid_names::lemma_lookup_finds(guid_name_table(), guid_name_table()[i].0, i);
}

/// `hex_text` gives exactly `width` digits.
proof fn lemma_hex_text_len(v: nat, width: nat)
    ensures
        hex_text(v, width).len() == width,
    decreases width,
{
    if width > 0 {
        lemma_hex_text_len(v / 16, (width - 1) as nat);
    }
}

/// The text of every GUID has 36 characters, with dashes after the 8th,
/// 12th, 16th and 20th hexadecimal digit.
pub proof fn lemma_guid_text_shape(guid: u128)
    ensures
        guid_text(guid).len() == 36,
        guid_text(guid)[8] == '-',
        guid_text(guid)[13] == '-',
        guid_text(guid)[18] == '-',
        guid_text(guid)[23] == '-',
{
    lemma_hex_text_len(guid as nat, 32);
}

/// The five attributes that pack two 32-bit numbers show them as
/// `"<high> x <low>"`, the three apertures show a placeholder, and no other
/// attribute has a special text.
pub proof fn lemma_packed_pair_text(guid: u128, packed: u64)
    ensures
        guid == MF_MT_FRAME_RATE || guid == MF_MT_FRAME_RATE_RANGE_MAX || guid
            == MF_MT_FRAME_RATE_RANGE_MIN || guid == MF_MT_FRAME_SIZE || guid
            == MF_MT_PIXEL_ASPECT_RATIO ==> special_case_text(guid, packed) == Some(
            decimal_text((packed / 0x1_0000_0000) as nat) + " x "@ + decimal_text(
                (packed % 0x1_0000_0000) as nat,
            ),
        ),
        guid == MF_MT_GEOMETRIC_APERTURE || guid == MF_MT_MINIMUM_DISPLAY_APERTURE || guid
            == MF_MT_PAN_SCAN_APERTURE ==> special_case_text(guid, packed) == Some("TODO"@),
        guid != MF_MT_FRAME_RATE && guid != MF_MT_FRAME_RATE_RANGE_MAX && guid
            != MF_MT_FRAME_RATE_RANGE_MIN && guid != MF_MT_FRAME_SIZE && guid
            != MF_MT_PIXEL_ASPECT_RATIO && guid != MF_MT_GEOMETRIC_APERTURE && guid
            != MF_MT_MINIMUM_DISPLAY_APERTURE && guid != MF_MT_PAN_SCAN_APERTURE
            ==> special_case_text(guid, packed) is None,
{
}

/// A request for any service but the media-source one is refused as an
/// unsupported service, whatever the interface; the media-source service
/// asked for any interface but `IMFMediaSource` is refused as a missing
/// interface; only the two together are served.
pub proof fn lemma_service_answers(service: u128, riid: u128)
    ensures
        service != MF_MEDIASOURCE_SERVICE ==> service_answer(service, riid) == Err::<(), i32>(
            MF_E_UNSUPPORTED_SERVICE,
        ),
        service == MF_MEDIASOURCE_SERVICE && riid != IID_IMF_MEDIA_SOURCE ==> service_answer(
            service,
            riid,
        ) == Err::<(), i32>(E_NOINTERFACE),
        service == MF_MEDIASOURCE_SERVICE && riid == IID_IMF_MEDIA_SOURCE ==> service_answer(
            service,
            riid,
        ) == Ok::<(), i32>(()),
{
}

} // verus!
