use vidcapview::guid_names::{MF_MT_FRAME_SIZE, MF_MT_GEOMETRIC_APERTURE, MF_MT_SUBTYPE};
use vidcapview::media::{
    attribute_line, describe_media_type, format_value, get_guid_name, get_max_video_track_size,
    get_service, special_case_attribute_value, unpack_2_u32_as_u64, variant_kind, Attribute,
    AttributeValue, VariantKind, E_NOINTERFACE, IID_IMF_MEDIA_SOURCE, MF_E_UNSUPPORTED_SERVICE,
    MF_MEDIASOURCE_SERVICE,
};

#[test]
fn unpack_splits_high_and_low_words() {
    let mut high = 0;
    let mut low = 0;
    unpack_2_u32_as_u64(0x0000_0780_0000_0438, &mut high, &mut low);
    assert_eq!((high, low), (1920, 1080));
    unpack_2_u32_as_u64(u64::MAX, &mut high, &mut low);
    assert_eq!((high, low), (u32::MAX, u32::MAX));
    unpack_2_u32_as_u64(0, &mut high, &mut low);
    assert_eq!((high, low), (0, 0));
}

#[test]
fn unpack_then_repack_gives_the_value() {
    for v in [0u64, 1, 0xdead_beef_0bad_f00d, u64::MAX, 1 << 32] {
        let mut high = 0;
        let mut low = 0;
        unpack_2_u32_as_u64(v, &mut high, &mut low);
        assert_eq!(((high as u64) << 32) | low as u64, v);
    }
}

#[test]
fn guid_name_of_known_guid() {
    assert_eq!(get_guid_name(MF_MT_FRAME_SIZE), "MF_MT_FRAME_SIZE");
}

#[test]
fn guid_name_of_unknown_guid_is_its_text_form() {
    assert_eq!(
        get_guid_name(0x0123_4567_89ab_cdef_0011_2233_4455_6677),
        "01234567-89AB-CDEF-0011-223344556677"
    );
    assert_eq!(get_guid_name(0), "00000000-0000-0000-0000-000000000000");
    assert_eq!(get_guid_name(u128::MAX), "FFFFFFFF-FFFF-FFFF-FFFF-FFFFFFFFFFFF");
}

#[test]
fn special_case_for_packed_pairs() {
    assert_eq!(
        special_case_attribute_value(MF_MT_FRAME_SIZE, (1280u64 << 32) | 720),
        Some("1280 x 720".to_owned())
    );
}

#[test]
fn special_case_for_apertures() {
    assert_eq!(special_case_attribute_value(MF_MT_GEOMETRIC_APERTURE, 5), Some("TODO".to_owned()));
}

#[test]
fn no_special_case_for_other_attributes() {
    assert_eq!(special_case_attribute_value(MF_MT_SUBTYPE, 5), None);
}

#[test]
fn variant_kinds() {
    assert_eq!(variant_kind(19), VariantKind::UInt32);
    assert_eq!(variant_kind(21), VariantKind::UInt64);
    assert_eq!(variant_kind(5), VariantKind::Real);
    assert_eq!(variant_kind(72), VariantKind::Clsid);
    assert_eq!(variant_kind(31), VariantKind::WideString);
    assert_eq!(variant_kind(4096), VariantKind::ByteArray);
    assert_eq!(variant_kind(17), VariantKind::ByteArray);
    assert_eq!(variant_kind(4096 | 17), VariantKind::Unexpected);
    assert_eq!(variant_kind(13), VariantKind::Unknown);
    assert_eq!(variant_kind(0), VariantKind::Unexpected);
}

#[test]
fn value_texts() {
    assert_eq!(format_value(&AttributeValue::UInt32(4294967295)), "4294967295");
    assert_eq!(format_value(&AttributeValue::UInt64(18446744073709551615)), "18446744073709551615");
    assert_eq!(format_value(&AttributeValue::UInt64(0)), "0");
    assert_eq!(format_value(&AttributeValue::Real("2.5".to_owned())), "2.5");
    assert_eq!(format_value(&AttributeValue::Clsid(MF_MT_SUBTYPE)), "MF_MT_SUBTYPE");
    assert_eq!(format_value(&AttributeValue::WideString("Camera".to_owned())), "Camera");
    assert_eq!(format_value(&AttributeValue::ByteArray), "<<byte array>>");
    assert_eq!(format_value(&AttributeValue::Unknown), "IUnknown");
    assert_eq!(format_value(&AttributeValue::Unexpected(4113)), "Unexpected attribute type (vt = 4113)");
}

#[test]
fn attribute_lines() {
    let a = Attribute { guid: MF_MT_FRAME_SIZE, packed: (640u64 << 32) | 480, value: AttributeValue::UInt64((640u64 << 32) | 480) };
    assert_eq!(attribute_line(&a), "MF_MT_FRAME_SIZE - 640 x 480");
    let b = Attribute { guid: MF_MT_SUBTYPE, packed: 0, value: AttributeValue::Clsid(0x32595559_0000_0010_8000_00aa00389b71) };
    assert_eq!(attribute_line(&b), "MF_MT_SUBTYPE - MFVideoFormat_YUY2");
    let c = Attribute { guid: 7, packed: 0, value: AttributeValue::UInt32(3) };
    assert_eq!(attribute_line(&c), "00000000-0000-0000-0000-000000000007 - 3");
}

#[test]
fn media_type_description() {
    assert_eq!(describe_media_type(&vec![]), vec!["Empty media type".to_owned()]);
    let attrs = vec![
        Attribute { guid: MF_MT_SUBTYPE, packed: 0, value: AttributeValue::Unknown },
        Attribute { guid: MF_MT_GEOMETRIC_APERTURE, packed: 0, value: AttributeValue::ByteArray },
    ];
    assert_eq!(
        describe_media_type(&attrs),
        vec!["MF_MT_SUBTYPE - IUnknown".to_owned(), "MF_MT_GEOMETRIC_APERTURE - TODO".to_owned()]
    );
}

#[test]
fn service_requests() {
    assert_eq!(get_service(MF_MEDIASOURCE_SERVICE, IID_IMF_MEDIA_SOURCE), Ok(()));
    assert_eq!(get_service(MF_MEDIASOURCE_SERVICE, 1), Err(E_NOINTERFACE));
    assert_eq!(get_service(1, IID_IMF_MEDIA_SOURCE), Err(MF_E_UNSUPPORTED_SERVICE));
    assert_eq!(E_NOINTERFACE as u32, 0x80004002);
    assert_eq!(MF_E_UNSUPPORTED_SERVICE as u32, 0xC00D36BA);
}

#[test]
fn max_video_track_size() {
    assert_eq!(get_max_video_track_size(&vec![]), (0, 0));
    assert_eq!(get_max_video_track_size(&vec![(640, 480), (1920, 360), (800, 600)]), (1920, 600));
}
