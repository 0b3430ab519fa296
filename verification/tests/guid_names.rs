use vidcapview::guid_names::get_guid_name_const;

/// Identifiers and names as the Windows bindings define them.
const KNOWN: [(&str, u128); 141] = [
        ("MF_MT_MAJOR_TYPE", 0x48eba18e_f8c9_4687_bf11_0a74c9f96a8f),
        ("MF_MT_MAJOR_TYPE", 0x48eba18e_f8c9_4687_bf11_0a74c9f96a8f),
        ("MF_MT_SUBTYPE", 0xf7e34c9a_42e8_4714_b74b_cb29d72c35e5),
        ("MF_MT_ALL_SAMPLES_INDEPENDENT", 0xc9173739_5e56_461c_b713_46fb995cb95f),
        ("MF_MT_FIXED_SIZE_SAMPLES", 0xb8ebefaf_b718_4e04_b0a9_116775e3321b),
        ("MF_MT_COMPRESSED", 0x3afd0cee_18f2_4ba5_a110_8bea502e1f92),
        ("MF_MT_SAMPLE_SIZE", 0xdad3ab78_1990_408b_bce2_eba673dacc10),
        ("MF_MT_WRAPPED_TYPE", 0x4d3f7b23_d02f_4e6c_9bee_e4bf2c6c695d),
        ("MF_MT_AUDIO_NUM_CHANNELS", 0x37e48bf5_645e_4c5b_89de_ada9e29b696a),
        ("MF_MT_AUDIO_SAMPLES_PER_SECOND", 0x5faeeae7_0290_4c31_9e8a_c534f68d9dba),
        ("MF_MT_AUDIO_FLOAT_SAMPLES_PER_SECOND", 0xfb3b724a_cfb5_4319_aefe_6e42b2406132),
        ("MF_MT_AUDIO_AVG_BYTES_PER_SECOND", 0x1aab75c8_cfef_451c_ab95_ac034b8e1731),
        ("MF_MT_AUDIO_BLOCK_ALIGNMENT", 0x322de230_9eeb_43bd_ab7a_ff412251541d),
        ("MF_MT_AUDIO_BITS_PER_SAMPLE", 0xf2deb57f_40fa_4764_aa33_ed4f2d1ff669),
        ("MF_MT_AUDIO_VALID_BITS_PER_SAMPLE", 0xd9bf8d6a_9530_4b7c_9ddf_ff6fd58bbd06),
        ("MF_MT_AUDIO_SAMPLES_PER_BLOCK", 0xaab15aac_e13a_4995_9222_501ea15c6877),
        ("MF_MT_AUDIO_CHANNEL_MASK", 0x55fb5765_644a_4caf_8479_938983bb1588),
        ("MF_MT_AUDIO_FOLDDOWN_MATRIX", 0x9d62927c_36be_4cf2_b5c4_a3926e3e8711),
        ("MF_MT_AUDIO_WMADRC_PEAKREF", 0x9d62927d_36be_4cf2_b5c4_a3926e3e8711),
        ("MF_MT_AUDIO_WMADRC_PEAKTARGET", 0x9d62927e_36be_4cf2_b5c4_a3926e3e8711),
        ("MF_MT_AUDIO_WMADRC_AVGREF", 0x9d62927f_36be_4cf2_b5c4_a3926e3e8711),
        ("MF_MT_AUDIO_WMADRC_AVGTARGET", 0x9d629280_36be_4cf2_b5c4_a3926e3e8711),
        ("MF_MT_AUDIO_PREFER_WAVEFORMATEX", 0xa901aaba_e037_458a_bdf6_545be2074042),
        ("MF_MT_AAC_PAYLOAD_TYPE", 0xbfbabe79_7434_4d1c_94f0_72a3b9e17188),
        ("MF_MT_AAC_AUDIO_PROFILE_LEVEL_INDICATION", 0x7632f0e6_9538_4d61_acda_ea29c8c14456),
        ("MF_MT_FRAME_SIZE", 0x1652c33d_d6b2_4012_b834_72030849a37d),
        ("MF_MT_FRAME_RATE", 0xc459a2e8_3d2c_4e44_b132_fee5156c7bb0),
        ("MF_MT_FRAME_RATE_RANGE_MAX", 0xe3371d41_b4cf_4a05_bd4e_20b88bb2c4d6),
        ("MF_MT_FRAME_RATE_RANGE_MIN", 0xd2e7558c_dc1f_403f_9a72_d28bb1eb3b5e),
        ("MF_MT_PIXEL_ASPECT_RATIO", 0xc6376a1e_8d0a_4027_be45_6d9a0ad39bb6),
        ("MF_MT_DRM_FLAGS", 0x8772f323_355a_4cc7_bb78_6d61a048ae82),
        ("MF_MT_PAD_CONTROL_FLAGS", 0x4d0e73e5_80ea_4354_a9d0_1176ceb028ea),
        ("MF_MT_SOURCE_CONTENT_HINT", 0x68aca3cc_22d0_44e6_85f8_28167197fa38),
        ("MF_MT_VIDEO_CHROMA_SITING", 0x65df2370_c773_4c33_aa64_843e068efb0c),
        ("MF_MT_INTERLACE_MODE", 0xe2724bb8_e676_4806_b4b2_a8d6efb44ccd),
        ("MF_MT_TRANSFER_FUNCTION", 0x5fb0fce9_be5c_4935_a811_ec838f8eed93),
        ("MF_MT_VIDEO_PRIMARIES", 0xdbfbe4d7_0740_4ee0_8192_850ab0e21935),
        ("MF_MT_CUSTOM_VIDEO_PRIMARIES", 0x47537213_8cfb_4722_aa34_fbc9e24d77b8),
        ("MF_MT_YUV_MATRIX", 0x3e23d450_2c75_4d25_a00e_b91670d12327),
        ("MF_MT_VIDEO_LIGHTING", 0x53a0529c_890b_4216_8bf9_599367ad6d20),
        ("MF_MT_VIDEO_NOMINAL_RANGE", 0xc21b8ee5_b956_4071_8daf_325edf5cab11),
        ("MF_MT_GEOMETRIC_APERTURE", 0x66758743_7e5f_400d_980a_aa8596c85696),
        ("MF_MT_MINIMUM_DISPLAY_APERTURE", 0xd7388766_18fe_48c6_a177_ee894867c8c4),
        ("MF_MT_PAN_SCAN_APERTURE", 0x79614dde_9187_48fb_b8c7_4d52689de649),
        ("MF_MT_PAN_SCAN_ENABLED", 0x4b7f6bc3_8b13_40b2_a993_abf630b8204e),
        ("MF_MT_AVG_BITRATE", 0x20332624_fb0d_4d9e_bd0d_cbf6786c102e),
        ("MF_MT_AVG_BIT_ERROR_RATE", 0x799cabd6_3508_4db4_a3c7_569cd533deb1),
        ("MF_MT_MAX_KEYFRAME_SPACING", 0xc16eb52b_73a1_476f_8d62_839d6a020652),
        ("MF_MT_DEFAULT_STRIDE", 0x644b4e48_1e02_4516_b0eb_c01ca9d49ac6),
        ("MF_MT_PALETTE", 0x6d283f42_9846_4410_afd9_654d503b1a54),
        ("MF_MT_USER_DATA", 0xb6bc765f_4c3b_40a4_bd51_2535b66fe09d),
        ("MF_MT_AM_FORMAT_TYPE", 0x73d1072d_1870_4174_a063_29ff4ff6c11e),
        ("MF_MT_MPEG_START_TIME_CODE", 0x91f67885_4333_4280_97cd_bd5a6c03a06e),
        ("MF_MT_MPEG2_PROFILE", 0xad76a80b_2d5c_4e0b_b375_64e520137036),
        ("MF_MT_MPEG2_LEVEL", 0x96f66574_11c5_4015_8666_bff516436da7),
        ("MF_MT_MPEG2_FLAGS", 0x31e3991d_f701_4b2f_b426_8ae3bda9e04b),
        ("MF_MT_MPEG_SEQUENCE_HEADER", 0x3c036de7_3ad0_4c9e_9216_ee6d6ac21cb3),
        ("MF_MT_DV_AAUX_SRC_PACK_0", 0x84bd5d88_0fb8_4ac8_be4b_a8848bef98f3),
        ("MF_MT_DV_AAUX_CTRL_PACK_0", 0xf731004e_1dd1_4515_aabe_f0c06aa536ac),
        ("MF_MT_DV_AAUX_SRC_PACK_1", 0x720e6544_0225_4003_a651_0196563a958e),
        ("MF_MT_DV_AAUX_CTRL_PACK_1", 0xcd1f470d_1f04_4fe0_bfb9_d07ae0386ad8),
        ("MF_MT_DV_VAUX_SRC_PACK", 0x41402d9d_7b57_43c6_b129_2cb997f15009),
        ("MF_MT_DV_VAUX_CTRL_PACK", 0x2f84e1c4_0da1_4788_938e_0dfbfbb34b48),
        ("MF_MT_ARBITRARY_HEADER", 0x9e6bd6f5_0109_4f95_84ac_9309153a19fc),
        ("MF_MT_ARBITRARY_FORMAT", 0x5a75b249_0d7d_49a1_a1c3_e0d87f0cade5),
        ("MF_MT_IMAGE_LOSS_TOLERANT", 0xed062cf4_e34e_4922_be99_934032133d7c),
        ("MF_MT_MPEG4_SAMPLE_DESCRIPTION", 0x261e9d83_9529_4b8f_a111_8b9c950a81a9),
        ("MF_MT_MPEG4_CURRENT_SAMPLE_ENTRY", 0x9aa7e155_b64a_4c1d_a500_455d600b6560),
        ("MF_MT_ORIGINAL_4CC", 0xd7be3fe0_2bc7_492d_b843_61a1919b70c3),
        ("MF_MT_ORIGINAL_WAVE_FORMAT_TAG", 0x8cbbc843_9fd9_49c2_882f_a72586c408ad),
        ("MFMediaType_Audio", 0x73647561_0000_0010_8000_00aa00389b71),
        ("MFMediaType_Video", 0x73646976_0000_0010_8000_00aa00389b71),
        ("MFMediaType_Protected", 0x7b4b6fe6_9d04_4494_be14_7e0bd076c8e4),
        ("MFMediaType_SAMI", 0xe69669a0_3dcd_40cb_9e2e_3708387c0616),
        ("MFMediaType_Script", 0x72178c22_e45b_11d5_bc2a_00b0d0f3f4ab),
        ("MFMediaType_Image", 0x72178c23_e45b_11d5_bc2a_00b0d0f3f4ab),
        ("MFMediaType_HTML", 0x72178c24_e45b_11d5_bc2a_00b0d0f3f4ab),
        ("MFMediaType_Binary", 0x72178c25_e45b_11d5_bc2a_00b0d0f3f4ab),
        ("MFMediaType_FileTransfer", 0x72178c26_e45b_11d5_bc2a_00b0d0f3f4ab),
        ("MFVideoFormat_AI44", 0x34344941_0000_0010_8000_00aa00389b71),
        ("MFVideoFormat_ARGB32", 0x00000015_0000_0010_8000_00aa00389b71),
        ("MFVideoFormat_AYUV", 0x56555941_0000_0010_8000_00aa00389b71),
        ("MFVideoFormat_DV25", 0x35327664_0000_0010_8000_00aa00389b71),
        ("MFVideoFormat_DV50", 0x30357664_0000_0010_8000_00aa00389b71),
        ("MFVideoFormat_DVH1", 0x31687664_0000_0010_8000_00aa00389b71),
        ("MFVideoFormat_DVSD", 0x64737664_0000_0010_8000_00aa00389b71),
        ("MFVideoFormat_DVSL", 0x6c737664_0000_0010_8000_00aa00389b71),
        ("MFVideoFormat_H264", 0x34363248_0000_0010_8000_00aa00389b71),
        ("MFVideoFormat_I420", 0x30323449_0000_0010_8000_00aa00389b71),
        ("MFVideoFormat_IYUV", 0x56555949_0000_0010_8000_00aa00389b71),
        ("MFVideoFormat_M4S2", 0x3253344d_0000_0010_8000_00aa00389b71),
        ("MFVideoFormat_MJPG", 0x47504a4d_0000_0010_8000_00aa00389b71),
        ("MFVideoFormat_MP43", 0x3334504d_0000_0010_8000_00aa00389b71),
        ("MFVideoFormat_MP4S", 0x5334504d_0000_0010_8000_00aa00389b71),
        ("MFVideoFormat_MP4V", 0x5634504d_0000_0010_8000_00aa00389b71),
        ("MFVideoFormat_MPG1", 0x3147504d_0000_0010_8000_00aa00389b71),
        ("MFVideoFormat_MSS1", 0x3153534d_0000_0010_8000_00aa00389b71),
        ("MFVideoFormat_MSS2", 0x3253534d_0000_0010_8000_00aa00389b71),
        ("MFVideoFormat_NV11", 0x3131564e_0000_0010_8000_00aa00389b71),
        ("MFVideoFormat_NV12", 0x3231564e_0000_0010_8000_00aa00389b71),
        ("MFVideoFormat_P010", 0x30313050_0000_0010_8000_00aa00389b71),
        ("MFVideoFormat_P016", 0x36313050_0000_0010_8000_00aa00389b71),
        ("MFVideoFormat_P210", 0x30313250_0000_0010_8000_00aa00389b71),
        ("MFVideoFormat_P216", 0x36313250_0000_0010_8000_00aa00389b71),
        ("MFVideoFormat_RGB24", 0x00000014_0000_0010_8000_00aa00389b71),
        ("MFVideoFormat_RGB32", 0x00000016_0000_0010_8000_00aa00389b71),
        ("MFVideoFormat_RGB555", 0x00000018_0000_0010_8000_00aa00389b71),
        ("MFVideoFormat_RGB565", 0x00000017_0000_0010_8000_00aa00389b71),
        ("MFVideoFormat_RGB8", 0x00000029_0000_0010_8000_00aa00389b71),
        ("MFVideoFormat_UYVY", 0x59565955_0000_0010_8000_00aa00389b71),
        ("MFVideoFormat_v210", 0x30313276_0000_0010_8000_00aa00389b71),
        ("MFVideoFormat_v410", 0x30313476_0000_0010_8000_00aa00389b71),
        ("MFVideoFormat_WMV1", 0x31564d57_0000_0010_8000_00aa00389b71),
        ("MFVideoFormat_WMV2", 0x32564d57_0000_0010_8000_00aa00389b71),
        ("MFVideoFormat_WMV3", 0x33564d57_0000_0010_8000_00aa00389b71),
        ("MFVideoFormat_WVC1", 0x31435657_0000_0010_8000_00aa00389b71),
        ("MFVideoFormat_Y210", 0x30313259_0000_0010_8000_00aa00389b71),
        ("MFVideoFormat_Y216", 0x36313259_0000_0010_8000_00aa00389b71),
        ("MFVideoFormat_Y410", 0x30313459_0000_0010_8000_00aa00389b71),
        ("MFVideoFormat_Y416", 0x36313459_0000_0010_8000_00aa00389b71),
        ("MFVideoFormat_Y41P", 0x50313459_0000_0010_8000_00aa00389b71),
        ("MFVideoFormat_Y41T", 0x54313459_0000_0010_8000_00aa00389b71),
        ("MFVideoFormat_YUY2", 0x32595559_0000_0010_8000_00aa00389b71),
        ("MFVideoFormat_YV12", 0x32315659_0000_0010_8000_00aa00389b71),
        ("MFVideoFormat_YVYU", 0x55595659_0000_0010_8000_00aa00389b71),
        ("MFAudioFormat_PCM", 0x00000001_0000_0010_8000_00aa00389b71),
        ("MFAudioFormat_Float", 0x00000003_0000_0010_8000_00aa00389b71),
        ("MFAudioFormat_DTS", 0x00000008_0000_0010_8000_00aa00389b71),
        ("MFAudioFormat_Dolby_AC3_SPDIF", 0x00000092_0000_0010_8000_00aa00389b71),
        ("MFAudioFormat_DRM", 0x00000009_0000_0010_8000_00aa00389b71),
        ("MFAudioFormat_WMAudioV8", 0x00000161_0000_0010_8000_00aa00389b71),
        ("MFAudioFormat_WMAudioV9", 0x00000162_0000_0010_8000_00aa00389b71),
        ("MFAudioFormat_WMAudio_Lossless", 0x00000163_0000_0010_8000_00aa00389b71),
        ("MFAudioFormat_WMASPDIF", 0x00000164_0000_0010_8000_00aa00389b71),
        ("MFAudioFormat_MSP1", 0x0000000a_0000_0010_8000_00aa00389b71),
        ("MFAudioFormat_MP3", 0x00000055_0000_0010_8000_00aa00389b71),
        ("MFAudioFormat_MPEG", 0x00000050_0000_0010_8000_00aa00389b71),
        ("MFAudioFormat_AAC", 0x00001610_0000_0010_8000_00aa00389b71),
        ("MFAudioFormat_ADTS", 0x00001600_0000_0010_8000_00aa00389b71),
        ("FORMAT_VideoInfo", 0x05589f80_c356_11ce_bf01_00aa0055595a),
        ("FORMAT_VideoInfo2", 0xf72a76a0_eb0a_11d0_ace4_0000c0cc16ba),
];

#[test]
fn every_known_guid_has_its_name() {
    for (name, value) in KNOWN.iter() {
        assert_eq!(get_guid_name_const(*value), Some(*name), "{}", name);
    }
}

#[test]
fn unknown_guid_has_no_name() {
    assert_eq!(get_guid_name_const(0), None);
    assert_eq!(get_guid_name_const(0x48eba18e_f8c9_4687_bf11_0a74c9f96a8e), None);
}

#[test]
fn duplicate_entry_keeps_first_name() {
    assert_eq!(
        get_guid_name_const(0x48eba18e_f8c9_4687_bf11_0a74c9f96a8f),
        Some("MF_MT_MAJOR_TYPE")
    );
}
