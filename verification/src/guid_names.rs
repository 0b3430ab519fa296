use vstd::prelude::*;

verus! {

// Identifiers of Media Foundation attributes, media types and formats, as
// 128-bit values (the GUID's fields read big-endian, as in its text form).

pub const MF_MT_MAJOR_TYPE: u128 = 0x48eba18e_f8c9_4687_bf11_0a74c9f96a8f;
pub const MF_MT_SUBTYPE: u128 = 0xf7e34c9a_42e8_4714_b74b_cb29d72c35e5;
pub const MF_MT_ALL_SAMPLES_INDEPENDENT: u128 = 0xc9173739_5e56_461c_b713_46fb995cb95f;
pub const MF_MT_FIXED_SIZE_SAMPLES: u128 = 0xb8ebefaf_b718_4e04_b0a9_116775e3321b;
pub const MF_MT_COMPRESSED: u128 = 0x3afd0cee_18f2_4ba5_a110_8bea502e1f92;
pub const MF_MT_SAMPLE_SIZE: u128 = 0xdad3ab78_1990_408b_bce2_eba673dacc10;
pub const MF_MT_WRAPPED_TYPE: u128 = 0x4d3f7b23_d02f_4e6c_9bee_e4bf2c6c695d;
pub const MF_MT_AUDIO_NUM_CHANNELS: u128 = 0x37e48bf5_645e_4c5b_89de_ada9e29b696a;
pub const MF_MT_AUDIO_SAMPLES_PER_SECOND: u128 = 0x5faeeae7_0290_4c31_9e8a_c534f68d9dba;
pub const MF_MT_AUDIO_FLOAT_SAMPLES_PER_SECOND: u128 = 0xfb3b724a_cfb5_4319_aefe_6e42b2406132;
pub const MF_MT_AUDIO_AVG_BYTES_PER_SECOND: u128 = 0x1aab75c8_cfef_451c_ab95_ac034b8e1731;
pub const MF_MT_AUDIO_BLOCK_ALIGNMENT: u128 = 0x322de230_9eeb_43bd_ab7a_ff412251541d;
pub const MF_MT_AUDIO_BITS_PER_SAMPLE: u128 = 0xf2deb57f_40fa_4764_aa33_ed4f2d1ff669;
pub const MF_MT_AUDIO_VALID_BITS_PER_SAMPLE: u128 = 0xd9bf8d6a_9530_4b7c_9ddf_ff6fd58bbd06;
pub const MF_MT_AUDIO_SAMPLES_PER_BLOCK: u128 = 0xaab15aac_e13a_4995_9222_501ea15c6877;
pub const MF_MT_AUDIO_CHANNEL_MASK: u128 = 0x55fb5765_644a_4caf_8479_938983bb1588;
pub const MF_MT_AUDIO_FOLDDOWN_MATRIX: u128 = 0x9d62927c_36be_4cf2_b5c4_a3926e3e8711;
pub const MF_MT_AUDIO_WMADRC_PEAKREF: u128 = 0x9d62927d_36be_4cf2_b5c4_a3926e3e8711;
pub const MF_MT_AUDIO_WMADRC_PEAKTARGET: u128 = 0x9d62927e_36be_4cf2_b5c4_a3926e3e8711;
pub const MF_MT_AUDIO_WMADRC_AVGREF: u128 = 0x9d62927f_36be_4cf2_b5c4_a3926e3e8711;
pub const MF_MT_AUDIO_WMADRC_AVGTARGET: u128 = 0x9d629280_36be_4cf2_b5c4_a3926e3e8711;
pub const MF_MT_AUDIO_PREFER_WAVEFORMATEX: u128 = 0xa901aaba_e037_458a_bdf6_545be2074042;
pub const MF_MT_AAC_PAYLOAD_TYPE: u128 = 0xbfbabe79_7434_4d1c_94f0_72a3b9e17188;
pub const MF_MT_AAC_AUDIO_PROFILE_LEVEL_INDICATION: u128 = 0x7632f0e6_9538_4d61_acda_ea29c8c14456;
pub const MF_MT_FRAME_SIZE: u128 = 0x1652c33d_d6b2_4012_b834_72030849a37d;
pub const MF_MT_FRAME_RATE: u128 = 0xc459a2e8_3d2c_4e44_b132_fee5156c7bb0;
pub const MF_MT_FRAME_RATE_RANGE_MAX: u128 = 0xe3371d41_b4cf_4a05_bd4e_20b88bb2c4d6;
pub const MF_MT_FRAME_RATE_RANGE_MIN: u128 = 0xd2e7558c_dc1f_403f_9a72_d28bb1eb3b5e;
pub const MF_MT_PIXEL_ASPECT_RATIO: u128 = 0xc6376a1e_8d0a_4027_be45_6d9a0ad39bb6;
pub const MF_MT_DRM_FLAGS: u128 = 0x8772f323_355a_4cc7_bb78_6d61a048ae82;
pub const MF_MT_PAD_CONTROL_FLAGS: u128 = 0x4d0e73e5_80ea_4354_a9d0_1176ceb028ea;
pub const MF_MT_SOURCE_CONTENT_HINT: u128 = 0x68aca3cc_22d0_44e6_85f8_28167197fa38;
pub const MF_MT_VIDEO_CHROMA_SITING: u128 = 0x65df2370_c773_4c33_aa64_843e068efb0c;
pub const MF_MT_INTERLACE_MODE: u128 = 0xe2724bb8_e676_4806_b4b2_a8d6efb44ccd;
pub const MF_MT_TRANSFER_FUNCTION: u128 = 0x5fb0fce9_be5c_4935_a811_ec838f8eed93;
pub const MF_MT_VIDEO_PRIMARIES: u128 = 0xdbfbe4d7_0740_4ee0_8192_850ab0e21935;
pub const MF_MT_CUSTOM_VIDEO_PRIMARIES: u128 = 0x47537213_8cfb_4722_aa34_fbc9e24d77b8;
pub const MF_MT_YUV_MATRIX: u128 = 0x3e23d450_2c75_4d25_a00e_b91670d12327;
pub const MF_MT_VIDEO_LIGHTING: u128 = 0x53a0529c_890b_4216_8bf9_599367ad6d20;
pub const MF_MT_VIDEO_NOMINAL_RANGE: u128 = 0xc21b8ee5_b956_4071_8daf_325edf5cab11;
pub const MF_MT_GEOMETRIC_APERTURE: u128 = 0x66758743_7e5f_400d_980a_aa8596c85696;
pub const MF_MT_MINIMUM_DISPLAY_APERTURE: u128 = 0xd7388766_18fe_48c6_a177_ee894867c8c4;
pub const MF_MT_PAN_SCAN_APERTURE: u128 = 0x79614dde_9187_48fb_b8c7_4d52689de649;
pub const MF_MT_PAN_SCAN_ENABLED: u128 = 0x4b7f6bc3_8b13_40b2_a993_abf630b8204e;
pub const MF_MT_AVG_BITRATE: u128 = 0x20332624_fb0d_4d9e_bd0d_cbf6786c102e;
pub const MF_MT_AVG_BIT_ERROR_RATE: u128 = 0x799cabd6_3508_4db4_a3c7_569cd533deb1;
pub const MF_MT_MAX_KEYFRAME_SPACING: u128 = 0xc16eb52b_73a1_476f_8d62_839d6a020652;
pub const MF_MT_DEFAULT_STRIDE: u128 = 0x644b4e48_1e02_4516_b0eb_c01ca9d49ac6;
pub const MF_MT_PALETTE: u128 = 0x6d283f42_9846_4410_afd9_654d503b1a54;
pub const MF_MT_USER_DATA: u128 = 0xb6bc765f_4c3b_40a4_bd51_2535b66fe09d;
pub const MF_MT_AM_FORMAT_TYPE: u128 = 0x73d1072d_1870_4174_a063_29ff4ff6c11e;
pub const MF_MT_MPEG_START_TIME_CODE: u128 = 0x91f67885_4333_4280_97cd_bd5a6c03a06e;
pub const MF_MT_MPEG2_PROFILE: u128 = 0xad76a80b_2d5c_4e0b_b375_64e520137036;
pub const MF_MT_MPEG2_LEVEL: u128 = 0x96f66574_11c5_4015_8666_bff516436da7;
pub const MF_MT_MPEG2_FLAGS: u128 = 0x31e3991d_f701_4b2f_b426_8ae3bda9e04b;
pub const MF_MT_MPEG_SEQUENCE_HEADER: u128 = 0x3c036de7_3ad0_4c9e_9216_ee6d6ac21cb3;
pub const MF_MT_DV_AAUX_SRC_PACK_0: u128 = 0x84bd5d88_0fb8_4ac8_be4b_a8848bef98f3;
pub const MF_MT_DV_AAUX_CTRL_PACK_0: u128 = 0xf731004e_1dd1_4515_aabe_f0c06aa536ac;
pub const MF_MT_DV_AAUX_SRC_PACK_1: u128 = 0x720e6544_0225_4003_a651_0196563a958e;
pub const MF_MT_DV_AAUX_CTRL_PACK_1: u128 = 0xcd1f470d_1f04_4fe0_bfb9_d07ae0386ad8;
pub const MF_MT_DV_VAUX_SRC_PACK: u128 = 0x41402d9d_7b57_43c6_b129_2cb997f15009;
pub const MF_MT_DV_VAUX_CTRL_PACK: u128 = 0x2f84e1c4_0da1_4788_938e_0dfbfbb34b48;
pub const MF_MT_ARBITRARY_HEADER: u128 = 0x9e6bd6f5_0109_4f95_84ac_9309153a19fc;
pub const MF_MT_ARBITRARY_FORMAT: u128 = 0x5a75b249_0d7d_49a1_a1c3_e0d87f0cade5;
pub const MF_MT_IMAGE_LOSS_TOLERANT: u128 = 0xed062cf4_e34e_4922_be99_934032133d7c;
pub const MF_MT_MPEG4_SAMPLE_DESCRIPTION: u128 = 0x261e9d83_9529_4b8f_a111_8b9c950a81a9;
pub const MF_MT_MPEG4_CURRENT_SAMPLE_ENTRY: u128 = 0x9aa7e155_b64a_4c1d_a500_455d600b6560;
pub const MF_MT_ORIGINAL_4CC: u128 = 0xd7be3fe0_2bc7_492d_b843_61a1919b70c3;
pub const MF_MT_ORIGINAL_WAVE_FORMAT_TAG: u128 = 0x8cbbc843_9fd9_49c2_882f_a72586c408ad;
pub const MFMediaType_Audio: u128 = 0x73647561_0000_0010_8000_00aa00389b71;
pub const MFMediaType_Video: u128 = 0x73646976_0000_0010_8000_00aa00389b71;
pub const MFMediaType_Protected: u128 = 0x7b4b6fe6_9d04_4494_be14_7e0bd076c8e4;
pub const MFMediaType_SAMI: u128 = 0xe69669a0_3dcd_40cb_9e2e_3708387c0616;
pub const MFMediaType_Script: u128 = 0x72178c22_e45b_11d5_bc2a_00b0d0f3f4ab;
pub const MFMediaType_Image: u128 = 0x72178c23_e45b_11d5_bc2a_00b0d0f3f4ab;
pub const MFMediaType_HTML: u128 = 0x72178c24_e45b_11d5_bc2a_00b0d0f3f4ab;
pub const MFMediaType_Binary: u128 = 0x72178c25_e45b_11d5_bc2a_00b0d0f3f4ab;
pub const MFMediaType_FileTransfer: u128 = 0x72178c26_e45b_11d5_bc2a_00b0d0f3f4ab;
pub const MFVideoFormat_AI44: u128 = 0x34344941_0000_0010_8000_00aa00389b71;
pub const MFVideoFormat_ARGB32: u128 = 0x00000015_0000_0010_8000_00aa00389b71;
pub const MFVideoFormat_AYUV: u128 = 0x56555941_0000_0010_8000_00aa00389b71;
pub const MFVideoFormat_DV25: u128 = 0x35327664_0000_0010_8000_00aa00389b71;
pub const MFVideoFormat_DV50: u128 = 0x30357664_0000_0010_8000_00aa00389b71;
pub const MFVideoFormat_DVH1: u128 = 0x31687664_0000_0010_8000_00aa00389b71;
pub const MFVideoFormat_DVSD: u128 = 0x64737664_0000_0010_8000_00aa00389b71;
pub const MFVideoFormat_DVSL: u128 = 0x6c737664_0000_0010_8000_00aa00389b71;
pub const MFVideoFormat_H264: u128 = 0x34363248_0000_0010_8000_00aa00389b71;
pub const MFVideoFormat_I420: u128 = 0x30323449_0000_0010_8000_00aa00389b71;
pub const MFVideoFormat_IYUV: u128 = 0x56555949_0000_0010_8000_00aa00389b71;
pub const MFVideoFormat_M4S2: u128 = 0x3253344d_0000_0010_8000_00aa00389b71;
pub const MFVideoFormat_MJPG: u128 = 0x47504a4d_0000_0010_8000_00aa00389b71;
pub const MFVideoFormat_MP43: u128 = 0x3334504d_0000_0010_8000_00aa00389b71;
pub const MFVideoFormat_MP4S: u128 = 0x5334504d_0000_0010_8000_00aa00389b71;
pub const MFVideoFormat_MP4V: u128 = 0x5634504d_0000_0010_8000_00aa00389b71;
pub const MFVideoFormat_MPG1: u128 = 0x3147504d_0000_0010_8000_00aa00389b71;
pub const MFVideoFormat_MSS1: u128 = 0x3153534d_0000_0010_8000_00aa00389b71;
pub const MFVideoFormat_MSS2: u128 = 0x3253534d_0000_0010_8000_00aa00389b71;
pub const MFVideoFormat_NV11: u128 = 0x3131564e_0000_0010_8000_00aa00389b71;
pub const MFVideoFormat_NV12: u128 = 0x3231564e_0000_0010_8000_00aa00389b71;
pub const MFVideoFormat_P010: u128 = 0x30313050_0000_0010_8000_00aa00389b71;
pub const MFVideoFormat_P016: u128 = 0x36313050_0000_0010_8000_00aa00389b71;
pub const MFVideoFormat_P210: u128 = 0x30313250_0000_0010_8000_00aa00389b71;
pub const MFVideoFormat_P216: u128 = 0x36313250_0000_0010_8000_00aa00389b71;
pub const MFVideoFormat_RGB24: u128 = 0x00000014_0000_0010_8000_00aa00389b71;
pub const MFVideoFormat_RGB32: u128 = 0x00000016_0000_0010_8000_00aa00389b71;
pub const MFVideoFormat_RGB555: u128 = 0x00000018_0000_0010_8000_00aa00389b71;
pub const MFVideoFormat_RGB565: u128 = 0x00000017_0000_0010_8000_00aa00389b71;
pub const MFVideoFormat_RGB8: u128 = 0x00000029_0000_0010_8000_00aa00389b71;
pub const MFVideoFormat_UYVY: u128 = 0x59565955_0000_0010_8000_00aa00389b71;
pub const MFVideoFormat_v210: u128 = 0x30313276_0000_0010_8000_00aa00389b71;
pub const MFVideoFormat_v410: u128 = 0x30313476_0000_0010_8000_00aa00389b71;
pub const MFVideoFormat_WMV1: u128 = 0x31564d57_0000_0010_8000_00aa00389b71;
pub const MFVideoFormat_WMV2: u128 = 0x32564d57_0000_0010_8000_00aa00389b71;
pub const MFVideoFormat_WMV3: u128 = 0x33564d57_0000_0010_8000_00aa00389b71;
pub const MFVideoFormat_WVC1: u128 = 0x31435657_0000_0010_8000_00aa00389b71;
pub const MFVideoFormat_Y210: u128 = 0x30313259_0000_0010_8000_00aa00389b71;
pub const MFVideoFormat_Y216: u128 = 0x36313259_0000_0010_8000_00aa00389b71;
pub const MFVideoFormat_Y410: u128 = 0x30313459_0000_0010_8000_00aa00389b71;
pub const MFVideoFormat_Y416: u128 = 0x36313459_0000_0010_8000_00aa00389b71;
pub const MFVideoFormat_Y41P: u128 = 0x50313459_0000_0010_8000_00aa00389b71;
pub const MFVideoFormat_Y41T: u128 = 0x54313459_0000_0010_8000_00aa00389b71;
pub const MFVideoFormat_YUY2: u128 = 0x32595559_0000_0010_8000_00aa00389b71;
pub const MFVideoFormat_YV12: u128 = 0x32315659_0000_0010_8000_00aa00389b71;
pub const MFVideoFormat_YVYU: u128 = 0x55595659_0000_0010_8000_00aa00389b71;
pub const MFAudioFormat_PCM: u128 = 0x00000001_0000_0010_8000_00aa00389b71;
pub const MFAudioFormat_Float: u128 = 0x00000003_0000_0010_8000_00aa00389b71;
pub const MFAudioFormat_DTS: u128 = 0x00000008_0000_0010_8000_00aa00389b71;
pub const MFAudioFormat_Dolby_AC3_SPDIF: u128 = 0x00000092_0000_0010_8000_00aa00389b71;
pub const MFAudioFormat_DRM: u128 = 0x00000009_0000_0010_8000_00aa00389b71;
pub const MFAudioFormat_WMAudioV8: u128 = 0x00000161_0000_0010_8000_00aa00389b71;
pub const MFAudioFormat_WMAudioV9: u128 = 0x00000162_0000_0010_8000_00aa00389b71;
pub const MFAudioFormat_WMAudio_Lossless: u128 = 0x00000163_0000_0010_8000_00aa00389b71;
pub const MFAudioFormat_WMASPDIF: u128 = 0x00000164_0000_0010_8000_00aa00389b71;
pub const MFAudioFormat_MSP1: u128 = 0x0000000a_0000_0010_8000_00aa00389b71;
pub const MFAudioFormat_MP3: u128 = 0x00000055_0000_0010_8000_00aa00389b71;
pub const MFAudioFormat_MPEG: u128 = 0x00000050_0000_0010_8000_00aa00389b71;
pub const MFAudioFormat_AAC: u128 = 0x00001610_0000_0010_8000_00aa00389b71;
pub const MFAudioFormat_ADTS: u128 = 0x00001600_0000_0010_8000_00aa00389b71;
pub const FORMAT_VideoInfo: u128 = 0x05589f80_c356_11ce_bf01_00aa0055595a;
pub const FORMAT_VideoInfo2: u128 = 0xf72a76a0_eb0a_11d0_ace4_0000c0cc16ba;

/// The identifiers whose names the viewer prints, in the order in which they
/// are looked up, each with its name. An identifier may occur twice; the
/// first entry wins.
#[verifier::opaque]
pub open spec fn guid_name_table() -> Seq<(u128, &'static str)> {
    seq![
        (MF_MT_MAJOR_TYPE, "MF_MT_MAJOR_TYPE"),
        (MF_MT_MAJOR_TYPE, "MF_MT_MAJOR_TYPE"),
        (MF_MT_SUBTYPE, "MF_MT_SUBTYPE"),
        (MF_MT_ALL_SAMPLES_INDEPENDENT, "MF_MT_ALL_SAMPLES_INDEPENDENT"),
        (MF_MT_FIXED_SIZE_SAMPLES, "MF_MT_FIXED_SIZE_SAMPLES"),
        (MF_MT_COMPRESSED, "MF_MT_COMPRESSED"),
        (MF_MT_SAMPLE_SIZE, "MF_MT_SAMPLE_SIZE"),
        (MF_MT_WRAPPED_TYPE, "MF_MT_WRAPPED_TYPE"),
        (MF_MT_AUDIO_NUM_CHANNELS, "MF_MT_AUDIO_NUM_CHANNELS"),
        (MF_MT_AUDIO_SAMPLES_PER_SECOND, "MF_MT_AUDIO_SAMPLES_PER_SECOND"),
        (MF_MT_AUDIO_FLOAT_SAMPLES_PER_SECOND, "MF_MT_AUDIO_FLOAT_SAMPLES_PER_SECOND"),
        (MF_MT_AUDIO_AVG_BYTES_PER_SECOND, "MF_MT_AUDIO_AVG_BYTES_PER_SECOND"),
        (MF_MT_AUDIO_BLOCK_ALIGNMENT, "MF_MT_AUDIO_BLOCK_ALIGNMENT"),
        (MF_MT_AUDIO_BITS_PER_SAMPLE, "MF_MT_AUDIO_BITS_PER_SAMPLE"),
        (MF_MT_AUDIO_VALID_BITS_PER_SAMPLE, "MF_MT_AUDIO_VALID_BITS_PER_SAMPLE"),
        (MF_MT_AUDIO_SAMPLES_PER_BLOCK, "MF_MT_AUDIO_SAMPLES_PER_BLOCK"),
        (MF_MT_AUDIO_CHANNEL_MASK, "MF_MT_AUDIO_CHANNEL_MASK"),
        (MF_MT_AUDIO_FOLDDOWN_MATRIX, "MF_MT_AUDIO_FOLDDOWN_MATRIX"),
        (MF_MT_AUDIO_WMADRC_PEAKREF, "MF_MT_AUDIO_WMADRC_PEAKREF"),
        (MF_MT_AUDIO_WMADRC_PEAKTARGET, "MF_MT_AUDIO_WMADRC_PEAKTARGET"),
        (MF_MT_AUDIO_WMADRC_AVGREF, "MF_MT_AUDIO_WMADRC_AVGREF"),
        (MF_MT_AUDIO_WMADRC_AVGTARGET, "MF_MT_AUDIO_WMADRC_AVGTARGET"),
        (MF_MT_AUDIO_PREFER_WAVEFORMATEX, "MF_MT_AUDIO_PREFER_WAVEFORMATEX"),
        (MF_MT_AAC_PAYLOAD_TYPE, "MF_MT_AAC_PAYLOAD_TYPE"),
        (MF_MT_AAC_AUDIO_PROFILE_LEVEL_INDICATION, "MF_MT_AAC_AUDIO_PROFILE_LEVEL_INDICATION"),
        (MF_MT_FRAME_SIZE, "MF_MT_FRAME_SIZE"),
        (MF_MT_FRAME_RATE, "MF_MT_FRAME_RATE"),
        (MF_MT_FRAME_RATE_RANGE_MAX, "MF_MT_FRAME_RATE_RANGE_MAX"),
        (MF_MT_FRAME_RATE_RANGE_MIN, "MF_MT_FRAME_RATE_RANGE_MIN"),
        (MF_MT_PIXEL_ASPECT_RATIO, "MF_MT_PIXEL_ASPECT_RATIO"),
        (MF_MT_DRM_FLAGS, "MF_MT_DRM_FLAGS"),
        (MF_MT_PAD_CONTROL_FLAGS, "MF_MT_PAD_CONTROL_FLAGS"),
        (MF_MT_SOURCE_CONTENT_HINT, "MF_MT_SOURCE_CONTENT_HINT"),
        (MF_MT_VIDEO_CHROMA_SITING, "MF_MT_VIDEO_CHROMA_SITING"),
        (MF_MT_INTERLACE_MODE, "MF_MT_INTERLACE_MODE"),
        (MF_MT_TRANSFER_FUNCTION, "MF_MT_TRANSFER_FUNCTION"),
        (MF_MT_VIDEO_PRIMARIES, "MF_MT_VIDEO_PRIMARIES"),
        (MF_MT_CUSTOM_VIDEO_PRIMARIES, "MF_MT_CUSTOM_VIDEO_PRIMARIES"),
        (MF_MT_YUV_MATRIX, "MF_MT_YUV_MATRIX"),
        (MF_MT_VIDEO_LIGHTING, "MF_MT_VIDEO_LIGHTING"),
        (MF_MT_VIDEO_NOMINAL_RANGE, "MF_MT_VIDEO_NOMINAL_RANGE"),
        (MF_MT_GEOMETRIC_APERTURE, "MF_MT_GEOMETRIC_APERTURE"),
        (MF_MT_MINIMUM_DISPLAY_APERTURE, "MF_MT_MINIMUM_DISPLAY_APERTURE"),
        (MF_MT_PAN_SCAN_APERTURE, "MF_MT_PAN_SCAN_APERTURE"),
        (MF_MT_PAN_SCAN_ENABLED, "MF_MT_PAN_SCAN_ENABLED"),
        (MF_MT_AVG_BITRATE, "MF_MT_AVG_BITRATE"),
        (MF_MT_AVG_BIT_ERROR_RATE, "MF_MT_AVG_BIT_ERROR_RATE"),
        (MF_MT_MAX_KEYFRAME_SPACING, "MF_MT_MAX_KEYFRAME_SPACING"),
        (MF_MT_DEFAULT_STRIDE, "MF_MT_DEFAULT_STRIDE"),
        (MF_MT_PALETTE, "MF_MT_PALETTE"),
        (MF_MT_USER_DATA, "MF_MT_USER_DATA"),
        (MF_MT_AM_FORMAT_TYPE, "MF_MT_AM_FORMAT_TYPE"),
        (MF_MT_MPEG_START_TIME_CODE, "MF_MT_MPEG_START_TIME_CODE"),
        (MF_MT_MPEG2_PROFILE, "MF_MT_MPEG2_PROFILE"),
        (MF_MT_MPEG2_LEVEL, "MF_MT_MPEG2_LEVEL"),
        (MF_MT_MPEG2_FLAGS, "MF_MT_MPEG2_FLAGS"),
        (MF_MT_MPEG_SEQUENCE_HEADER, "MF_MT_MPEG_SEQUENCE_HEADER"),
        (MF_MT_DV_AAUX_SRC_PACK_0, "MF_MT_DV_AAUX_SRC_PACK_0"),
        (MF_MT_DV_AAUX_CTRL_PACK_0, "MF_MT_DV_AAUX_CTRL_PACK_0"),
        (MF_MT_DV_AAUX_SRC_PACK_1, "MF_MT_DV_AAUX_SRC_PACK_1"),
        (MF_MT_DV_AAUX_CTRL_PACK_1, "MF_MT_DV_AAUX_CTRL_PACK_1"),
        (MF_MT_DV_VAUX_SRC_PACK, "MF_MT_DV_VAUX_SRC_PACK"),
        (MF_MT_DV_VAUX_CTRL_PACK, "MF_MT_DV_VAUX_CTRL_PACK"),
        (MF_MT_ARBITRARY_HEADER, "MF_MT_ARBITRARY_HEADER"),
        (MF_MT_ARBITRARY_FORMAT, "MF_MT_ARBITRARY_FORMAT"),
        (MF_MT_IMAGE_LOSS_TOLERANT, "MF_MT_IMAGE_LOSS_TOLERANT"),
        (MF_MT_MPEG4_SAMPLE_DESCRIPTION, "MF_MT_MPEG4_SAMPLE_DESCRIPTION"),
        (MF_MT_MPEG4_CURRENT_SAMPLE_ENTRY, "MF_MT_MPEG4_CURRENT_SAMPLE_ENTRY"),
        (MF_MT_ORIGINAL_4CC, "MF_MT_ORIGINAL_4CC"),
        (MF_MT_ORIGINAL_WAVE_FORMAT_TAG, "MF_MT_ORIGINAL_WAVE_FORMAT_TAG"),
        (MFMediaType_Audio, "MFMediaType_Audio"),
        (MFMediaType_Video, "MFMediaType_Video"),
        (MFMediaType_Protected, "MFMediaType_Protected"),
        (MFMediaType_SAMI, "MFMediaType_SAMI"),
        (MFMediaType_Script, "MFMediaType_Script"),
        (MFMediaType_Image, "MFMediaType_Image"),
        (MFMediaType_HTML, "MFMediaType_HTML"),
        (MFMediaType_Binary, "MFMediaType_Binary"),
        (MFMediaType_FileTransfer, "MFMediaType_FileTransfer"),
        (MFVideoFormat_AI44, "MFVideoFormat_AI44"),
        (MFVideoFormat_ARGB32, "MFVideoFormat_ARGB32"),
        (MFVideoFormat_AYUV, "MFVideoFormat_AYUV"),
        (MFVideoFormat_DV25, "MFVideoFormat_DV25"),
        (MFVideoFormat_DV50, "MFVideoFormat_DV50"),
        (MFVideoFormat_DVH1, "MFVideoFormat_DVH1"),
        (MFVideoFormat_DVSD, "MFVideoFormat_DVSD"),
        (MFVideoFormat_DVSL, "MFVideoFormat_DVSL"),
        (MFVideoFormat_H264, "MFVideoFormat_H264"),
        (MFVideoFormat_I420, "MFVideoFormat_I420"),
        (MFVideoFormat_IYUV, "MFVideoFormat_IYUV"),
        (MFVideoFormat_M4S2, "MFVideoFormat_M4S2"),
        (MFVideoFormat_MJPG, "MFVideoFormat_MJPG"),
        (MFVideoFormat_MP43, "MFVideoFormat_MP43"),
        (MFVideoFormat_MP4S, "MFVideoFormat_MP4S"),
        (MFVideoFormat_MP4V, "MFVideoFormat_MP4V"),
        (MFVideoFormat_MPG1, "MFVideoFormat_MPG1"),
        (MFVideoFormat_MSS1, "MFVideoFormat_MSS1"),
        (MFVideoFormat_MSS2, "MFVideoFormat_MSS2"),
        (MFVideoFormat_NV11, "MFVideoFormat_NV11"),
        (MFVideoFormat_NV12, "MFVideoFormat_NV12"),
        (MFVideoFormat_P010, "MFVideoFormat_P010"),
        (MFVideoFormat_P016, "MFVideoFormat_P016"),
        (MFVideoFormat_P210, "MFVideoFormat_P210"),
        (MFVideoFormat_P216, "MFVideoFormat_P216"),
        (MFVideoFormat_RGB24, "MFVideoFormat_RGB24"),
        (MFVideoFormat_RGB32, "MFVideoFormat_RGB32"),
        (MFVideoFormat_RGB555, "MFVideoFormat_RGB555"),
        (MFVideoFormat_RGB565, "MFVideoFormat_RGB565"),
        (MFVideoFormat_RGB8, "MFVideoFormat_RGB8"),
        (MFVideoFormat_UYVY, "MFVideoFormat_UYVY"),
        (MFVideoFormat_v210, "MFVideoFormat_v210"),
        (MFVideoFormat_v410, "MFVideoFormat_v410"),
        (MFVideoFormat_WMV1, "MFVideoFormat_WMV1"),
        (MFVideoFormat_WMV2, "MFVideoFormat_WMV2"),
        (MFVideoFormat_WMV3, "MFVideoFormat_WMV3"),
        (MFVideoFormat_WVC1, "MFVideoFormat_WVC1"),
        (MFVideoFormat_Y210, "MFVideoFormat_Y210"),
        (MFVideoFormat_Y216, "MFVideoFormat_Y216"),
        (MFVideoFormat_Y410, "MFVideoFormat_Y410"),
        (MFVideoFormat_Y416, "MFVideoFormat_Y416"),
        (MFVideoFormat_Y41P, "MFVideoFormat_Y41P"),
        (MFVideoFormat_Y41T, "MFVideoFormat_Y41T"),
        (MFVideoFormat_YUY2, "MFVideoFormat_YUY2"),
        (MFVideoFormat_YV12, "MFVideoFormat_YV12"),
        (MFVideoFormat_YVYU, "MFVideoFormat_YVYU"),
        (MFAudioFormat_PCM, "MFAudioFormat_PCM"),
        (MFAudioFormat_Float, "MFAudioFormat_Float"),
        (MFAudioFormat_DTS, "MFAudioFormat_DTS"),
        (MFAudioFormat_Dolby_AC3_SPDIF, "MFAudioFormat_Dolby_AC3_SPDIF"),
        (MFAudioFormat_DRM, "MFAudioFormat_DRM"),
        (MFAudioFormat_WMAudioV8, "MFAudioFormat_WMAudioV8"),
        (MFAudioFormat_WMAudioV9, "MFAudioFormat_WMAudioV9"),
        (MFAudioFormat_WMAudio_Lossless, "MFAudioFormat_WMAudio_Lossless"),
        (MFAudioFormat_WMASPDIF, "MFAudioFormat_WMASPDIF"),
        (MFAudioFormat_MSP1, "MFAudioFormat_MSP1"),
        (MFAudioFormat_MP3, "MFAudioFormat_MP3"),
        (MFAudioFormat_MPEG, "MFAudioFormat_MPEG"),
        (MFAudioFormat_AAC, "MFAudioFormat_AAC"),
        (MFAudioFormat_ADTS, "MFAudioFormat_ADTS"),
        (FORMAT_VideoInfo, "FORMAT_VideoInfo"),
        (FORMAT_VideoInfo2, "FORMAT_VideoInfo2"),
    ]
}

/// The entries of `guid_name_table`, as a vector.
fn guid_name_entries() -> (entries: Vec<(u128, &'static str)>)
    ensures
        entries@ == guid_name_table(),
{
    reveal(guid_name_table);
    vec![
        (MF_MT_MAJOR_TYPE, "MF_MT_MAJOR_TYPE"),
        (MF_MT_MAJOR_TYPE, "MF_MT_MAJOR_TYPE"),
        (MF_MT_SUBTYPE, "MF_MT_SUBTYPE"),
        (MF_MT_ALL_SAMPLES_INDEPENDENT, "MF_MT_ALL_SAMPLES_INDEPENDENT"),
        (MF_MT_FIXED_SIZE_SAMPLES, "MF_MT_FIXED_SIZE_SAMPLES"),
        (MF_MT_COMPRESSED, "MF_MT_COMPRESSED"),
        (MF_MT_SAMPLE_SIZE, "MF_MT_SAMPLE_SIZE"),
        (MF_MT_WRAPPED_TYPE, "MF_MT_WRAPPED_TYPE"),
        (MF_MT_AUDIO_NUM_CHANNELS, "MF_MT_AUDIO_NUM_CHANNELS"),
        (MF_MT_AUDIO_SAMPLES_PER_SECOND, "MF_MT_AUDIO_SAMPLES_PER_SECOND"),
        (MF_MT_AUDIO_FLOAT_SAMPLES_PER_SECOND, "MF_MT_AUDIO_FLOAT_SAMPLES_PER_SECOND"),
        (MF_MT_AUDIO_AVG_BYTES_PER_SECOND, "MF_MT_AUDIO_AVG_BYTES_PER_SECOND"),
        (MF_MT_AUDIO_BLOCK_ALIGNMENT, "MF_MT_AUDIO_BLOCK_ALIGNMENT"),
        (MF_MT_AUDIO_BITS_PER_SAMPLE, "MF_MT_AUDIO_BITS_PER_SAMPLE"),
        (MF_MT_AUDIO_VALID_BITS_PER_SAMPLE, "MF_MT_AUDIO_VALID_BITS_PER_SAMPLE"),
        (MF_MT_AUDIO_SAMPLES_PER_BLOCK, "MF_MT_AUDIO_SAMPLES_PER_BLOCK"),
        (MF_MT_AUDIO_CHANNEL_MASK, "MF_MT_AUDIO_CHANNEL_MASK"),
        (MF_MT_AUDIO_FOLDDOWN_MATRIX, "MF_MT_AUDIO_FOLDDOWN_MATRIX"),
        (MF_MT_AUDIO_WMADRC_PEAKREF, "MF_MT_AUDIO_WMADRC_PEAKREF"),
        (MF_MT_AUDIO_WMADRC_PEAKTARGET, "MF_MT_AUDIO_WMADRC_PEAKTARGET"),
        (MF_MT_AUDIO_WMADRC_AVGREF, "MF_MT_AUDIO_WMADRC_AVGREF"),
        (MF_MT_AUDIO_WMADRC_AVGTARGET, "MF_MT_AUDIO_WMADRC_AVGTARGET"),
        (MF_MT_AUDIO_PREFER_WAVEFORMATEX, "MF_MT_AUDIO_PREFER_WAVEFORMATEX"),
        (MF_MT_AAC_PAYLOAD_TYPE, "MF_MT_AAC_PAYLOAD_TYPE"),
        (MF_MT_AAC_AUDIO_PROFILE_LEVEL_INDICATION, "MF_MT_AAC_AUDIO_PROFILE_LEVEL_INDICATION"),
        (MF_MT_FRAME_SIZE, "MF_MT_FRAME_SIZE"),
        (MF_MT_FRAME_RATE, "MF_MT_FRAME_RATE"),
        (MF_MT_FRAME_RATE_RANGE_MAX, "MF_MT_FRAME_RATE_RANGE_MAX"),
        (MF_MT_FRAME_RATE_RANGE_MIN, "MF_MT_FRAME_RATE_RANGE_MIN"),
        (MF_MT_PIXEL_ASPECT_RATIO, "MF_MT_PIXEL_ASPECT_RATIO"),
        (MF_MT_DRM_FLAGS, "MF_MT_DRM_FLAGS"),
        (MF_MT_PAD_CONTROL_FLAGS, "MF_MT_PAD_CONTROL_FLAGS"),
        (MF_MT_SOURCE_CONTENT_HINT, "MF_MT_SOURCE_CONTENT_HINT"),
        (MF_MT_VIDEO_CHROMA_SITING, "MF_MT_VIDEO_CHROMA_SITING"),
        (MF_MT_INTERLACE_MODE, "MF_MT_INTERLACE_MODE"),
        (MF_MT_TRANSFER_FUNCTION, "MF_MT_TRANSFER_FUNCTION"),
        (MF_MT_VIDEO_PRIMARIES, "MF_MT_VIDEO_PRIMARIES"),
        (MF_MT_CUSTOM_VIDEO_PRIMARIES, "MF_MT_CUSTOM_VIDEO_PRIMARIES"),
        (MF_MT_YUV_MATRIX, "MF_MT_YUV_MATRIX"),
        (MF_MT_VIDEO_LIGHTING, "MF_MT_VIDEO_LIGHTING"),
        (MF_MT_VIDEO_NOMINAL_RANGE, "MF_MT_VIDEO_NOMINAL_RANGE"),
        (MF_MT_GEOMETRIC_APERTURE, "MF_MT_GEOMETRIC_APERTURE"),
        (MF_MT_MINIMUM_DISPLAY_APERTURE, "MF_MT_MINIMUM_DISPLAY_APERTURE"),
        (MF_MT_PAN_SCAN_APERTURE, "MF_MT_PAN_SCAN_APERTURE"),
        (MF_MT_PAN_SCAN_ENABLED, "MF_MT_PAN_SCAN_ENABLED"),
        (MF_MT_AVG_BITRATE, "MF_MT_AVG_BITRATE"),
        (MF_MT_AVG_BIT_ERROR_RATE, "MF_MT_AVG_BIT_ERROR_RATE"),
        (MF_MT_MAX_KEYFRAME_SPACING, "MF_MT_MAX_KEYFRAME_SPACING"),
        (MF_MT_DEFAULT_STRIDE, "MF_MT_DEFAULT_STRIDE"),
        (MF_MT_PALETTE, "MF_MT_PALETTE"),
        (MF_MT_USER_DATA, "MF_MT_USER_DATA"),
        (MF_MT_AM_FORMAT_TYPE, "MF_MT_AM_FORMAT_TYPE"),
        (MF_MT_MPEG_START_TIME_CODE, "MF_MT_MPEG_START_TIME_CODE"),
        (MF_MT_MPEG2_PROFILE, "MF_MT_MPEG2_PROFILE"),
        (MF_MT_MPEG2_LEVEL, "MF_MT_MPEG2_LEVEL"),
        (MF_MT_MPEG2_FLAGS, "MF_MT_MPEG2_FLAGS"),
        (MF_MT_MPEG_SEQUENCE_HEADER, "MF_MT_MPEG_SEQUENCE_HEADER"),
        (MF_MT_DV_AAUX_SRC_PACK_0, "MF_MT_DV_AAUX_SRC_PACK_0"),
        (MF_MT_DV_AAUX_CTRL_PACK_0, "MF_MT_DV_AAUX_CTRL_PACK_0"),
        (MF_MT_DV_AAUX_SRC_PACK_1, "MF_MT_DV_AAUX_SRC_PACK_1"),
        (MF_MT_DV_AAUX_CTRL_PACK_1, "MF_MT_DV_AAUX_CTRL_PACK_1"),
        (MF_MT_DV_VAUX_SRC_PACK, "MF_MT_DV_VAUX_SRC_PACK"),
        (MF_MT_DV_VAUX_CTRL_PACK, "MF_MT_DV_VAUX_CTRL_PACK"),
        (MF_MT_ARBITRARY_HEADER, "MF_MT_ARBITRARY_HEADER"),
        (MF_MT_ARBITRARY_FORMAT, "MF_MT_ARBITRARY_FORMAT"),
        (MF_MT_IMAGE_LOSS_TOLERANT, "MF_MT_IMAGE_LOSS_TOLERANT"),
        (MF_MT_MPEG4_SAMPLE_DESCRIPTION, "MF_MT_MPEG4_SAMPLE_DESCRIPTION"),
        (MF_MT_MPEG4_CURRENT_SAMPLE_ENTRY, "MF_MT_MPEG4_CURRENT_SAMPLE_ENTRY"),
        (MF_MT_ORIGINAL_4CC, "MF_MT_ORIGINAL_4CC"),
        (MF_MT_ORIGINAL_WAVE_FORMAT_TAG, "MF_MT_ORIGINAL_WAVE_FORMAT_TAG"),
        (MFMediaType_Audio, "MFMediaType_Audio"),
        (MFMediaType_Video, "MFMediaType_Video"),
        (MFMediaType_Protected, "MFMediaType_Protected"),
        (MFMediaType_SAMI, "MFMediaType_SAMI"),
        (MFMediaType_Script, "MFMediaType_Script"),
        (MFMediaType_Image, "MFMediaType_Image"),
        (MFMediaType_HTML, "MFMediaType_HTML"),
        (MFMediaType_Binary, "MFMediaType_Binary"),
        (MFMediaType_FileTransfer, "MFMediaType_FileTransfer"),
        (MFVideoFormat_AI44, "MFVideoFormat_AI44"),
        (MFVideoFormat_ARGB32, "MFVideoFormat_ARGB32"),
        (MFVideoFormat_AYUV, "MFVideoFormat_AYUV"),
        (MFVideoFormat_DV25, "MFVideoFormat_DV25"),
        (MFVideoFormat_DV50, "MFVideoFormat_DV50"),
        (MFVideoFormat_DVH1, "MFVideoFormat_DVH1"),
        (MFVideoFormat_DVSD, "MFVideoFormat_DVSD"),
        (MFVideoFormat_DVSL, "MFVideoFormat_DVSL"),
        (MFVideoFormat_H264, "MFVideoFormat_H264"),
        (MFVideoFormat_I420, "MFVideoFormat_I420"),
        (MFVideoFormat_IYUV, "MFVideoFormat_IYUV"),
        (MFVideoFormat_M4S2, "MFVideoFormat_M4S2"),
        (MFVideoFormat_MJPG, "MFVideoFormat_MJPG"),
        (MFVideoFormat_MP43, "MFVideoFormat_MP43"),
        (MFVideoFormat_MP4S, "MFVideoFormat_MP4S"),
        (MFVideoFormat_MP4V, "MFVideoFormat_MP4V"),
        (MFVideoFormat_MPG1, "MFVideoFormat_MPG1"),
        (MFVideoFormat_MSS1, "MFVideoFormat_MSS1"),
        (MFVideoFormat_MSS2, "MFVideoFormat_MSS2"),
        (MFVideoFormat_NV11, "MFVideoFormat_NV11"),
        (MFVideoFormat_NV12, "MFVideoFormat_NV12"),
        (MFVideoFormat_P010, "MFVideoFormat_P010"),
        (MFVideoFormat_P016, "MFVideoFormat_P016"),
        (MFVideoFormat_P210, "MFVideoFormat_P210"),
        (MFVideoFormat_P216, "MFVideoFormat_P216"),
        (MFVideoFormat_RGB24, "MFVideoFormat_RGB24"),
        (MFVideoFormat_RGB32, "MFVideoFormat_RGB32"),
        (MFVideoFormat_RGB555, "MFVideoFormat_RGB555"),
        (MFVideoFormat_RGB565, "MFVideoFormat_RGB565"),
        (MFVideoFormat_RGB8, "MFVideoFormat_RGB8"),
        (MFVideoFormat_UYVY, "MFVideoFormat_UYVY"),
        (MFVideoFormat_v210, "MFVideoFormat_v210"),
        (MFVideoFormat_v410, "MFVideoFormat_v410"),
        (MFVideoFormat_WMV1, "MFVideoFormat_WMV1"),
        (MFVideoFormat_WMV2, "MFVideoFormat_WMV2"),
        (MFVideoFormat_WMV3, "MFVideoFormat_WMV3"),
        (MFVideoFormat_WVC1, "MFVideoFormat_WVC1"),
        (MFVideoFormat_Y210, "MFVideoFormat_Y210"),
        (MFVideoFormat_Y216, "MFVideoFormat_Y216"),
        (MFVideoFormat_Y410, "MFVideoFormat_Y410"),
        (MFVideoFormat_Y416, "MFVideoFormat_Y416"),
        (MFVideoFormat_Y41P, "MFVideoFormat_Y41P"),
        (MFVideoFormat_Y41T, "MFVideoFormat_Y41T"),
        (MFVideoFormat_YUY2, "MFVideoFormat_YUY2"),
        (MFVideoFormat_YV12, "MFVideoFormat_YV12"),
        (MFVideoFormat_YVYU, "MFVideoFormat_YVYU"),
        (MFAudioFormat_PCM, "MFAudioFormat_PCM"),
        (MFAudioFormat_Float, "MFAudioFormat_Float"),
        (MFAudioFormat_DTS, "MFAudioFormat_DTS"),
        (MFAudioFormat_Dolby_AC3_SPDIF, "MFAudioFormat_Dolby_AC3_SPDIF"),
        (MFAudioFormat_DRM, "MFAudioFormat_DRM"),
        (MFAudioFormat_WMAudioV8, "MFAudioFormat_WMAudioV8"),
        (MFAudioFormat_WMAudioV9, "MFAudioFormat_WMAudioV9"),
        (MFAudioFormat_WMAudio_Lossless, "MFAudioFormat_WMAudio_Lossless"),
        (MFAudioFormat_WMASPDIF, "MFAudioFormat_WMASPDIF"),
        (MFAudioFormat_MSP1, "MFAudioFormat_MSP1"),
        (MFAudioFormat_MP3, "MFAudioFormat_MP3"),
        (MFAudioFormat_MPEG, "MFAudioFormat_MPEG"),
        (MFAudioFormat_AAC, "MFAudioFormat_AAC"),
        (MFAudioFormat_ADTS, "MFAudioFormat_ADTS"),
        (FORMAT_VideoInfo, "FORMAT_VideoInfo"),
        (FORMAT_VideoInfo2, "FORMAT_VideoInfo2"),
    ]
}

/// The name that `entries` gives `guid`: that of its first entry with that
/// identifier, if any.
pub open spec fn lookup_name(entries: Seq<(u128, &'static str)>, guid: u128) -> Option<&'static str>
    decreases entries.len(),
{
    if entries.len() == 0 {
        None
    } else if entries[0].0 == guid {
        Some(entries[0].1)
    } else {
        lookup_name(entries.drop_first(), guid)
    }
}

/// Looking a name up in a suffix of a table that starts past every entry with
/// the identifier gives the same answer as looking it up in the whole table.
proof fn lemma_lookup_skip(entries: Seq<(u128, &'static str)>, guid: u128, i: int)
    requires
        0 <= i <= entries.len(),
        forall|j: int| 0 <= j < i ==> entries[j].0 != guid,
    ensures
        lookup_name(entries, guid) == lookup_name(entries.skip(i), guid),
    decreases i,
{
    if i > 0 {
        lemma_lookup_skip(entries.drop_first(), guid, i - 1);
        assert(entries.drop_first().skip(i - 1) =~= entries.skip(i));
    } else {
        assert(entries.skip(0) =~= entries);
    }
}

/// The name of a known attribute, media type or format identifier: that of
/// the first entry of `guid_name_table` with identifier `guid`, or `None`
/// when no entry has it.
pub fn get_guid_name_const(guid: u128) -> (name: Option<&'static str>)
    ensures
        name == lookup_name(guid_name_table(), guid),
{
    let entries = guid_name_entries();
    let mut i: usize = 0;
    while i < entries.len()
        invariant
            entries@ == guid_name_table(),
            0 <= i <= entries.len(),
            forall|j: int| 0 <= j < i ==> guid_name_table()[j].0 != guid,
        decreases entries.len() - i,
    {
        if entries[i].0 == guid {
            proof {
                lemma_lookup_skip(entries@, guid, i as int);
            }
            return Some(entries[i].1);
        }
        i = i + 1;
    }
    proof {
        lemma_lookup_skip(entries@, guid, i as int);
    }
    None
}

/// Looking up an identifier that some entry has gives a name.
pub proof fn lemma_lookup_finds(entries: Seq<(u128, &'static str)>, guid: u128, i: int)
    requires
        0 <= i < entries.len(),
        entries[i].0 == guid,
    ensures
        lookup_name(entries, guid) is Some,
    decreases i,
{
    if i > 0 && entries[0].0 != guid {
        lemma_lookup_finds(entries.drop_first(), guid, i - 1);
    }
}

} // verus!
