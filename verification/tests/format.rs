use rwig::format::{
    FormatTag, MixFormat, MixFormatData, MixFormatSamples, GUID, WAVE_FORMAT_EXTENSIBLE,
    WAVE_FORMAT_EXTENSIBLE_LEN, WAVE_FORMAT_IEEE_FLOAT, WAVE_FORMAT_LEN, WAVE_FORMAT_PCM,
};

fn basic_bytes(tag: u16) -> Vec<u8> {
    let mut b = Vec::new();
    b.extend_from_slice(&tag.to_le_bytes());
    b.extend_from_slice(&2u16.to_le_bytes()); // channels
    b.extend_from_slice(&48000u32.to_le_bytes()); // sample rate
    b.extend_from_slice(&384000u32.to_le_bytes()); // bytes per second
    b.extend_from_slice(&8u16.to_le_bytes()); // block align
    b.extend_from_slice(&32u16.to_le_bytes()); // bits per sample
    b.extend_from_slice(&22u16.to_le_bytes()); // extension size
    b
}

fn extensible_bytes() -> Vec<u8> {
    let mut b = basic_bytes(WAVE_FORMAT_EXTENSIBLE);
    b.extend_from_slice(&24u16.to_le_bytes()); // shared sample field
    b.extend_from_slice(&3u32.to_le_bytes()); // channel mask
    // KSDATAFORMAT_SUBTYPE_IEEE_FLOAT: 00000003-0000-0010-8000-00aa00389b71
    b.extend_from_slice(&0x0000_0003u32.to_le_bytes());
    b.extend_from_slice(&0x0000u16.to_le_bytes());
    b.extend_from_slice(&0x0010u16.to_le_bytes());
    b.extend_from_slice(&[0x80, 0x00, 0x00, 0xaa, 0x00, 0x38, 0x9b, 0x71]);
    b
}

#[test]
fn format_tag_from_known_tags() {
    assert_eq!(FormatTag::from(WAVE_FORMAT_PCM), FormatTag::WaveFormatPcm);
    assert_eq!(FormatTag::from(WAVE_FORMAT_IEEE_FLOAT), FormatTag::WaveFormatFloat);
    assert_eq!(FormatTag::from(WAVE_FORMAT_EXTENSIBLE), FormatTag::WaveFormatExtensible);
    assert_eq!(FormatTag::from(0x0001u16), FormatTag::WaveFormatPcm);
    assert_eq!(FormatTag::from(0xfffeu16), FormatTag::WaveFormatExtensible);
}

#[test]
fn format_tag_from_other_tag_keeps_value() {
    assert_eq!(FormatTag::from(0x0002u16), FormatTag::Other(2));
    assert_eq!(FormatTag::from(0u16), FormatTag::Other(0));
    assert_eq!(FormatTag::from(0xffffu16), FormatTag::Other(0xffff));
}

#[test]
fn format_tag_from_guid_uses_low_bits_of_first_field() {
    let g = GUID { data1: 0x0001_0003, data2: 0, data3: 0x10, data4: [0; 8] };
    assert_eq!(FormatTag::from(g), FormatTag::WaveFormatFloat);
    let g = GUID { data1: 1, data2: 7, data3: 7, data4: [1; 8] };
    assert_eq!(FormatTag::from(g), FormatTag::WaveFormatPcm);
    let g = GUID { data1: 0xabcd_1234, data2: 0, data3: 0, data4: [0; 8] };
    assert_eq!(FormatTag::from(g), FormatTag::Other(0x1234));
}

#[test]
fn samples_from_shared_field() {
    let s = MixFormatSamples::from(24u16);
    assert_eq!(s.valid_bits_per_sample, 24);
    assert_eq!(s.samples_per_block, 24);
    assert_eq!(s.reserved, 24);
}

#[test]
fn guid_from_raw_bytes() {
    let b = extensible_bytes();
    let g = GUID::from_raw(&b, 24);
    assert_eq!(g.data1, 3);
    assert_eq!(g.data2, 0);
    assert_eq!(g.data3, 0x10);
    assert_eq!(g.data4, [0x80, 0x00, 0x00, 0xaa, 0x00, 0x38, 0x9b, 0x71]);
}

#[test]
fn format_data_from_raw() {
    let b = basic_bytes(WAVE_FORMAT_PCM);
    let d = MixFormatData::from_raw(&b);
    assert_eq!(d.format_tag, FormatTag::WaveFormatPcm);
    assert_eq!(d.channels, 2);
    assert_eq!(d.sample_rate, 48000);
    assert_eq!(d.byte_transfer_rate, 384000);
    assert_eq!(d.block_align, 8);
    assert_eq!(d.bits_per_sample, 32);
}

#[test]
fn raw_len_depends_on_tag() {
    assert_eq!(MixFormat::raw_len(WAVE_FORMAT_EXTENSIBLE), WAVE_FORMAT_EXTENSIBLE_LEN);
    assert_eq!(MixFormat::raw_len(WAVE_FORMAT_PCM), WAVE_FORMAT_LEN);
    assert_eq!(MixFormat::raw_len(WAVE_FORMAT_IEEE_FLOAT), 18);
    assert_eq!(WAVE_FORMAT_EXTENSIBLE_LEN, 40);
}

#[test]
fn mix_format_from_basic_layout_has_no_extension() {
    let b = basic_bytes(WAVE_FORMAT_IEEE_FLOAT);
    let m = MixFormat::from_raw(&b);
    assert_eq!(m.format.format_tag, FormatTag::WaveFormatFloat);
    assert_eq!(m.format.channels, 2);
    assert!(m.samples.is_none());
    assert!(m.channel_mask.is_none());
    assert!(m.sub_format_guid.is_none());
    assert!(m.sub_format.is_none());
}

#[test]
fn mix_format_from_extensible_layout() {
    let b = extensible_bytes();
    let m = MixFormat::from_raw(&b);
    assert_eq!(m.format.format_tag, FormatTag::WaveFormatExtensible);
    assert_eq!(m.format.sample_rate, 48000);
    let s = m.samples.unwrap();
    assert_eq!((s.valid_bits_per_sample, s.samples_per_block, s.reserved), (24, 24, 24));
    assert_eq!(m.channel_mask, Some(3));
    assert_eq!(m.sub_format_guid.unwrap().data1, 3);
    assert_eq!(m.sub_format, Some(FormatTag::WaveFormatFloat));
}

#[test]
fn basic_reading_ignores_extensible_tag() {
    let b = extensible_bytes();
    let m = MixFormat::from_basic_raw(&b);
    assert_eq!(m.format.format_tag, FormatTag::WaveFormatExtensible);
    assert!(m.samples.is_none());
    let e = MixFormat::from_extensible_raw(&b);
    assert_eq!(e.channel_mask, Some(3));
}
