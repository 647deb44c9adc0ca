use vstd::prelude::*;

verus! {

/// Format tag of integer PCM samples.
pub const WAVE_FORMAT_PCM: u16 = 0x0001;

/// Format tag of IEEE floating-point samples.
pub const WAVE_FORMAT_IEEE_FLOAT: u16 = 0x0003;

/// Format tag of a format whose full description follows in the extensible layout.
pub const WAVE_FORMAT_EXTENSIBLE: u16 = 0xfffe;

/// Size in bytes of the basic wave format layout (`WAVEFORMATEX`, packed).
pub const WAVE_FORMAT_LEN: usize = 18;

/// Size in bytes of the extensible wave format layout (`WAVEFORMATEXTENSIBLE`, packed).
pub const WAVE_FORMAT_EXTENSIBLE_LEN: usize = 40;

/// A globally unique identifier, field by field.
#[derive(Debug, Clone, Copy)]
pub struct GUID {
    pub data1: u32,
    pub data2: u16,
    pub data3: u16,
    pub data4: [u8; 8],
}

/// The kind of samples a format describes.
#[derive(Debug, Clone, Copy, PartialEq, Eq, Structural)]
pub enum FormatTag {
    WaveFormatFloat,
    WaveFormatPcm,
    WaveFormatExtensible,
    Other(u16),
}

/// The format tag that a numeric tag stands for.
pub open spec fn format_tag_of(tag: u16) -> FormatTag {
    if tag == WAVE_FORMAT_PCM {
        FormatTag::WaveFormatPcm
    } else if tag == WAVE_FORMAT_IEEE_FLOAT {
        FormatTag::WaveFormatFloat
    } else if tag == WAVE_FORMAT_EXTENSIBLE {
        FormatTag::WaveFormatExtensible
    } else {
        FormatTag::Other(tag)
    }
}

impl From<u16> for FormatTag {
    fn from(tag: u16) -> (r: FormatTag) {
        if tag == WAVE_FORMAT_PCM {
            FormatTag::WaveFormatPcm
        } else if tag == WAVE_FORMAT_IEEE_FLOAT {
            FormatTag::WaveFormatFloat
        } else if tag == WAVE_FORMAT_EXTENSIBLE {
            FormatTag::WaveFormatExtensible
        } else {
            FormatTag::Other(tag)
        }
    }
}

impl vstd::std_specs::convert::FromSpecImpl<u16> for FormatTag {
    open spec fn obeys_from_spec() -> bool {
        true
    }

    open spec fn from_spec(v: u16) -> FormatTag {
        format_tag_of(v)
    }
}

/// The format tag that a sub-format GUID stands for: the tag is the low 16 bits
/// of its first field.
pub open spec fn format_tag_of_guid(guid: GUID) -> FormatTag {
    format_tag_of(guid.data1 as u16)
}

impl From<GUID> for FormatTag {
    fn from(guid: GUID) -> (r: FormatTag) {
        FormatTag::from(guid.data1 as u16)
    }
}

impl vstd::std_specs::convert::FromSpecImpl<GUID> for FormatTag {
    open spec fn obeys_from_spec() -> bool {
        true
    }

    open spec fn from_spec(v: GUID) -> FormatTag {
        format_tag_of_guid(v)
    }
}

/// The 16-bit little-endian integer at byte offset `at`.
pub open spec fn le_u16(b: Seq<u8>, at: int) -> u16 {
    (b[at] + 256 * b[at + 1]) as u16
}

/// The 32-bit little-endian integer at byte offset `at`.
pub open spec fn le_u32(b: Seq<u8>, at: int) -> u32 {
    (b[at] + 256 * b[at + 1] + 65536 * b[at + 2] + 16777216 * b[at + 3]) as u32
}

fn read_u16(b: &[u8], at: usize) -> (v: u16)
    requires
        at + 2 <= b@.len(),
    ensures
        v == le_u16(b@, at as int),
{
    b[at] as u16 + (b[at + 1] as u16) * 256
}

fn read_u32(b: &[u8], at: usize) -> (v: u32)
    requires
        at + 4 <= b@.len(),
    ensures
        v == le_u32(b@, at as int),
{
    b[at] as u32 + (b[at + 1] as u32) * 256 + (b[at + 2] as u32) * 65536 + (b[at + 3] as u32)
        * 16777216
}

/// Whether `g` is the GUID laid out at byte offset `at` (first three fields
/// little-endian, then eight bytes in order).
pub open spec fn is_guid_at(g: GUID, b: Seq<u8>, at: int) -> bool {
    &&& g.data1 == le_u32(b, at)
    &&& g.data2 == le_u16(b, at + 4)
    &&& g.data3 == le_u16(b, at + 6)
    &&& g.data4@ == b.subrange(at + 8, at + 16)
}

impl GUID {
    /// The GUID laid out in the 16 bytes at offset `at` of `bytes`.
    pub fn from_raw(bytes: &[u8], at: usize) -> (g: GUID)
        requires
            at + 16 <= bytes@.len(),
        ensures
            is_guid_at(g, bytes@, at as int),
    {
        let len: usize = bytes.len();
        assert(at + 16 <= len);
        let data4 = [
            bytes[at + 8],
            bytes[at + 9],
            bytes[at + 10],
            bytes[at + 11],
            bytes[at + 12],
            bytes[at + 13],
            bytes[at + 14],
            bytes[at + 15],
        ];
        let g = GUID {
            data1: read_u32(bytes, at),
            data2: read_u16(bytes, at + 4),
            data3: read_u16(bytes, at + 6),
            data4,
        };
        assert(g.data4@ =~= bytes@.subrange(at + 8, at + 16));
        g
    }
}

/// The basic description of a stream format.
#[derive(Debug, Clone, Copy)]
pub struct MixFormatData {
    pub format_tag: FormatTag,
    pub channels: u16,
    pub sample_rate: u32,
    pub byte_transfer_rate: u32,
    pub block_align: u16,
    pub bits_per_sample: u16,
}

/// The basic format description laid out at the start of `b`: tag, channels,
/// samples per second, average bytes per second, block alignment and bits per
/// sample, in that order (the trailing size of the extension is not kept).
pub open spec fn format_data_of(b: Seq<u8>) -> MixFormatData {
    MixFormatData {
        format_tag: format_tag_of(le_u16(b, 0)),
        channels: le_u16(b, 2),
        sample_rate: le_u32(b, 4),
        byte_transfer_rate: le_u32(b, 8),
        block_align: le_u16(b, 12),
        bits_per_sample: le_u16(b, 14),
    }
}

impl MixFormatData {
    /// The basic format description held in the bytes of a `WAVEFORMATEX`.
    pub fn from_raw(bytes: &[u8]) -> (d: MixFormatData)
        requires
            WAVE_FORMAT_LEN <= bytes@.len(),
        ensures
            d == format_data_of(bytes@),
    {
        MixFormatData {
            format_tag: FormatTag::from(read_u16(bytes, 0)),
            channels: read_u16(bytes, 2),
            sample_rate: read_u32(bytes, 4),
            byte_transfer_rate: read_u32(bytes, 8),
            block_align: read_u16(bytes, 12),
            bits_per_sample: read_u16(bytes, 14),
        }
    }
}

/// The sample description of an extensible format. The three readings share one
/// 16-bit field, so a value built from that field holds it three times.
#[derive(Debug, Clone, Copy)]
pub struct MixFormatSamples {
    pub valid_bits_per_sample: u16,
    pub samples_per_block: u16,
    pub reserved: u16,
}

/// The sample description read from the shared 16-bit field.
pub open spec fn samples_of(v: u16) -> MixFormatSamples {
    MixFormatSamples { valid_bits_per_sample: v, samples_per_block: v, reserved: v }
}

impl From<u16> for MixFormatSamples {
    fn from(samples: u16) -> (r: MixFormatSamples) {
        MixFormatSamples {
            valid_bits_per_sample: samples,
            samples_per_block: samples,
            reserved: samples,
        }
    }
}

impl vstd::std_specs::convert::FromSpecImpl<u16> for MixFormatSamples {
    open spec fn obeys_from_spec() -> bool {
        true
    }

    open spec fn from_spec(v: u16) -> MixFormatSamples {
        samples_of(v)
    }
}

/// The format of the audio that an endpoint mixes. The optional parts are present
/// exactly when the format was given in the extensible layout.
#[derive(Debug, Clone, Copy)]
pub struct MixFormat {
    pub format: MixFormatData,
    pub samples: Option<MixFormatSamples>,
    pub channel_mask: Option<u32>,
    pub sub_format_guid: Option<GUID>,
    pub sub_format: Option<FormatTag>,
}

/// Whether `m` is the format described by the extensible layout in `b`: the basic
/// description, then the shared sample field at offset 18, the channel mask at 20
/// and the sub-format GUID at 24.
pub open spec fn is_extensible_format_of(m: MixFormat, b: Seq<u8>) -> bool {
    &&& m.format == format_data_of(b)
    &&& m.samples == Some(samples_of(le_u16(b, 18)))
    &&& m.channel_mask == Some(le_u32(b, 20))
    &&& m.sub_format_guid is Some
    &&& is_guid_at(m.sub_format_guid->0, b, 24)
    &&& m.sub_format == Some(format_tag_of_guid(m.sub_format_guid->0))
}

/// Whether `m` is the format described by the basic layout in `b`, with no
/// extensible parts.
pub open spec fn is_basic_format_of(m: MixFormat, b: Seq<u8>) -> bool {
    &&& m.format == format_data_of(b)
    &&& m.samples is None
    &&& m.channel_mask is None
    &&& m.sub_format_guid is None
    &&& m.sub_format is None
}

/// The number of bytes that describe a format with the given tag: the extensible
/// layout for the extensible tag, the basic layout for any other.
pub open spec fn raw_len_of(format_tag: u16) -> usize {
    if format_tag == WAVE_FORMAT_EXTENSIBLE {
        WAVE_FORMAT_EXTENSIBLE_LEN
    } else {
        WAVE_FORMAT_LEN
    }
}

/// Whether `m` is the format that the bytes `b` describe: the extensible layout
/// when the tag in the first two bytes is the extensible tag, the basic one
/// otherwise.
pub open spec fn is_format_of(m: MixFormat, b: Seq<u8>) -> bool {
    if le_u16(b, 0) == WAVE_FORMAT_EXTENSIBLE {
        is_extensible_format_of(m, b)
    } else {
        is_basic_format_of(m, b)
    }
}

impl MixFormat {
    /// The number of bytes that describe a format whose first field is `format_tag`.
    pub fn raw_len(format_tag: u16) -> (n: usize)
        ensures
            n == raw_len_of(format_tag),
    {
        if FormatTag::from(format_tag) == FormatTag::WaveFormatExtensible {
            WAVE_FORMAT_EXTENSIBLE_LEN
        } else {
            WAVE_FORMAT_LEN
        }
    }

    /// The format described by the bytes of a `WAVEFORMATEXTENSIBLE`.
    pub fn from_extensible_raw(bytes: &[u8]) -> (m: MixFormat)
        requires
            WAVE_FORMAT_EXTENSIBLE_LEN <= bytes@.len(),
        ensures
            is_extensible_format_of(m, bytes@),
    {
        let guid = GUID::from_raw(bytes, 24);
        MixFormat {
            format: MixFormatData::from_raw(bytes),
            samples: Some(MixFormatSamples::from(read_u16(bytes, 18))),
            channel_mask: Some(read_u32(bytes, 20)),
            sub_format_guid: Some(guid),
            sub_format: Some(FormatTag::from(guid)),
        }
    }

    /// The format described by the bytes of a `WAVEFORMATEX`, read as the basic
    /// layout whatever its tag.
    pub fn from_basic_raw(bytes: &[u8]) -> (m: MixFormat)
        requires
            WAVE_FORMAT_LEN <= bytes@.len(),
        ensures
            is_basic_format_of(m, bytes@),
    {
        MixFormat {
            format: MixFormatData::from_raw(bytes),
            samples: None,
            channel_mask: None,
            sub_format_guid: None,
            sub_format: None,
        }
    }

    /// The format described by the bytes at the address that the audio client
    /// hands out: read in the extensible layout when its tag says so, in the basic
    /// layout otherwise.
    pub fn from_raw(bytes: &[u8]) -> (m: MixFormat)
        requires
            2 <= bytes@.len(),
            raw_len_of(le_u16(bytes@, 0)) <= bytes@.len(),
        ensures
            is_format_of(m, bytes@),
    {
        let tag: u16 = read_u16(bytes, 0);
        if FormatTag::from(tag) == FormatTag::WaveFormatExtensible {
            MixFormat::from_extensible_raw(bytes)
        } else {
            MixFormat::from_basic_raw(bytes)
        }
    }
}

/// A format read from raw bytes carries the extensible parts exactly when its tag
/// is the extensible tag, and then its three sample readings agree and its
/// sub-format is the one its GUID names.
pub proof fn lemma_extension_follows_tag(m: MixFormat, b: Seq<u8>)
    requires
        is_format_of(m, b),
    ensures
        m.samples is Some <==> m.format.format_tag == FormatTag::WaveFormatExtensible,
        m.channel_mask is Some <==> m.samples is Some,
        m.sub_format_guid is Some <==> m.samples is Some,
        m.sub_format is Some <==> m.samples is Some,
        m.samples is Some ==> m.samples->0.valid_bits_per_sample == m.samples->0.samples_per_block
            && m.samples->0.samples_per_block == m.samples->0.reserved,
        m.sub_format is Some ==> m.sub_format->0 == format_tag_of_guid(m.sub_format_guid->0),
{
}


/// The basic description at the start of the layout: the tag is the 16-bit field
/// at offset 0, then channels at 2, samples per second at 4, bytes per second at
/// 8, block alignment at 12 and bits per sample at 14, all little-endian.
pub open spec fn has_basic_fields_of(d: MixFormatData, b: Seq<u8>) -> bool {
    &&& d.format_tag == format_tag_of((b[0] + 256 * b[1]) as u16)
    &&& d.channels as int == b[2] + 256 * b[3]
    &&& d.sample_rate as int == b[4] + 256 * b[5] + 65536 * b[6] + 16777216 * b[7]
    &&& d.byte_transfer_rate as int == b[8] + 256 * b[9] + 65536 * b[10] + 16777216 * b[11]
    &&& d.block_align as int == b[12] + 256 * b[13]
    &&& d.bits_per_sample as int == b[14] + 256 * b[15]
}

/// A format read in the extensible layout has the same basic description as the
/// basic layout reading of the same bytes, field by field at the basic offsets;
/// its extension is read at offsets 18 (samples), 20 (channel mask) and 24
/// (sub-format GUID), and its extension size at offset 16 is not kept.
pub proof fn lemma_extensible_reads_basic_fields(m: MixFormat, basic: MixFormat, b: Seq<u8>)
    requires
        b.len() >= WAVE_FORMAT_EXTENSIBLE_LEN,
        is_extensible_format_of(m, b),
        is_basic_format_of(basic, b),
    ensures
        m.format == basic.format,
        has_basic_fields_of(m.format, b),
        m.samples->0.valid_bits_per_sample as int == b[18] + 256 * b[19],
        m.samples->0.samples_per_block as int == b[18] + 256 * b[19],
        m.channel_mask->0 as int == b[20] + 256 * b[21] + 65536 * b[22] + 16777216 * b[23],
        m.sub_format_guid->0.data1 as int == b[24] + 256 * b[25] + 65536 * b[26] + 16777216
            * b[27],
        m.samples->0.reserved as int == b[18] + 256 * b[19],
        m.sub_format_guid->0.data2 as int == b[28] + 256 * b[29],
        m.sub_format_guid->0.data3 as int == b[30] + 256 * b[31],
        m.sub_format_guid->0.data4@ == b.subrange(32, 40),
        m.sub_format == Some(format_tag_of((b[24] + 256 * b[25]) as u16)),
{
    assert(0 <= b[28] + 256 * b[29] < 65536);
    assert(0 <= b[30] + 256 * b[31] < 65536);
    lemma_low_half_of_u32(b[24], b[25], b[26], b[27]);
    assert(0 <= b[0] + 256 * b[1] < 65536);
    assert(0 <= b[2] + 256 * b[3] < 65536);
    assert(0 <= b[12] + 256 * b[13] < 65536);
    assert(0 <= b[14] + 256 * b[15] < 65536);
    assert(0 <= b[18] + 256 * b[19] < 65536);
    assert(0 <= b[4] + 256 * b[5] + 65536 * b[6] + 16777216 * b[7] < 0x1_0000_0000);
    assert(0 <= b[8] + 256 * b[9] + 65536 * b[10] + 16777216 * b[11] < 0x1_0000_0000);
    assert(0 <= b[20] + 256 * b[21] + 65536 * b[22] + 16777216 * b[23] < 0x1_0000_0000);
    assert(0 <= b[24] + 256 * b[25] + 65536 * b[26] + 16777216 * b[27] < 0x1_0000_0000);
}

/// The low 16 bits of a 32-bit little-endian field are its first two bytes.
proof fn lemma_low_half_of_u32(x0: u8, x1: u8, x2: u8, x3: u8)
    ensures
        ((x0 + 256 * x1 + 65536 * x2 + 16777216 * x3) as u32) as u16 == (x0 + 256 * x1) as u16,
{
    assert(((x0 + 256 * x1 + 65536 * x2 + 16777216 * x3) as u32) as u16 == (x0 + 256 * x1) as u16)
        by (bit_vector);
}

/// A format read in the basic layout has its basic description at the basic
/// offsets.
pub proof fn lemma_basic_reads_basic_fields(m: MixFormat, b: Seq<u8>)
    requires
        b.len() >= WAVE_FORMAT_LEN,
        is_basic_format_of(m, b),
    ensures
        has_basic_fields_of(m.format, b),
{
    assert(0 <= b[0] + 256 * b[1] < 65536);
    assert(0 <= b[2] + 256 * b[3] < 65536);
    assert(0 <= b[12] + 256 * b[13] < 65536);
    assert(0 <= b[14] + 256 * b[15] < 65536);
    assert(0 <= b[4] + 256 * b[5] + 65536 * b[6] + 16777216 * b[7] < 0x1_0000_0000);
    assert(0 <= b[8] + 256 * b[9] + 65536 * b[10] + 16777216 * b[11] < 0x1_0000_0000);
}


/// The numeric tags 1, 3 and 0xfffe name PCM, float and extensible formats; any
/// other tag is kept as it is; different tags give different format tags.
pub proof fn lemma_format_tag_rules(tag: u16, other: u16)
    ensures
        format_tag_of(1) == FormatTag::WaveFormatPcm,
        format_tag_of(3) == FormatTag::WaveFormatFloat,
        format_tag_of(0xfffe) == FormatTag::WaveFormatExtensible,
        tag != 1 && tag != 3 && tag != 0xfffe ==> format_tag_of(tag) == FormatTag::Other(tag),
        format_tag_of(tag) == format_tag_of(other) ==> tag == other,
{
}

/// A format is read in the 40-byte extensible layout exactly when its first
/// field is 0xfffe, and in the 18-byte basic layout otherwise.
pub proof fn lemma_layout_follows_tag(m: MixFormat, b: Seq<u8>)
    requires
        b.len() >= 2,
        is_format_of(m, b),
    ensures
        raw_len_of((b[0] + 256 * b[1]) as u16) == (if b[0] == 0xfe && b[1] == 0xff {
            40usize
        } else {
            18usize
        }),
        (m.samples is Some) <==> (b[0] == 0xfe && b[1] == 0xff),
{
    assert(0 <= b[0] + 256 * b[1] < 65536);
}

} // verus!
