//! The MCUboot image format for ESP32-family chips: bootloader header
//! validation, the application merge, and the two flash views.

use vstd::prelude::*;

use crate::chip::Esp32Params;
use crate::segment::copy_bytes;
use crate::segment::lemma_pad_data;
use crate::segment::merged_addr;
use crate::segment::merged_data;
use crate::segment::pad_data;
use crate::segment::CodeSegment;
use crate::segment::FirmwareImage;
use crate::segment::RomSegment;
use crate::error::Error;

verus! {

/// Magic value that opens every ESP-family image header.
pub const ESP_MAGIC: u8 = 0xE9;

/// Alignment, in bytes, to which the merged application payload is padded.
pub const SEGMENT_ALIGN: usize = 4;

/// Fixed-layout header found in the first 8 bytes of every ESP-family binary
/// image. Only `magic` takes part in validation; the remaining fields are
/// carried along as read.
#[derive(Debug, Clone, Copy, PartialEq, Eq, Structural)]
pub struct EspCommonHeader {
    /// Magic value; `ESP_MAGIC` on a recognized image.
    pub magic: u8,
    /// Number of segments the image declares.
    pub segment_count: u8,
    /// Flash mode byte.
    pub flash_mode: u8,
    /// Flash frequency and size byte.
    pub flash_config: u8,
    /// Entry point address, stored little-endian.
    pub entry: u32,
}

/// Relies on `bytemuck::from_bytes`: given an 8-byte source it returns a
/// reference to those bytes reinterpreted as one plain value — here a
/// `[u8; 8]`, so the array holds exactly the source bytes in order. The
/// header fields are then taken from their fixed offsets, the entry word from
/// its four little-endian bytes.
#[verifier::external_body]
fn parse_common_header(bytes: &[u8]) -> (h: EspCommonHeader)
    requires
        bytes@.len() >= 8,
    ensures
        h.magic == bytes@[0],
        h.segment_count == bytes@[1],
        h.flash_mode == bytes@[2],
        h.flash_config == bytes@[3],
        h.entry == vstd::bytes::spec_u32_from_le_bytes(bytes@.subrange(4, 8)),
{
    let raw: &[u8; 8] = bytemuck::from_bytes(&bytes[0..8]);
    EspCommonHeader {
        magic: raw[0],
        segment_count: raw[1],
        flash_mode: raw[2],
        flash_config: raw[3],
        entry: u32::from_le_bytes([raw[4], raw[5], raw[6], raw[7]]),
    }
}

/// Whether bootloader bytes are available at all: either the caller supplied
/// some, or the chip descriptor carries a default.
pub open spec fn spec_resolves(bootloader: Option<Vec<u8>>, params: Esp32Params) -> bool {
    bootloader is Some || params.default_mcuboot is Some
}

/// The bootloader bytes construction works with: the caller's, or failing
/// that the chip's default.
pub open spec fn spec_bootloader_bytes(bootloader: Option<Vec<u8>>, params: Esp32Params) -> Seq<
    u8,
> {
    match bootloader {
        Some(b) => b@,
        None => match params.default_mcuboot {
            Some(d) => d@,
            None => Seq::empty(),
        },
    }
}

/// Whether the resolved bootloader bytes pass validation: they hold a full
/// 8-byte header whose magic field is `ESP_MAGIC`.
pub open spec fn spec_bootloader_ok(bootloader_bytes: Seq<u8>) -> bool {
    bootloader_bytes.len() >= 8 && bootloader_bytes[0] == ESP_MAGIC
}

/// The application payload after merging and padding: the segment payloads
/// concatenated in image order, padded with zeros to a 4-byte boundary.
pub open spec fn spec_app_payload(image: FirmwareImage) -> Seq<u8> {
    pad_data(merged_data(image.segments@), SEGMENT_ALIGN as int)
}

/// Whether `data` carries the MCUboot structural marker: bytes 32 through 35
/// hold the fixed sequence `d3 37 e6 ac`.
pub open spec fn has_mcuboot_marker(data: Seq<u8>) -> bool {
    &&& data.len() >= 36
    &&& data[32] == 0xd3u8
    &&& data[33] == 0x37u8
    &&& data[34] == 0xe6u8
    &&& data[35] == 0xacu8
}

/// Whether the merged application passes validation: the merged region starts
/// at address 0 and the padded payload carries the MCUboot marker.
pub open spec fn spec_app_ok(image: FirmwareImage) -> bool {
    merged_addr(image.segments@) == 0 && has_mcuboot_marker(spec_app_payload(image))
}

/// The outcome of construction for the given inputs: the error it fails with,
/// or `None` when it succeeds. Checks run in this order: bootloader
/// resolution, bootloader header, merged application.
pub open spec fn spec_construction_error(
    image: FirmwareImage,
    params: Esp32Params,
    bootloader: Option<Vec<u8>>,
) -> Option<Error> {
    if !spec_resolves(bootloader, params) {
        Some(Error::MissingDefault)
    } else if !spec_bootloader_ok(spec_bootloader_bytes(bootloader, params)) {
        Some(Error::InvalidBootloader)
    } else if !spec_app_ok(image) {
        Some(Error::InvalidMcuBootBinary)
    } else {
        None
    }
}

/// The assembled, validated flash image for an ESP32-family chip booting
/// through MCUboot: the chip parameters, the resolved bootloader bytes, and
/// the single merged application segment.
pub struct Esp32McuBootFormat {
    /// The chip descriptor construction was given.
    pub params: Esp32Params,
    /// The resolved, validated bootloader bytes.
    pub bootloader: Vec<u8>,
    /// The merged, padded, validated application payload, addressed at the
    /// chip's application flash address.
    pub flash_segment: RomSegment,
}

impl Esp32McuBootFormat {
    /// Builds the flash image: resolves the bootloader bytes (caller-supplied
    /// bytes take precedence over the chip default), validates the bootloader
    /// header magic, merges the application segments in image order, pads the
    /// result to a 4-byte boundary, and validates that the merged region
    /// starts at address 0 and carries the MCUboot marker at offset 32.
    ///
    /// Fails with exactly the error `spec_construction_error` names, and on
    /// success holds the resolved bootloader and the padded application
    /// payload addressed at the chip's application flash address.
    pub fn new(image: &FirmwareImage, params: Esp32Params, bootloader: Option<Vec<u8>>) -> (r:
        Result<Self, Error>)
        ensures
            r is Err <==> spec_construction_error(*image, params, bootloader) is Some,
            r matches Err(e) ==> Some(e) == spec_construction_error(*image, params, bootloader),
            r matches Ok(f) ==> {
                &&& f.params == params
                &&& f.bootloader@ == spec_bootloader_bytes(bootloader, params)
                &&& f.flash_segment.addr == params.app_addr
                &&& f.flash_segment.data@ == spec_app_payload(*image)
            },
    {
        let bootloader_bytes: Vec<u8> = match bootloader {
            Some(bytes) => bytes,
            None => match &params.default_mcuboot {
                Some(d) => copy_bytes(d),
                None => {
                    return Err(Error::MissingDefault);
                },
            },
        };

        if bootloader_bytes.len() < 8 {
            return Err(Error::InvalidBootloader);
        }
        let header = parse_common_header(bootloader_bytes.as_slice());
        if header.magic != ESP_MAGIC {
            return Err(Error::InvalidBootloader);
        }

        let segs = image.segments_with_load_addresses();
        let mut segment = CodeSegment::default();
        let mut i: usize = 0;
        while i < segs.len()
            invariant
                i <= segs@.len(),
                segment.data@ == merged_data(segs@.subrange(0, i as int)),
                segment.addr == merged_addr(segs@.subrange(0, i as int)),
            decreases segs@.len() - i,
        {
            segment.append(&segs[i]);
            proof {
                assert(segs@.subrange(0, i as int + 1).drop_last()
                    =~= segs@.subrange(0, i as int));
                assert(segs@.subrange(0, i as int + 1).last() == segs@[i as int]);
            }
            i = i + 1;
        }
        proof {
            assert(segs@.subrange(0, segs@.len() as int) =~= segs@);
        }
        segment.pad_align(SEGMENT_ALIGN);

        if segment.addr != 0 {
            return Err(Error::InvalidMcuBootBinary);
        }
        if segment.data.len() < 36 {
            return Err(Error::InvalidMcuBootBinary);
        }
        if !(segment.data[32] == 0xd3 && segment.data[33] == 0x37 && segment.data[34] == 0xe6
            && segment.data[35] == 0xac) {
            return Err(Error::InvalidMcuBootBinary);
        }

        let flash_segment = RomSegment { addr: params.app_addr, data: segment.data };
        Ok(Esp32McuBootFormat { params, bootloader: bootloader_bytes, flash_segment })
    }

    /// The segments to write for a full initial flash, in canonical write
    /// order: the bootloader at the chip's boot address, then the application
    /// at the chip's application address.
    pub fn flash_segments(&self) -> (r: Vec<RomSegment>)
        ensures
            r@.len() == 2,
            r@[0].addr == self.params.boot_addr,
            r@[0].data@ == self.bootloader@,
            r@[1].addr == self.flash_segment.addr,
            r@[1].data@ == self.flash_segment.data@,
    {
        let mut r: Vec<RomSegment> = Vec::new();
        r.push(RomSegment { addr: self.params.boot_addr, data: copy_bytes(&self.bootloader) });
        r.push(self.flash_segment.borrow());
        r
    }

    /// The segments to write for an over-the-air update: the application
    /// segment only, so the bootloader region is never touched.
    pub fn ota_segments(&self) -> (r: Vec<RomSegment>)
        ensures
            r@.len() == 1,
            r@[0].addr == self.flash_segment.addr,
            r@[0].data@ == self.flash_segment.data@,
    {
        let mut r: Vec<RomSegment> = Vec::new();
        r.push(self.flash_segment.borrow());
        r
    }
}

/// Law: a merged application payload shorter than 36 bytes is always rejected
/// as an invalid MCUboot binary, whatever bytes it holds — padding can fill
/// at most three bytes, so some marker byte is zero filler or out of range.
pub proof fn lemma_short_payload_rejected(
    image: FirmwareImage,
    params: Esp32Params,
    bootloader: Option<Vec<u8>>,
)
    requires
        spec_resolves(bootloader, params),
        spec_bootloader_ok(spec_bootloader_bytes(bootloader, params)),
        merged_data(image.segments@).len() < 36,
    ensures
        spec_construction_error(image, params, bootloader) == Some(Error::InvalidMcuBootBinary),
{
    let data = merged_data(image.segments@);
    let l = data.len() as int;
    lemma_pad_data(data, SEGMENT_ALIGN as int);
    let p = spec_app_payload(image);
    if p.len() >= 36 {
        assert(p.len() < l + 4);
        assert(p[35] == 0u8);
        assert(!has_mcuboot_marker(p));
    }
    assert(!spec_app_ok(image));
}

/// Law: whenever bootloader bytes resolve but their first 8 bytes do not form
/// a header with the expected magic, construction fails with
/// `InvalidBootloader`, whatever the application looks like.
pub proof fn lemma_bad_magic_rejected(
    image: FirmwareImage,
    params: Esp32Params,
    bootloader: Option<Vec<u8>>,
)
    requires
        spec_resolves(bootloader, params),
        spec_bootloader_bytes(bootloader, params).len() >= 8,
        spec_bootloader_bytes(bootloader, params)[0] != ESP_MAGIC,
    ensures
        spec_construction_error(image, params, bootloader) == Some(Error::InvalidBootloader),
{
}

/// Law: the two views agree. Whatever the full-flash view yields as its
/// second segment and the OTA view as its only one, both are the builder's
/// stored application segment, so their address and payload are identical.
pub proof fn lemma_views_agree(
    f: Esp32McuBootFormat,
    full: Seq<RomSegment>,
    ota: Seq<RomSegment>,
)
    requires
        full.len() == 2,
        full[1].addr == f.flash_segment.addr,
        full[1].data@ == f.flash_segment.data@,
        ota.len() == 1,
        ota[0].addr == f.flash_segment.addr,
        ota[0].data@ == f.flash_segment.data@,
    ensures
        ota[0].addr == full[1].addr,
        ota[0].data@ == full[1].data@,
{
}

} // verus!
