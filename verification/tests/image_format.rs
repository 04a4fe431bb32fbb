use mcuboot_image::chip::Esp32Params;
use mcuboot_image::error::Error;
use mcuboot_image::image_format::Esp32McuBootFormat;
use mcuboot_image::segment::CodeSegment;
use mcuboot_image::segment::FirmwareImage;

const BOOT_ADDR: u32 = 0x1000;
const APP_ADDR: u32 = 0x10000;

/// A bootloader buffer with a valid header: magic 0xE9, then arbitrary bytes.
fn valid_bootloader() -> Vec<u8> {
    let mut b = vec![0xE9, 2, 0, 0, 0x10, 0x20, 0x30, 0x40];
    b.extend_from_slice(&[7, 8, 9]);
    b
}

/// A 40-byte application payload carrying the MCUboot marker at offset 32.
fn valid_app_payload() -> Vec<u8> {
    let mut d: Vec<u8> = (0..40).map(|i| i as u8).collect();
    d[32] = 0xd3;
    d[33] = 0x37;
    d[34] = 0xe6;
    d[35] = 0xac;
    d
}

fn params_with_default(default: Option<Vec<u8>>) -> Esp32Params {
    Esp32Params::new(BOOT_ADDR, APP_ADDR, default)
}

fn image_of(segments: Vec<CodeSegment>) -> FirmwareImage {
    FirmwareImage::new(segments)
}

#[test]
fn full_flash_and_ota_views() {
    let bootloader = valid_bootloader();
    let payload = valid_app_payload();
    let image = image_of(vec![CodeSegment::new(0, payload.clone())]);
    let format = match Esp32McuBootFormat::new(&image, params_with_default(None), Some(bootloader.clone())) {
        Ok(f) => f,
        Err(_) => panic!("construction should succeed"),
    };

    let full = format.flash_segments();
    assert_eq!(full.len(), 2);
    assert_eq!(full[0].addr, BOOT_ADDR);
    assert_eq!(full[0].data, bootloader);
    assert_eq!(full[1].addr, APP_ADDR);
    assert_eq!(full[1].data, payload);

    let ota = format.ota_segments();
    assert_eq!(ota.len(), 1);
    assert_eq!(ota[0].addr, full[1].addr);
    assert_eq!(ota[0].data, full[1].data);
}

#[test]
fn views_are_restartable() {
    let image = image_of(vec![CodeSegment::new(0, valid_app_payload())]);
    let format = match Esp32McuBootFormat::new(&image, params_with_default(None), Some(valid_bootloader())) {
        Ok(f) => f,
        Err(_) => panic!("construction should succeed"),
    };
    let first = format.flash_segments();
    let second = format.flash_segments();
    assert_eq!(first.len(), second.len());
    for (a, b) in first.iter().zip(second.iter()) {
        assert_eq!(a.addr, b.addr);
        assert_eq!(a.data, b.data);
    }
}

#[test]
fn nonzero_address_rejected() {
    let image = image_of(vec![CodeSegment::new(0x10, valid_app_payload())]);
    let r = Esp32McuBootFormat::new(&image, params_with_default(None), Some(valid_bootloader()));
    assert!(matches!(r, Err(Error::InvalidMcuBootBinary)));
}

#[test]
fn wrong_bootloader_magic_rejected() {
    let mut bootloader = valid_bootloader();
    bootloader[0] = 0xE8;
    let image = image_of(vec![CodeSegment::new(0, valid_app_payload())]);
    let r = Esp32McuBootFormat::new(&image, params_with_default(None), Some(bootloader));
    assert!(matches!(r, Err(Error::InvalidBootloader)));
}

#[test]
fn wrong_magic_reported_before_application_errors() {
    // both inputs are invalid: the bootloader error wins, since the header is
    // checked before any segment merging
    let mut bootloader = valid_bootloader();
    bootloader[0] = 0x00;
    let image = image_of(vec![CodeSegment::new(0x10, vec![1, 2, 3])]);
    let r = Esp32McuBootFormat::new(&image, params_with_default(None), Some(bootloader));
    assert!(matches!(r, Err(Error::InvalidBootloader)));
}

#[test]
fn wrong_magic_rejected_for_any_length() {
    let image = image_of(vec![CodeSegment::new(0, valid_app_payload())]);
    for extra in [0usize, 1, 100] {
        let mut bootloader = vec![0x00, 2, 0, 0, 0x10, 0x20, 0x30, 0x40];
        bootloader.extend(std::iter::repeat(0xAA).take(extra));
        let r = Esp32McuBootFormat::new(&image, params_with_default(None), Some(bootloader));
        assert!(matches!(r, Err(Error::InvalidBootloader)));
    }
}

#[test]
fn short_bootloader_rejected() {
    let image = image_of(vec![CodeSegment::new(0, valid_app_payload())]);
    let r = Esp32McuBootFormat::new(&image, params_with_default(None), Some(vec![0xE9, 0, 0]));
    assert!(matches!(r, Err(Error::InvalidBootloader)));
}

#[test]
fn short_payload_rejected() {
    for len in [0usize, 10, 33, 35] {
        let payload: Vec<u8> = vec![0xd3; len];
        let image = image_of(vec![CodeSegment::new(0, payload)]);
        let r = Esp32McuBootFormat::new(&image, params_with_default(None), Some(valid_bootloader()));
        assert!(matches!(r, Err(Error::InvalidMcuBootBinary)));
    }
}

#[test]
fn empty_image_rejected() {
    let image = image_of(vec![]);
    let r = Esp32McuBootFormat::new(&image, params_with_default(None), Some(valid_bootloader()));
    assert!(matches!(r, Err(Error::InvalidMcuBootBinary)));
}

#[test]
fn missing_marker_rejected() {
    let mut payload = valid_app_payload();
    payload[34] = 0x00;
    let image = image_of(vec![CodeSegment::new(0, payload)]);
    let r = Esp32McuBootFormat::new(&image, params_with_default(None), Some(valid_bootloader()));
    assert!(matches!(r, Err(Error::InvalidMcuBootBinary)));
}

#[test]
fn missing_default_bootloader() {
    let image = image_of(vec![CodeSegment::new(0, valid_app_payload())]);
    let r = Esp32McuBootFormat::new(&image, params_with_default(None), None);
    assert!(matches!(r, Err(Error::MissingDefault)));
}

#[test]
fn default_bootloader_used_when_none_supplied() {
    let default = valid_bootloader();
    let image = image_of(vec![CodeSegment::new(0, valid_app_payload())]);
    let format = match Esp32McuBootFormat::new(&image, params_with_default(Some(default.clone())), None) {
        Ok(f) => f,
        Err(_) => panic!("construction should succeed"),
    };
    let full = format.flash_segments();
    assert_eq!(full[0].data, default);
}

#[test]
fn supplied_bootloader_takes_precedence() {
    let default = vec![0x00; 8];
    let supplied = valid_bootloader();
    let image = image_of(vec![CodeSegment::new(0, valid_app_payload())]);
    let format = match Esp32McuBootFormat::new(
        &image,
        params_with_default(Some(default)),
        Some(supplied.clone()),
    ) {
        Ok(f) => f,
        Err(_) => panic!("construction should succeed"),
    };
    let full = format.flash_segments();
    assert_eq!(full[0].data, supplied);
}

#[test]
fn segments_merge_in_order() {
    let payload = valid_app_payload();
    let first = CodeSegment::new(0, payload[..16].to_vec());
    let second = CodeSegment::new(16, payload[16..].to_vec());
    let image = image_of(vec![first, second]);
    let format = match Esp32McuBootFormat::new(&image, params_with_default(None), Some(valid_bootloader())) {
        Ok(f) => f,
        Err(_) => panic!("construction should succeed"),
    };
    let ota = format.ota_segments();
    assert_eq!(ota[0].data, payload);
}

#[test]
fn merged_payload_is_padded_to_four_bytes() {
    let mut payload = valid_app_payload();
    payload.push(0x55);
    let image = image_of(vec![CodeSegment::new(0, payload.clone())]);
    let format = match Esp32McuBootFormat::new(&image, params_with_default(None), Some(valid_bootloader())) {
        Ok(f) => f,
        Err(_) => panic!("construction should succeed"),
    };
    let ota = format.ota_segments();
    assert_eq!(ota[0].data.len(), 44);
    assert_eq!(&ota[0].data[..41], &payload[..]);
    assert_eq!(&ota[0].data[41..], &[0, 0, 0]);
}

#[test]
fn error_descriptions() {
    assert_eq!(
        Error::MissingDefault.describe(),
        "no bootloader was supplied and the chip has no default"
    );
    assert_eq!(Error::InvalidBootloader.describe(), "invalid bootloader header");
    assert_eq!(
        Error::InvalidMcuBootBinary.describe(),
        "application is not a valid MCUboot binary"
    );
}
