use gb_rs::error::EmuError;
use gb_rs::interconnect::Interconnect;
use gb_rs::mem::{classify, Region, MMU};

#[test]
fn memory_starts_zeroed_and_stores_bytes() {
    let mut m = MMU::new();
    assert_eq!(m.read_value_u8(0x0000), 0);
    assert_eq!(m.read_value_u8(0xFFFF), 0);
    m.load_value_u8(0x8123, 0xAB).unwrap();
    assert_eq!(m.read_value_u8(0x8123), 0xAB);
    assert_eq!(m.read_value_u8(0x8122), 0x00);
}

#[test]
fn write_reports_the_region_written() {
    let mut m = MMU::new();
    assert_eq!(m.load_value_u8(0x0000, 1), Ok(Region::RestartAndInterruptVectors));
    assert_eq!(m.load_value_u8(0x0120, 1), Ok(Region::CartridgeHeader));
    assert_eq!(m.load_value_u8(0x2000, 1), Ok(Region::CartridgeRomBank0));
    assert_eq!(m.load_value_u8(0x5000, 1), Ok(Region::CartridgeRomSwitchable));
    assert_eq!(m.load_value_u8(0x9000, 1), Ok(Region::CharacterRam));
    assert_eq!(m.load_value_u8(0x9900, 1), Ok(Region::BgMapData1));
    assert_eq!(m.load_value_u8(0x9D00, 1), Ok(Region::BgMapData2));
    assert_eq!(m.load_value_u8(0xB000, 1), Ok(Region::CartridgeRam));
    assert_eq!(m.load_value_u8(0xC800, 1), Ok(Region::InternalRamBank0));
    assert_eq!(m.load_value_u8(0xD800, 1), Ok(Region::InternalRamSwitchable));
    assert_eq!(m.load_value_u8(0xF000, 1), Ok(Region::EchoRam));
    assert_eq!(m.load_value_u8(0xFE50, 1), Ok(Region::ObjectAttributeMemory));
    assert_eq!(m.load_value_u8(0xFEC0, 1), Ok(Region::Unusable));
    assert_eq!(m.load_value_u8(0xFF01, 1), Ok(Region::HardwareIo));
    assert_eq!(m.load_value_u8(0xFFA0, 1), Ok(Region::ZeroPage));
    assert_eq!(m.load_value_u8(0xFFFF, 1), Ok(Region::InterruptEnable));
}

#[test]
fn display_control_writes_are_ordinary_io_stores() {
    let mut m = MMU::new();
    assert_eq!(m.load_value_u8(0xFF40, 0x80), Ok(Region::HardwareIo));
    assert_eq!(m.load_value_u8(0xFF41, 0x03), Ok(Region::HardwareIo));
    assert_eq!(m.read_value_u8(0xFF40), 0x80);
    assert_eq!(m.read_value_u8(0xFF41), 0x03);
}

#[test]
fn out_of_width_address_is_invalid() {
    let mut m = MMU::new();
    let r = m.load_value_u8(0x10000, 0x7F);
    assert_eq!(r, Err(EmuError::InvalidAddress { address: 0x10000 }));
    let r = m.load_value_u8(70000, 0x7F);
    assert_eq!(r, Err(EmuError::InvalidAddress { address: 70000 }));
}

#[test]
fn region_boundaries_classify_exactly() {
    assert_eq!(classify(0x0000), Region::RestartAndInterruptVectors);
    assert_eq!(classify(0x00FF), Region::RestartAndInterruptVectors);
    assert_eq!(classify(0x0100), Region::CartridgeHeader);
    assert_eq!(classify(0x014F), Region::CartridgeHeader);
    assert_eq!(classify(0x0150), Region::CartridgeRomBank0);
    assert_eq!(classify(0x3FFF), Region::CartridgeRomBank0);
    assert_eq!(classify(0x4000), Region::CartridgeRomSwitchable);
    assert_eq!(classify(0x7FFF), Region::CartridgeRomSwitchable);
    assert_eq!(classify(0x8000), Region::CharacterRam);
    assert_eq!(classify(0x97FF), Region::CharacterRam);
    assert_eq!(classify(0x9800), Region::BgMapData1);
    assert_eq!(classify(0x9BFF), Region::BgMapData1);
    assert_eq!(classify(0x9C00), Region::BgMapData2);
    assert_eq!(classify(0x9FFF), Region::BgMapData2);
    assert_eq!(classify(0xA000), Region::CartridgeRam);
    assert_eq!(classify(0xBFFF), Region::CartridgeRam);
    assert_eq!(classify(0xC000), Region::InternalRamBank0);
    assert_eq!(classify(0xCFFF), Region::InternalRamBank0);
    assert_eq!(classify(0xD000), Region::InternalRamSwitchable);
    assert_eq!(classify(0xDFFF), Region::InternalRamSwitchable);
    assert_eq!(classify(0xE000), Region::EchoRam);
    assert_eq!(classify(0xFDFF), Region::EchoRam);
    assert_eq!(classify(0xFE00), Region::ObjectAttributeMemory);
    assert_eq!(classify(0xFE9F), Region::ObjectAttributeMemory);
    assert_eq!(classify(0xFEA0), Region::Unusable);
    assert_eq!(classify(0xFEFF), Region::Unusable);
    assert_eq!(classify(0xFF00), Region::HardwareIo);
    assert_eq!(classify(0xFF7F), Region::HardwareIo);
    assert_eq!(classify(0xFF80), Region::ZeroPage);
    assert_eq!(classify(0xFFFE), Region::ZeroPage);
    assert_eq!(classify(0xFFFF), Region::InterruptEnable);
}

#[test]
fn every_address_classifies_to_one_region() {
    // Totality: the classifier answers for the whole 16-bit range, and
    // consecutive addresses only ever move forward through the region
    // list, so no address falls in two regions.
    let mut current = classify(0);
    let mut changes = 0;
    for a in 1u32..65536 {
        let r = classify(a as u16);
        if r != current {
            changes += 1;
            current = r;
        }
    }
    assert_eq!(changes, 15);
}

#[test]
fn interconnect_reports_regions_and_reads_zero() {
    let mut ic = Interconnect::new();
    assert_eq!(ic.read_word(), 0);
    assert_eq!(ic.write_word(0x42, 0xFF01), Region::HardwareIo);
    assert_eq!(ic.write_word(0x42, 0x0150), Region::CartridgeRomBank0);
    assert_eq!(Region::HardwareIo.name(), "Hardware I/O Registers");
    assert_eq!(Region::EchoRam.name(), "Echo RAM - Reserved, Do Not Use");
}
