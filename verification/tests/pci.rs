use simon::gpu::amd_rocm::AmdGpu;
use simon::gpu::traits::Error;
use simon::pci::{bus_id, from_hex_exec, link_fields_fit, read_link_address, LinkComponent};

fn card() -> AmdGpu {
    AmdGpu::new(0, "/sys/class/drm/card0".to_string(), true).unwrap()
}

#[test]
fn pci_address_needs_seven_byte_first_field() {
    // The first `:`-separated field must be seven bytes long (domain in
    // bytes 0-3, bus in 5-6), so the usual `dddd:bb:dd.f` component does not
    // read as an address.
    let link = "../../devices/pci0000:00/0000:00:03.1/0000:0a:00.0".to_string();
    match card().pci_info(Ok(link)) {
        Err(Error::QueryFailed(m)) => assert_eq!(m, "Could not parse PCI info"),
        other => panic!("unexpected {:?}", other),
    }
}

#[test]
fn pci_address_from_link() {
    let p = card().pci_info(Ok("../devices/0001x1f:0b:00.3".to_string())).unwrap();
    assert_eq!(p.domain, 1);
    assert_eq!(p.bus, 0x1f);
    assert_eq!(p.device, 0x0b);
    assert_eq!(p.function, 3);
    assert_eq!(p.bus_id, "0001:1f:0b.3");
    assert_eq!(p.pcie_generation, None);
    assert_eq!(p.pcie_link_width, None);
}

#[test]
fn pci_address_last_component_wins() {
    let link = "../../devices/0000x01:02:00.1/0002xAB:0C:00.7/drm".to_string();
    let p = card().pci_info(Ok(link)).unwrap();
    assert_eq!(p.domain, 2);
    assert_eq!(p.bus, 0xab);
    assert_eq!(p.device, 0x0c);
    assert_eq!(p.function, 7);
    assert_eq!(p.bus_id, "0002:ab:0c.7");
}

#[test]
fn pci_address_missing() {
    match card().pci_info(Ok("../../devices/platform/soc/gpu".to_string())) {
        Err(Error::QueryFailed(m)) => assert_eq!(m, "Could not parse PCI info"),
        other => panic!("unexpected {:?}", other),
    }
    let e = std::io::Error::new(std::io::ErrorKind::NotFound, "gone");
    match card().pci_info(Err(e)) {
        Err(Error::QueryFailed(m)) => assert!(m.starts_with("Failed to read device link: ")),
        other => panic!("unexpected {:?}", other),
    }
}

#[test]
fn pci_address_fields_must_be_hex() {
    assert!(matches!(read_link_address("0000x00:02:00.g"), LinkComponent::NoAddress));
    assert!(matches!(read_link_address("0000x00:100:00.0"), LinkComponent::NoAddress));
    assert!(matches!(read_link_address("0000x00:+2:00.+1"), LinkComponent::Address(0, 0, 2, 1)));
    assert!(matches!(read_link_address("0000x00:02:00.+"), LinkComponent::NoAddress));
    assert!(matches!(read_link_address("0000x00:02:00.1.2"), LinkComponent::NoAddress));
}

#[test]
fn pci_address_split_characters() {
    // The first field "0000\u{e9}0" is seven bytes; byte 5 continues the 'é'.
    let cut = "../0000\u{e9}0:00:00.0";
    assert!(matches!(read_link_address(cut), LinkComponent::SplitCharacter));
    assert!(!link_fields_fit(cut));
    // A later component that reads as an address is found first.
    assert!(link_fields_fit("0000\u{e9}0:00:00.0/0000x01:00:00.0"));
    assert!(link_fields_fit("../0000:01:00.0"));
}

#[test]
fn hex_fields() {
    assert_eq!(from_hex_exec(b"1f", 0xff), Some(0x1f));
    assert_eq!(from_hex_exec(b"+A", 0xff), Some(10));
    assert_eq!(from_hex_exec(b"100", 0xff), None);
    assert_eq!(from_hex_exec(b"000000ff", 0xff), Some(255));
    assert_eq!(from_hex_exec(b"", 0xff), None);
    assert_eq!(from_hex_exec(b"+", 0xff), None);
    assert_eq!(from_hex_exec(b"-1", 0xff), None);
    assert_eq!(bus_id(0, 0x3a, 0x1f, 7), "0000:3a:1f.7");
}
