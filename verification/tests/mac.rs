use esp_idf_hal::mac::MacAddress;
use esp_idf_hal::status::{EspError, ESP_OK};

#[test]
fn status_zero_is_success() {
    assert_eq!(ESP_OK, 0);
    assert_eq!(EspError::check(ESP_OK), Ok(()));
}

#[test]
fn every_other_status_is_a_failure_with_its_code() {
    for status in [-1, 1, 0x101, 0x102, 0x103, i32::MAX, i32::MIN] {
        let error = EspError::check(status).unwrap_err();
        assert_eq!(error.code(), status);
    }
}

#[test]
fn station_mac_read_succeeds() {
    let buffer = [0x24, 0x6F, 0x28, 0xAB, 0xCD, 0xEF];
    let mac = MacAddress::from_read(ESP_OK, buffer).unwrap();
    assert_eq!(mac.octets, buffer);
    assert_eq!(mac.octets.len(), 6);
    assert_eq!(mac, MacAddress { octets: [0x24, 0x6F, 0x28, 0xAB, 0xCD, 0xEF] });
}

#[test]
fn all_zero_mac_is_an_address() {
    let mac = MacAddress::from_read(ESP_OK, [0; 6]);
    assert_eq!(mac, Ok(MacAddress { octets: [0; 6] }));
}

#[test]
fn mac_with_equal_octets_is_an_address() {
    let mac = MacAddress::from_read(ESP_OK, [0xFF; 6]).unwrap();
    assert_eq!(mac.octets, [0xFF; 6]);
}

#[test]
fn failed_mac_read_hands_on_no_address() {
    for status in [-1, 0x102, 0x105] {
        let read = MacAddress::from_read(status, [1, 2, 3, 4, 5, 6]);
        assert!(read.is_err());
        assert_eq!(read.unwrap_err().code(), status);
    }
}
