use esp_idf_hal::interface::{AdapterType, Interface, MacType};

#[test]
fn each_interface_has_its_own_mac_type() {
    assert_eq!(Interface::Sta.mac_type(), MacType::WifiSta);
    assert_eq!(Interface::Ap.mac_type(), MacType::WifiSoftAp);
    assert_eq!(Interface::Bt.mac_type(), MacType::Bt);
    assert_eq!(Interface::Eth.mac_type(), MacType::Eth);
}

#[test]
fn mac_types_are_pairwise_distinct() {
    let all = [Interface::Sta, Interface::Ap, Interface::Bt, Interface::Eth];
    for a in all {
        for b in all {
            assert_eq!(a.mac_type() == b.mac_type(), a == b);
        }
    }
}

#[test]
fn only_the_wifi_interfaces_have_an_adapter() {
    assert_eq!(Interface::Sta.adapter_type(), Some(AdapterType::Sta));
    assert_eq!(Interface::Ap.adapter_type(), Some(AdapterType::Ap));
    assert_eq!(Interface::Bt.adapter_type(), None);
    assert_eq!(Interface::Eth.adapter_type(), None);
}

#[test]
fn only_the_wifi_interfaces_have_a_key() {
    assert_eq!(Interface::Sta.netif_key(), Some("WIFI_STA_DEF\0"));
    assert_eq!(Interface::Ap.netif_key(), Some("WIFI_AP_DEF\0"));
    assert_eq!(Interface::Bt.netif_key(), None);
    assert_eq!(Interface::Eth.netif_key(), None);
}

#[test]
fn keys_are_ascii_and_end_in_their_only_nul() {
    for interface in [Interface::Sta, Interface::Ap] {
        let key = interface.netif_key().unwrap();
        let bytes = key.as_bytes();
        assert!(key.is_ascii());
        assert_eq!(bytes[bytes.len() - 1], 0);
        assert!(bytes[..bytes.len() - 1].iter().all(|b| *b != 0));
    }
    assert_eq!(Interface::Sta.netif_key().unwrap().as_bytes().len(), 13);
    assert_eq!(Interface::Ap.netif_key().unwrap().as_bytes().len(), 12);
}

#[test]
fn interfaces_are_copied_and_compared() {
    let a = Interface::Ap;
    let b = a;
    assert_eq!(a, b);
    assert_ne!(a, Interface::Sta);
    assert_eq!(format!("{:?}", Interface::Eth), "Eth");
}
