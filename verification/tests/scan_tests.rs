use connectivity::config::get_wifi_credentials;
use connectivity::scan::{gui_signal_strength, AuthMethod, ScanEntry, ScanList, SCAN_CAPACITY};

fn entry(ssid: &str, strength: i8) -> ScanEntry {
    ScanEntry {
        ssid: ssid.to_owned(),
        auth_method: AuthMethod::Wpa2Personal,
        signal_strength: strength,
    }
}

#[test]
fn select_network_picks_first_match() {
    let mut list = ScanList::new();
    list.push(entry("alpha", -40));
    list.push(entry("beta", -50));
    list.push(entry("alpha", -20));
    assert_eq!(list.select_network(&"alpha".to_owned()), Some(0));
    assert_eq!(list.select_network(&"beta".to_owned()), Some(1));
}

#[test]
fn select_network_no_match() {
    let mut list = ScanList::new();
    list.push(entry("alpha", -40));
    assert_eq!(list.select_network(&"gamma".to_owned()), None);
    assert_eq!(list.select_network(&"Alpha".to_owned()), None);
    assert_eq!(list.select_network(&"alph".to_owned()), None);
}

#[test]
fn select_network_empty_list() {
    let list = ScanList::new();
    assert_eq!(list.select_network(&"alpha".to_owned()), None);
}

#[test]
fn scan_list_truncates_at_capacity() {
    let mut list = ScanList::new();
    for i in 0..10 {
        list.push(entry(&format!("net{}", i), -40));
    }
    assert_eq!(list.len(), SCAN_CAPACITY);
    assert_eq!(list.get(7).ssid, "net7");
}

#[test]
fn signal_strength_gauge_bands() {
    assert_eq!(gui_signal_strength(0), "\u{2581}\u{2583}\u{2585}\u{2587}");
    assert_eq!(gui_signal_strength(-29), "\u{2581}\u{2583}\u{2585}\u{2587}");
    assert_eq!(gui_signal_strength(-30), "\u{2581}\u{2583}\u{2585} ");
    assert_eq!(gui_signal_strength(-59), "\u{2581}\u{2583}\u{2585} ");
    assert_eq!(gui_signal_strength(-60), "\u{2581}\u{2583}  ");
    assert_eq!(gui_signal_strength(-89), "\u{2581}\u{2583}  ");
    assert_eq!(gui_signal_strength(-90), "\u{2581}   ");
    assert_eq!(gui_signal_strength(-119), "\u{2581}   ");
    assert_eq!(gui_signal_strength(-120), "    ");
    assert_eq!(gui_signal_strength(-128), "    ");
    assert_eq!(gui_signal_strength(29), "\u{2581}\u{2583}\u{2585}\u{2587}");
}

#[test]
fn credentials_are_the_fixed_placeholder() {
    let (ssid, pass) = get_wifi_credentials();
    assert_eq!(ssid, "wifi_name");
    assert_eq!(pass, "wifi_password");
}
