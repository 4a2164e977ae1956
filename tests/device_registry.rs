use rk_flash::device::{parse_device_line, parse_device_list, reconcile, refresh_devices, DeviceRecord};
use rk_flash::session::{EnumerationError, FlashSession};

fn record(loc: &str, checked: bool, progress: &str) -> DeviceRecord {
    DeviceRecord {
        checked,
        dev_no: "1".to_string(),
        loc_id: loc.to_string(),
        mode: "Loader".to_string(),
        serial_no: "S".to_string(),
        progress: progress.to_string(),
    }
}

#[test]
fn parses_line_with_intervening_pairs() {
    let d = parse_device_line("DevNo=3 foo=bar LocationID=7 Mode=maskrom SerialNo=ABC123").unwrap();
    assert_eq!(d.dev_no, "3");
    assert_eq!(d.loc_id, "7");
    assert_eq!(d.mode, "maskrom");
    assert_eq!(d.serial_no, "ABC123");
    assert!(d.checked);
    assert_eq!(d.progress, "ready");
}

#[test]
fn ignores_line_without_dev_no() {
    assert!(parse_device_line("List of rockusb connected").is_none());
    assert!(parse_device_line(" DevNo=3 LocationID=7").is_none());
    assert!(parse_device_line("").is_none());
}

#[test]
fn missing_mode_gives_empty_field() {
    let d = parse_device_line("DevNo=3 LocationID=7 SerialNo=ABC123").unwrap();
    assert_eq!(d.dev_no, "3");
    assert_eq!(d.loc_id, "7");
    assert_eq!(d.mode, "");
    assert_eq!(d.serial_no, "ABC123");
}

#[test]
fn parses_tool_layout_with_commas_and_tabs() {
    let d = parse_device_line("DevNo=1\tVid=0x2207,Pid=0x350a,LocationID=13\tMode=Loader\tSerialNo=a1b2\r")
        .unwrap();
    assert_eq!(d.dev_no, "1");
    assert_eq!(d.loc_id, "13");
    assert_eq!(d.mode, "Loader");
    assert_eq!(d.serial_no, "a1b2");
}

#[test]
fn value_is_the_word_run_after_its_key() {
    let d = parse_device_line("DevNo=1 LocationID=7 Mode=Loader SerialNo=a-b").unwrap();
    assert_eq!(d.serial_no, "a");
    let d = parse_device_line("DevNo=12ab LocationID=0x5 Mode=mask_rom2.x SerialNo=Z9").unwrap();
    assert_eq!(d.dev_no, "12");
    assert_eq!(d.loc_id, "0");
    assert_eq!(d.mode, "mask_rom2");
    assert_eq!(d.serial_no, "Z9");
    let d = parse_device_line("DevNo= LocationID=3").unwrap();
    assert_eq!(d.dev_no, "");
    assert_eq!(d.loc_id, "3");
}

#[test]
fn keys_are_taken_in_order() {
    let d = parse_device_line("DevNo=3 Mode=m LocationID=7 SerialNo=s").unwrap();
    assert_eq!(d.loc_id, "7");
    assert_eq!(d.mode, "");
    assert_eq!(d.serial_no, "s");
    let d = parse_device_line("DevNo=3 SerialNo=s LocationID=7").unwrap();
    assert_eq!(d.loc_id, "7");
    assert_eq!(d.serial_no, "");
}

#[test]
fn key_text_inside_another_pair_is_found() {
    let d = parse_device_line("DevNo=2 Note=xMode=bad Mode=Loader").unwrap();
    assert_eq!(d.mode, "bad");
    assert_eq!(d.loc_id, "");
}

#[test]
fn parses_whole_listing_in_order() {
    let out = "List of rockusb connected(2)\r\nDevNo=1\tLocationID=11\tMode=Loader\tSerialNo=x\r\nDevNo=2\tLocationID=12\tMode=Maskrom\tSerialNo=y\n";
    let ds = parse_device_list(out);
    assert_eq!(ds.len(), 2);
    assert_eq!(ds[0].loc_id, "11");
    assert_eq!(ds[1].loc_id, "12");
    assert_eq!(ds[1].mode, "Maskrom");
    assert!(parse_device_list("").is_empty());
    assert!(parse_device_list("no devices found\n").is_empty());
}

#[test]
fn reconciliation_drops_adds_and_keeps() {
    let prev = vec![record("5", false, "SUCCESS"), record("6", true, "Writing boot")];
    let out = "DevNo=1 LocationID=5 Mode=Loader SerialNo=a\nDevNo=2 LocationID=9 Mode=Loader SerialNo=b\n";
    let r = refresh_devices(&prev, out);
    assert_eq!(r.len(), 2);
    assert_eq!(r[0].loc_id, "5");
    assert!(!r[0].checked);
    assert_eq!(r[0].progress, "SUCCESS");
    assert_eq!(r[0].serial_no, "a");
    assert_eq!(r[1].loc_id, "9");
    assert!(r[1].checked);
    assert_eq!(r[1].progress, "ready");
    assert!(r.iter().all(|d| d.loc_id != "6"));
}

#[test]
fn reconciliation_follows_location_not_position() {
    let prev = vec![record("5", false, "flashed"), record("6", true, "writing")];
    let fresh = vec![record("6", true, "ready"), record("5", true, "ready")];
    let r = reconcile(&prev, fresh);
    assert_eq!(r[0].loc_id, "6");
    assert_eq!(r[0].progress, "writing");
    assert_eq!(r[1].loc_id, "5");
    assert!(!r[1].checked);
    assert_eq!(r[1].progress, "flashed");
}

#[test]
fn failed_poll_keeps_previous_snapshot() {
    let mut s = FlashSession::new();
    assert_eq!(s.poll_devices(Ok("DevNo=1 LocationID=3 Mode=Loader SerialNo=z\n")), Ok(()));
    assert_eq!(s.devices.len(), 1);
    s.devices[0].checked = false;
    assert_eq!(s.poll_devices(Err(EnumerationError::Failed)), Err(EnumerationError::Failed));
    assert_eq!(s.poll_devices(Err(EnumerationError::NotStarted)), Err(EnumerationError::NotStarted));
    assert_eq!(s.devices.len(), 1);
    assert!(!s.devices[0].checked);
    assert_eq!(s.supported_board.len(), 2);
    s.poll_devices(Ok("DevNo=1 LocationID=3 Mode=Loader SerialNo=z\n")).unwrap();
    assert!(!s.devices[0].checked);
    s.poll_devices(Ok("")).unwrap();
    assert!(s.devices.is_empty());
}
