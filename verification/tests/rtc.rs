use memory_initialization::rtc::{
    bcd_decode, get_update_in_progress, handle_rtc_interrupt, read_rtc, RtcTicks,
};

#[test]
fn bcd_decoding_exact_values() {
    assert_eq!(bcd_decode(0x00), 0);
    assert_eq!(bcd_decode(0x09), 9);
    assert_eq!(bcd_decode(0x10), 10);
    assert_eq!(bcd_decode(0x23), 23);
    assert_eq!(bcd_decode(0x59), 59);
    assert_eq!(bcd_decode(0x99), 99);
}

#[test]
fn update_in_progress_flag() {
    assert!(get_update_in_progress(1));
    assert!(!get_update_in_progress(0));
    assert!(!get_update_in_progress(2));
}

#[test]
fn rtc_snapshot_decodes_every_register() {
    let t = read_rtc(0x45, 0x30, 0x17, 0x28, 0x02, 0x24);
    assert_eq!(t.seconds, 45);
    assert_eq!(t.minutes, 30);
    assert_eq!(t.hours, 17);
    assert_eq!(t.days, 28);
    assert_eq!(t.months, 2);
    assert_eq!(t.years, 24);
}

#[test]
fn tick_counting_and_heartbeat() {
    let mut ticks = RtcTicks { count: 0 };
    let hb = handle_rtc_interrupt(&mut ticks);
    assert_eq!(ticks.count, 1);
    assert!(!hb);

    let mut ticks = RtcTicks { count: 127 };
    let hb = handle_rtc_interrupt(&mut ticks);
    assert_eq!(ticks.count, 128);
    assert!(hb);
}

#[test]
fn heartbeat_fires_once_per_period() {
    let mut ticks = RtcTicks { count: 0 };
    let mut beats = 0;
    for _ in 0..256 {
        if handle_rtc_interrupt(&mut ticks) {
            beats += 1;
        }
    }
    assert_eq!(beats, 2);
    assert_eq!(ticks.count, 256);
}

#[test]
fn tick_counter_wraps() {
    let mut ticks = RtcTicks { count: u64::MAX };
    let hb = handle_rtc_interrupt(&mut ticks);
    assert_eq!(ticks.count, 0);
    assert!(hb);
}
