use tarkov_time::tarkov_time::{calculate_tarkov_time, hrs, real_time_to_tarkov_time};

#[test]
fn epoch_readouts() {
    let t = calculate_tarkov_time(0);
    assert_eq!(t.left_time, "03:00:00");
    assert_eq!(t.right_time, "15:00:00");
}

#[test]
fn one_second_in() {
    let t = calculate_tarkov_time(1);
    assert_eq!(t.left_time, "03:00:07");
    assert_eq!(t.right_time, "15:00:07");
}

#[test]
fn readouts_wrap_past_midnight() {
    let t = calculate_tarkov_time(11000);
    assert_eq!(t.left_time, "00:23:20");
    assert_eq!(t.right_time, "12:23:20");
}

#[test]
fn readouts_are_deterministic() {
    let a = calculate_tarkov_time(987654321);
    let b = calculate_tarkov_time(987654321);
    assert_eq!(a.left_time, b.left_time);
    assert_eq!(a.right_time, b.right_time);
}

#[test]
fn readouts_always_well_formed() {
    let samples: [u64; 6] = [0, 1, 59, 11000, 86400, 1700000000];
    for &t in samples.iter() {
        let r = calculate_tarkov_time(t);
        for s in [&r.left_time, &r.right_time] {
            let b = s.as_bytes();
            assert_eq!(b.len(), 8);
            assert_eq!(b[2], b':');
            assert_eq!(b[5], b':');
            for &i in [0usize, 1, 3, 4, 6, 7].iter() {
                assert!(b[i].is_ascii_digit());
            }
            let hh = (b[0] - b'0') * 10 + (b[1] - b'0');
            let mm = (b[3] - b'0') * 10 + (b[4] - b'0');
            let ss = (b[6] - b'0') * 10 + (b[7] - b'0');
            assert!(hh < 24);
            assert!(mm < 60);
            assert!(ss < 60);
        }
    }
}

#[test]
fn sides_twelve_hours_apart() {
    let samples: [u64; 5] = [0, 1, 11000, 86399, 1700000000];
    for &t in samples.iter() {
        let left = real_time_to_tarkov_time(t, true);
        let right = real_time_to_tarkov_time(t, false);
        assert_eq!(right, (left + hrs(12)) % hrs(24));
    }
}

#[test]
fn hour_conversion() {
    assert_eq!(hrs(3), 10800);
    assert_eq!(hrs(12), 43200);
    assert_eq!(hrs(24), 86400);
}

#[test]
fn mapping_speeds_up_sevenfold() {
    assert_eq!(real_time_to_tarkov_time(0, true), 10800);
    assert_eq!(real_time_to_tarkov_time(100, true), 10800 + 700);
    assert_eq!(real_time_to_tarkov_time(12345, true), (10800 + 7 * 12345) % 86400);
    assert_eq!(real_time_to_tarkov_time(12345, false), (43200 + 10800 + 7 * 12345) % 86400);
}
