use vorticity::spectrum::{fftfreq, Mode};

fn twice(slot: Option<Mode>) -> i64 {
    match slot {
        Some(m) => 2 * m.whole as i64 - m.halves as i64,
        None => 0,
    }
}

#[test]
fn fftfreq_of_an_empty_axis() {
    assert_eq!(fftfreq(0), Vec::<Option<Mode>>::new());
}

#[test]
fn fftfreq_of_one_sample_has_no_mode() {
    assert_eq!(fftfreq(1), vec![None]);
}

#[test]
fn fftfreq_of_an_even_axis() {
    let modes = fftfreq(8);
    assert_eq!(
        modes,
        vec![
            Some(Mode { whole: 0, halves: 0 }),
            Some(Mode { whole: 1, halves: 0 }),
            Some(Mode { whole: 2, halves: 0 }),
            Some(Mode { whole: 3, halves: 0 }),
            Some(Mode { whole: 0, halves: 8 }),
            Some(Mode { whole: 1, halves: 8 }),
            Some(Mode { whole: 2, halves: 8 }),
            Some(Mode { whole: 3, halves: 8 }),
        ]
    );
    let numbers: Vec<i64> = modes.into_iter().map(|m| twice(m) / 2).collect();
    assert_eq!(numbers, vec![0, 1, 2, 3, -4, -3, -2, -1]);
}

#[test]
fn fftfreq_of_an_odd_axis() {
    let modes = fftfreq(5);
    assert_eq!(
        modes,
        vec![
            Some(Mode { whole: 0, halves: 0 }),
            Some(Mode { whole: 1, halves: 0 }),
            Some(Mode { whole: 0, halves: 5 }),
            Some(Mode { whole: 1, halves: 5 }),
            None,
        ]
    );
    let doubled: Vec<i64> = modes.into_iter().map(twice).collect();
    assert_eq!(doubled, vec![0, 2, -5, -3, 0]);
}

#[test]
fn fftfreq_scales_to_angular_frequencies() {
    let period = 2.0f32 * std::f32::consts::PI;
    let step = 2.0 * std::f32::consts::PI / period;
    let freq: Vec<f32> = fftfreq(4)
        .into_iter()
        .map(|slot| match slot {
            Some(m) => (m.whole as f32 - m.halves as f32 / 2.0) * step,
            None => 0.0,
        })
        .collect();
    assert_eq!(freq, vec![0.0, 1.0, -2.0, -1.0]);
}

#[test]
fn fftfreq_has_one_slot_per_sample() {
    for n in [0usize, 1, 2, 3, 64, 101, 4096] {
        assert_eq!(fftfreq(n).len(), n);
    }
}
