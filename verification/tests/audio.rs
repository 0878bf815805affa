use voice_dictation::audio::{
    first_channel, LinearResampler, Tap, OUT_BITS_PER_SAMPLE, OUT_CHANNELS, OUT_SAMPLE_RATE,
};

fn interpolate(t: Tap<f32>) -> f32 {
    t.s0 + (t.s1 - t.s0) * (t.frac_num as f32 / t.frac_den as f32)
}

#[test]
fn resamples_by_integer_ratio_without_interpolation_error() {
    // 48k -> 16k is an exact 3:1 ratio.
    let mut r = LinearResampler::new(48_000, 16_000);
    let input: Vec<f32> = (0..480).map(|i| i as f32).collect();
    r.push(&input);

    let mut out = Vec::new();
    while let Some(t) = r.next() {
        out.push(interpolate(t));
        if out.len() > 1_000 {
            panic!("unexpectedly large output");
        }
    }

    assert!(out.len() >= 100);
    for (i, v) in out.iter().take(100).enumerate() {
        assert_eq!(*v, (i * 3) as f32);
    }
}

#[test]
fn integer_ratio_gives_every_third_sample_and_no_more() {
    let mut r = LinearResampler::new(48_000, 16_000);
    let input: Vec<i64> = (0..480).collect();
    r.push(&input);
    let mut out = Vec::new();
    while let Some(t) = r.next() {
        assert_eq!(t.frac_num, 0);
        assert_eq!(t.frac_den, 16_000);
        assert_eq!(t.s1, t.s0 + 1);
        out.push(t.s0);
    }
    // output k reads input 3k and 3k + 1, so k runs up to 159
    assert_eq!(out.len(), 160);
    assert!(out.len() <= 480 / 3 + 1);
    for (k, v) in out.iter().enumerate() {
        assert_eq!(*v, 3 * k as i64);
    }
}

#[test]
fn chunked_input_does_not_drift() {
    let mut r = LinearResampler::new(48_000, 16_000);
    let mut out = Vec::new();
    let mut next_in: i64 = 0;
    // chunk sizes that leave fewer samples in store than one step skips
    for size in [2usize, 256, 1, 257, 5, 2, 2, 2, 100] {
        let chunk: Vec<i64> = (next_in..next_in + size as i64).collect();
        next_in += size as i64;
        r.push(&chunk);
        while let Some(t) = r.next() {
            out.push(t.s0);
        }
    }
    let total = next_in as usize;
    assert_eq!(total, 627);
    // the last output k has 3k + 1 < 627
    assert_eq!(out.len(), 209);
    assert!(out.len() <= total / 3 + 1);
    for (k, v) in out.iter().enumerate() {
        assert_eq!(*v, 3 * k as i64);
    }
}

#[test]
fn fractional_ratio_gives_exact_positions() {
    let mut r = LinearResampler::new(44_100, 16_000);
    let input: Vec<u32> = (0..12).collect();
    r.push(&input);
    // position k * 44100 / 16000: 0, 2.75625, 5.5125, 8.26875, 11.025 (out of reach)
    assert_eq!(r.next(), Some(Tap { s0: 0, s1: 1, frac_num: 0, frac_den: 16_000 }));
    assert_eq!(r.next(), Some(Tap { s0: 2, s1: 3, frac_num: 12_100, frac_den: 16_000 }));
    assert_eq!(r.next(), Some(Tap { s0: 5, s1: 6, frac_num: 8_200, frac_den: 16_000 }));
    assert_eq!(r.next(), Some(Tap { s0: 8, s1: 9, frac_num: 4_300, frac_den: 16_000 }));
    assert_eq!(r.next(), None);
    r.push(&[12]);
    assert_eq!(r.next(), Some(Tap { s0: 11, s1: 12, frac_num: 400, frac_den: 16_000 }));
    assert_eq!(r.next(), None);
}

#[test]
fn fractional_ratio_interpolates_between_neighbours() {
    let mut r = LinearResampler::new(24_000, 16_000);
    r.push(&[0.0f32, 1.0, 2.0, 3.0, 4.0]);
    let mut out = Vec::new();
    while let Some(t) = r.next() {
        out.push(interpolate(t));
    }
    assert_eq!(out, vec![0.0, 1.5, 3.0]);
}

#[test]
fn upsampling_reads_each_sample_twice() {
    let mut r = LinearResampler::new(8_000, 16_000);
    r.push(&[10i32, 20, 30]);
    assert_eq!(r.next(), Some(Tap { s0: 10, s1: 20, frac_num: 0, frac_den: 16_000 }));
    assert_eq!(r.next(), Some(Tap { s0: 10, s1: 20, frac_num: 8_000, frac_den: 16_000 }));
    assert_eq!(r.next(), Some(Tap { s0: 20, s1: 30, frac_num: 0, frac_den: 16_000 }));
    assert_eq!(r.next(), Some(Tap { s0: 20, s1: 30, frac_num: 8_000, frac_den: 16_000 }));
    assert_eq!(r.next(), None);
}

#[test]
fn fewer_than_two_samples_give_no_output() {
    let mut r: LinearResampler<i16> = LinearResampler::new(48_000, 16_000);
    assert_eq!(r.next(), None);
    r.push(&[]);
    assert_eq!(r.next(), None);
    r.push(&[7]);
    assert_eq!(r.next(), None);
    assert_eq!(r.next(), None);
    r.push(&[8]);
    assert_eq!(r.next(), Some(Tap { s0: 7, s1: 8, frac_num: 0, frac_den: 16_000 }));
    assert_eq!(r.next(), None);
}

#[test]
fn output_never_exceeds_the_bound() {
    for (in_rate, out_rate) in [(48_000u32, 16_000u32), (44_100, 16_000), (8_000, 16_000), (16_000, 16_000), (1, 3), (7, 2)] {
        let mut r = LinearResampler::new(in_rate, out_rate);
        let mut pushed: u64 = 0;
        let mut produced: u64 = 0;
        for size in [0usize, 1, 2, 3, 50, 7, 1, 1, 200] {
            let chunk: Vec<u8> = vec![0; size];
            r.push(&chunk);
            pushed += size as u64;
            let mut guard = 0;
            while r.next().is_some() {
                produced += 1;
                guard += 1;
                assert!(guard < 10_000);
            }
            assert!(produced <= pushed * out_rate as u64 / in_rate as u64 + 1);
        }
    }
}

#[test]
fn first_channel_takes_the_first_sample_of_each_frame() {
    assert_eq!(first_channel(&[1i16, 2, 3, 4, 5, 6], 2), Some(vec![1, 3, 5]));
    assert_eq!(first_channel(&[1i16, 2, 3, 4, 5], 2), Some(vec![1, 3]));
    assert_eq!(first_channel(&[1u16, 2, 3], 1), Some(vec![1, 2, 3]));
    assert_eq!(first_channel(&[1.5f32, 2.5, 3.5, 4.5], 3), Some(vec![1.5]));
    assert_eq!(first_channel(&[1i16, 2], 3), Some(vec![]));
    assert_eq!(first_channel::<i16>(&[], 2), Some(vec![]));
}

#[test]
fn first_channel_of_no_channels_is_nothing() {
    assert_eq!(first_channel(&[1i16, 2, 3], 0), None);
    assert_eq!(first_channel::<f32>(&[], 0), None);
}

#[test]
fn written_audio_is_mono_16_khz_16_bit() {
    assert_eq!(OUT_SAMPLE_RATE, 16_000);
    assert_eq!(OUT_CHANNELS, 1);
    assert_eq!(OUT_BITS_PER_SAMPLE, 16);
}

#[test]
fn drain_gives_all_that_the_input_reaches() {
    let mut r = LinearResampler::new(48_000, 16_000);
    assert_eq!(r.drain(), Vec::<Tap<i32>>::new());
    r.push(&[0, 1, 2, 3, 4, 5, 6]);
    assert_eq!(
        r.drain(),
        vec![
            Tap { s0: 0, s1: 1, frac_num: 0, frac_den: 16_000 },
            Tap { s0: 3, s1: 4, frac_num: 0, frac_den: 16_000 },
        ]
    );
    assert_eq!(r.drain(), vec![]);
    assert_eq!(r.next(), None);
    r.push(&[7]);
    assert_eq!(r.drain(), vec![Tap { s0: 6, s1: 7, frac_num: 0, frac_den: 16_000 }]);
}

#[test]
fn drain_and_next_agree() {
    let input: Vec<u16> = (0..1000).collect();
    let mut a = LinearResampler::new(44_100, 16_000);
    let mut b = LinearResampler::new(44_100, 16_000);
    let mut from_next = Vec::new();
    let mut from_drain = Vec::new();
    for chunk in input.chunks(37) {
        a.push(chunk);
        while let Some(t) = a.next() {
            from_next.push(t);
        }
        b.push(chunk);
        from_drain.extend(b.drain());
    }
    assert_eq!(from_next, from_drain);
    // the last output k has k * 44100 / 16000 + 1 < 1000
    assert_eq!(from_next.len(), 363);
    assert!(from_next.len() <= 1000 * 16_000 / 44_100 + 1);
    for (k, t) in from_next.iter().enumerate() {
        let at = k * 44_100;
        assert_eq!(t.s0 as usize, at / 16_000);
        assert_eq!(t.s1 as usize, at / 16_000 + 1);
        assert_eq!(t.frac_num as usize, at % 16_000);
    }
}
