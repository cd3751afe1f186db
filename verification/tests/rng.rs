use kernel_core::rand::{
    bool_from, int_from, quarter_round, rotate_left32, rotate_left64, seed_fast, seed_quality,
    uint_from, ChaCha20Rng, Pcg32Rng, Rng, Xoshiro256,
};

fn take<R: Rng>(rng: &mut R, count: usize) -> Vec<u32> {
    (0..count).map(|_| rng.generate()).collect()
}

#[test]
fn pcg32_sequences() {
    assert_eq!(
        take(&mut Pcg32Rng::new_seed(0), 4),
        vec![4164751464, 3469696627, 1581262666, 1615719374]
    );
    assert_eq!(
        take(&mut Pcg32Rng::new_seed(42), 4),
        vec![2981987046, 2028522876, 4210636164, 3236645575]
    );
    assert_eq!(
        take(&mut Pcg32Rng::new_seed(0xdeadbeefcafebabe), 4),
        vec![3812782289, 741638356, 1784332722, 1177943306]
    );
}

#[test]
fn pcg32_reseeded_starts_over() {
    let mut rng = Pcg32Rng::new_seed(7);
    let _ = take(&mut rng, 5);
    rng.seed(42);
    assert_eq!(take(&mut rng, 2), vec![2981987046, 2028522876]);
}

#[test]
fn xoshiro_sequences() {
    assert_eq!(
        take(&mut Xoshiro256::new_seed(0), 4),
        vec![2582404918, 3211665272, 442467485, 1789236465]
    );
    assert_eq!(
        take(&mut Xoshiro256::new_seed(42), 4),
        vec![360188718, 1627707782, 2920764210, 3971525959]
    );
    assert_eq!(
        take(&mut Xoshiro256::new_seed(0xdeadbeefcafebabe), 4),
        vec![580498242, 2599834884, 3657800885, 3481713961]
    );
    let mut rng = Xoshiro256::new_seed(1);
    rng.seed(42);
    assert_eq!(take(&mut rng, 1), vec![360188718]);
}

#[test]
fn chacha_sequences_run_across_blocks() {
    let all = take(&mut ChaCha20Rng::new_seed(0), 18);
    assert_eq!(&all[..3], &[246830316, 1512958124, 2960399663]);
    assert_eq!(&all[15..], &[3614072763, 3313720515, 2304859135]);
    let all = take(&mut ChaCha20Rng::new_seed(42), 18);
    assert_eq!(&all[..3], &[2518847931, 949956812, 3027364857]);
    assert_eq!(&all[15..], &[2695411273, 1450111695, 3722388904]);
    let all = take(&mut ChaCha20Rng::new_seed(0xdeadbeefcafebabe), 18);
    assert_eq!(&all[..3], &[1490000690, 193186742, 2562298653]);
    assert_eq!(&all[15..], &[3166599396, 2190407785, 1345955913]);
}

#[test]
fn chacha_nonce_picks_the_stream() {
    let mut rng = ChaCha20Rng::new_seed_nonce(42, 0x1122334455667788);
    assert_eq!(take(&mut rng, 3), vec![43867615, 2230670552, 4161753102]);
    let mut same = ChaCha20Rng::new_seed_nonce(42, 0);
    assert_eq!(take(&mut same, 3), take(&mut ChaCha20Rng::new_seed(42), 3));
    rng.seed(42, 0);
    assert_eq!(take(&mut rng, 1), vec![2518847931]);
}

#[test]
fn quarter_round_of_the_cipher() {
    let mut x = [0u32; 16];
    x[0] = 0x11111111;
    x[1] = 0x01020304;
    x[2] = 0x9b8d6f43;
    x[3] = 0x01234567;
    quarter_round(&mut x, 0, 1, 2, 3);
    assert_eq!(&x[..4], &[0xea2a92f4, 0xcb1cf8ce, 0x4581472e, 0x5881c4bb]);
    assert!(x[4..].iter().all(|word| *word == 0));
}

#[test]
fn rotations() {
    assert_eq!(rotate_left64(0x8000_0000_0000_0001, 1), 3);
    assert_eq!(rotate_left64(1, 63), 0x8000_0000_0000_0000);
    assert_eq!(rotate_left64(0x0123_4567_89ab_cdef, 45), 0x0123_4567_89ab_cdefu64.rotate_left(45));
    assert_eq!(rotate_left32(0x8000_0001, 1), 3);
    assert_eq!(rotate_left32(0x1234_5678, 16), 0x5678_1234);
}

#[test]
fn samples_fall_into_their_range() {
    assert_eq!(uint_from(0, 10, 20), 10);
    assert_eq!(uint_from(10, 10, 20), 20);
    assert_eq!(uint_from(11, 10, 20), 10);
    assert_eq!(uint_from(12345, 7, 7), 7);
    assert_eq!(uint_from(0xdead_beef, 0, u32::MAX), 0xdead_beef);
    assert_eq!(uint_from(u32::MAX, 1, u32::MAX), 1);
    assert_eq!(int_from(0, -5, 5), -5);
    assert_eq!(int_from(10, -5, 5), 5);
    assert_eq!(int_from(11, -5, 5), -5);
    assert_eq!(int_from(0xffff_ffff, i32::MIN, i32::MAX), -1);
    assert_eq!(int_from(0x7fff_ffff, i32::MIN, i32::MAX), i32::MAX);
    assert_eq!(int_from(0x8000_0000, i32::MIN, i32::MAX), i32::MIN);
    assert_eq!(int_from(3, i32::MIN, i32::MAX - 1), i32::MIN + 3);
    assert!(bool_from(1));
    assert!(!bool_from(2));
    assert!(bool_from(u32::MAX));
}

#[test]
fn generators_draw_ranges_from_their_samples() {
    let mut a = Pcg32Rng::new_seed(42);
    let mut b = Pcg32Rng::new_seed(42);
    assert_eq!(a.uint(100, 199), 100 + b.generate() % 100);
    assert_eq!(a.int32(-50, 49) as i64, -50 + (b.generate() % 100) as i64);
    assert_eq!(a.bool(), b.generate() & 1 == 1);
    let mut x = Xoshiro256::new_seed(9);
    for _ in 0..100 {
        let drawn = x.uint(3, 9);
        assert!((3..=9).contains(&drawn));
    }
}

#[test]
fn seeds_mix_what_the_machine_offers() {
    assert_eq!(seed_quality(0, 0, 0), 0);
    assert_eq!(seed_quality(1, 2, 4), seed_quality(7, 0, 0));
    assert_eq!(seed_quality(0x1234, 0, 0), seed_quality(0, 0x1234, 0));
    let mut x = 0x9e37_79b9_7f4a_7c15u64;
    x = (x ^ (x >> 30)).wrapping_mul(0xbf58476d1ce4e5b9);
    x = (x ^ (x >> 27)).wrapping_mul(0x94d049bb133111eb);
    assert_eq!(seed_quality(0x9e37_79b9_7f4a_7c15, 0, 0), x ^ (x >> 31));
    assert_eq!(seed_quality(0x9e37_79b9_7f4a_7c15, 0, 0), 0xe220a8397b1dcdaf);
    assert_eq!(seed_fast(1, 0), 0x9e37_79b9_7f4a_7c15);
    assert_eq!(seed_fast(3, 1), 0x9e37_79b9_7f4a_7c15u64.wrapping_mul(2));
    assert_eq!(seed_fast(5, 5), 0);
}
