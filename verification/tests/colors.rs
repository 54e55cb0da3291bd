use nphysics_testbed3d::colors::ColorStream;
use nphysics_testbed3d::math::Color;
use rand::RngCore;
use rand::SeedableRng;
use rand_xorshift::XorShiftRng;

fn reference() -> XorShiftRng {
    let mut seed = [0u8; 16];
    seed[4] = 2;
    seed[8] = 4;
    seed[12] = 8;
    XorShiftRng::from_seed(seed)
}

fn xorshift(state: &mut [u32; 4]) -> u32 {
    let x = state[0];
    let t = x ^ (x << 11);
    let w = state[3];
    let word = w ^ (w >> 19) ^ (t ^ (t >> 8));
    *state = [state[1], state[2], state[3], word];
    word
}

#[test]
fn first_words_of_the_stream() {
    let mut stream = ColorStream::new(0, 2, 4, 8);
    assert_eq!(stream.next_u32(), 8);
    assert_eq!(stream, ColorStream::new(2, 4, 8, 8));
    assert_eq!(stream.next_u32(), 4122);
    assert_eq!(stream, ColorStream::new(4, 8, 8, 4122));
}

#[test]
fn stream_follows_the_generator() {
    let mut stream = ColorStream::new(0, 2, 4, 8);
    let mut rng = reference();
    let mut state = [0u32, 2, 4, 8];
    for _ in 0..1000 {
        let word = stream.next_u32();
        assert_eq!(word, rng.next_u32());
        assert_eq!(word, xorshift(&mut state));
    }
}

#[test]
fn step_does_not_hand_its_argument_back() {
    let mut stream = ColorStream::new(1, 2, 3, 4);
    let word = stream.next_u32();
    assert_eq!(word, 2061);
    assert_eq!(stream, ColorStream::new(2, 3, 4, 2061));
}

#[test]
fn color_takes_the_upper_half_of_three_words() {
    let mut stream = ColorStream::new(0xdead_beef, 0x1234_5678, 0x9abc_def0, 0x0f1e_2d3c);
    let mut words = stream;
    let r = words.next_u32();
    let g = words.next_u32();
    let b = words.next_u32();
    let color = stream.next_color();
    assert_eq!(color, Color::new((r >> 16) as i32, (g >> 16) as i32, (b >> 16) as i32));
    assert_eq!(stream, words);
    assert!(0 <= color.r && color.r < 65536);
    assert!(0 <= color.g && color.g < 65536);
    assert!(0 <= color.b && color.b < 65536);
}

#[test]
fn skip_drops_whole_colors() {
    let mut skipped = ColorStream::new(0, 2, 4, 8);
    skipped.skip(100);
    let mut stepped = ColorStream::new(0, 2, 4, 8);
    for _ in 0..300 {
        stepped.next_u32();
    }
    assert_eq!(skipped, stepped);
    let mut none = ColorStream::new(0, 2, 4, 8);
    none.skip(0);
    assert_eq!(none, ColorStream::new(0, 2, 4, 8));
}

#[test]
fn same_state_gives_same_colors() {
    let mut a = ColorStream::new(0, 2, 4, 8);
    let mut b = ColorStream::new(0, 2, 4, 8);
    for _ in 0..50 {
        assert_eq!(a.next_color(), b.next_color());
    }
}

#[test]
fn color_matches_unit_interval_sample() {
    let mut stream = ColorStream::new(0, 2, 4, 8);
    stream.skip(100);
    let mut rng = reference();
    for _ in 0..300 {
        rng.next_u32();
    }
    let color = stream.next_color();
    let r = (rng.next_u32() >> 8) as f32 / 16777216.0;
    let g = (rng.next_u32() >> 8) as f32 / 16777216.0;
    let b = (rng.next_u32() >> 8) as f32 / 16777216.0;
    assert!((color.r as f32 / 65536.0 - r).abs() < 1.0 / 65536.0);
    assert!((color.g as f32 / 65536.0 - g).abs() < 1.0 / 65536.0);
    assert!((color.b as f32 / 65536.0 - b).abs() < 1.0 / 65536.0);
}
