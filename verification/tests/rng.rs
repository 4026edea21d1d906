use arbitrator::rng::{myrng, Lcg64XshRR32};
use rand_pcg::Pcg32;
use rand::RngCore;

#[test]
fn pcg32_reference_sequence() {
    // The reference generator seeded with 42 on stream 54.
    let mut generator = Lcg64XshRR32::new(42, (54 << 1) | 1);
    let expected = [0xa15c02b7u32, 0x7b47f409, 0xba1d3330, 0x83d2f293, 0xbfa4784b, 0xcbed606e];
    for value in expected {
        assert_eq!(generator.output(), value);
        generator.advance();
    }
}

#[test]
fn default_generator_state_and_output() {
    let generator = Lcg64XshRR32::default();
    assert_eq!(generator.inc, 0x14057b7ef767814f);
    assert_eq!(generator.state, 5573589319906701683);
    assert_eq!(generator.output(), 676697322);
}

#[test]
fn myrng_steps_the_default_generator() {
    assert_eq!(myrng(0), 5573589319906701683);
    assert_eq!(myrng(1), 1378541983250661254);
    assert_eq!(myrng(2), 458840393324832221);
    assert_eq!(myrng(-5), myrng(0));
}

#[test]
fn matches_rand_pcg() {
    let mut theirs = Pcg32::new(0xcafef00dd15ea5e5, 0xa02bdbf7bb3c0a7);
    let mut ours = Lcg64XshRR32::default();
    for _ in 0..100 {
        assert_eq!(ours.output(), theirs.next_u32());
        ours.advance();
    }
}
