use radicex::dice::produce_die;
use radicex::dice::resolve_round;
use radicex::dice::scan_die;
use radicex::dice::two_dice_from;
use radicex::dice::DieStrategy;

/// A random word that yields the given die value on its very first 3-bit
/// group: value 1 needs a zero group inside a nonzero word.
fn draw_for(die: i8) -> u128 {
    if die == 1 {
        0x8
    } else {
        (die - 1) as u128
    }
}

#[test]
fn scan_accepts_first_small_group() {
    for die in 1..=6 {
        assert_eq!(scan_die(draw_for(die)), Some(die));
    }
}

#[test]
fn scan_rejects_six_and_seven() {
    // one group of value 6, then nothing left
    assert_eq!(scan_die(0x6), None);
    // groups 6 then 7, both discarded
    assert_eq!(scan_die(0x76), None);
    // groups 6, 7, then 2: the first valid group wins
    assert_eq!(scan_die(0x376), Some(4));
}

#[test]
fn scan_steps_by_nibble() {
    // low nibble 0xF: group 7 discarded; next nibble 0x2: die 3
    assert_eq!(scan_die(0x2F), Some(3));
}

#[test]
fn zero_word_yields_nothing() {
    assert_eq!(scan_die(0), None);
}

#[test]
fn rejection_strategy_skips_exhausted_words() {
    assert_eq!(produce_die(DieStrategy::Rejection, &vec![0x76, 2]), Some(3));
    assert_eq!(produce_die(DieStrategy::Rejection, &vec![0x76]), None);
    assert_eq!(produce_die(DieStrategy::Rejection, &vec![]), None);
}

#[test]
fn modulo_strategy_reduces_first_word() {
    assert_eq!(produce_die(DieStrategy::Modulo, &vec![7]), Some(2));
    assert_eq!(produce_die(DieStrategy::Modulo, &vec![600]), Some(1));
    assert_eq!(produce_die(DieStrategy::Modulo, &vec![]), None);
}

#[test]
fn two_dice_come_from_distinct_words() {
    assert_eq!(two_dice_from(&vec![draw_for(3), draw_for(5)]), Some((3, 5)));
    // a rejected word in between is passed over
    assert_eq!(two_dice_from(&vec![draw_for(6), 0x76, draw_for(2)]), Some((6, 2)));
    // only one die available
    assert_eq!(two_dice_from(&vec![draw_for(4)]), None);
}

#[test]
fn tie_resolves_to_value_minus_four() {
    // house 3, player 3: delta = 3 - 4 = -1
    let (level, desc) = resolve_round(10, 3, 3);
    assert_eq!(level, 9);
    assert_eq!(desc, "House 3, Player 3, New Lvl 9(-1)");
    // a tie on 4 yields a delta of exactly zero
    let (level, desc) = resolve_round(10, 4, 4);
    assert_eq!(level, 10);
    assert_eq!(desc, "House 4, Player 4, New Lvl 10(+0)");
}

#[test]
fn plain_difference_when_no_tie() {
    // house 6, player 2: delta = 2 - 6 = -4
    let (level, desc) = resolve_round(10, 6, 2);
    assert_eq!(level, 6);
    assert_eq!(desc, "House 6, Player 2, New Lvl 6(-4)");
    let (level, desc) = resolve_round(10, 3, 5);
    assert_eq!(level, 12);
    assert_eq!(desc, "House 3, Player 5, New Lvl 12(+2)");
}

#[test]
fn new_level_is_clamped_to_band() {
    let (level, _) = resolve_round(2, 6, 1);
    assert_eq!(level, 0);
    let (level, _) = resolve_round(24, 1, 6);
    assert_eq!(level, 25);
}

fn splitmix64(state: &mut u64) -> u64 {
    *state = state.wrapping_add(0x9E3779B97F4A7C15);
    let mut z = *state;
    z = (z ^ (z >> 30)).wrapping_mul(0xBF58476D1CE4E5B9);
    z = (z ^ (z >> 27)).wrapping_mul(0x94D049BB133111EB);
    z ^ (z >> 31)
}

fn wide_word(state: &mut u64) -> u128 {
    ((splitmix64(state) as u128) << 64) | splitmix64(state) as u128
}

#[test]
fn rejection_sampling_is_uniform() {
    let samples: u64 = 120_000;
    let mut state: u64 = 0x5EED;
    let mut counts = [0u64; 7];
    let mut drawn: u64 = 0;
    while drawn < samples {
        let draws = vec![wide_word(&mut state)];
        if let Some(d) = produce_die(DieStrategy::Rejection, &draws) {
            assert!((1..=6).contains(&d));
            counts[d as usize] += 1;
            drawn += 1;
        }
    }
    // chi-square over 5 degrees of freedom; 20.5 is past the 0.999 quantile
    let expected = samples as f64 / 6.0;
    let mut chi2 = 0.0f64;
    for face in 1..=6 {
        let dev = counts[face] as f64 - expected;
        chi2 += dev * dev / expected;
    }
    assert!(chi2 < 20.5, "chi-square too large: {chi2}, counts {counts:?}");
}
