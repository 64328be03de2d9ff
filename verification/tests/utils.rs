use std::time::{Duration, UNIX_EPOCH};

use tiktok_rs::utils::{
    date_now, format_radix, generate_verify_fp, get_random_int, millis_since_epoch, verify_fp_at,
    verify_fp_from,
};

const ALPHABET: &str = "0123456789ABCDEFGHIJKLMNOPQRSTUVWXYZabcdefghijklmnopqrstuvwxyz";

#[test]
fn radix_formats_number() {
    let a: u128 = 1675719784841;
    let result = format_radix(a, 36);
    assert_eq!(result, "ldtcal55");
}

#[test]
fn generate_verify_fp_token() {
    let fp = generate_verify_fp().expect("the clock stands after the epoch");
    assert!(fp.len() > 0)
}

#[test]
fn radix_formats_zero_as_one_digit() {
    assert_eq!(format_radix(0, 36), "0");
    assert_eq!(format_radix(0, 2), "0");
}

#[test]
fn radix_formats_single_digits() {
    assert_eq!(format_radix(9, 36), "9");
    assert_eq!(format_radix(10, 36), "a");
    assert_eq!(format_radix(35, 36), "z");
    assert_eq!(format_radix(36, 36), "10");
}

#[test]
fn radix_formats_other_bases() {
    assert_eq!(format_radix(5, 2), "101");
    assert_eq!(format_radix(255, 16), "ff");
    assert_eq!(format_radix(1675719784841, 10), "1675719784841");
}

#[test]
fn radix_formats_largest_number() {
    assert_eq!(format_radix(u128::MAX, 16), "f".repeat(32));
    assert_eq!(format_radix(u128::MAX, 36), "f5lxx1zz5pnorynqglhzmsp33");
}

#[test]
fn radix_digits_write_the_number() {
    let numbers: [u128; 5] = [1, 35, 36, 1295, 1675719784841];
    for x in numbers {
        let digits = format_radix(x, 36);
        assert_eq!(u128::from_str_radix(&digits, 36).unwrap(), x);
        assert!(!digits.starts_with('0'));
    }
}

#[test]
fn token_of_given_time_and_draws() {
    let draws: Vec<u8> = (0..31).collect();
    let token = verify_fp_from(1675719784841, &draws);
    assert_eq!(token, "verify_ldtcal55_01234567_89AB_4CDE_BGHI_JKLMNOPQRSTU");
}

#[test]
fn token_of_zero_draws() {
    let draws = vec![0u8; 31];
    let token = verify_fp_from(0, &draws);
    assert_eq!(token, "verify_0_00000000_0000_4000_8000_000000000000");
}

#[test]
fn token_of_largest_draws() {
    let draws = vec![61u8; 31];
    let token = verify_fp_from(35, &draws);
    assert_eq!(token, "verify_z_zzzzzzzz_zzzz_4zzz_9zzz_zzzzzzzzzzzz");
}

#[test]
fn token_place_nineteen_takes_one_of_four() {
    let expected = ['8', '9', 'A', 'B'];
    for i in 0..62u8 {
        let mut draws = vec![0u8; 31];
        draws[15] = i;
        let token = verify_fp_from(0, &draws);
        let body: Vec<char> = token.chars().skip("verify_0_".len()).collect();
        assert_eq!(body.len(), 36);
        assert_eq!(body[19], expected[usize::from(i & 3)]);
    }
}

#[test]
fn token_is_the_same_for_the_same_draws() {
    let draws: Vec<u8> = (0..31).map(|i| (i * 7) % 62).collect();
    assert_eq!(verify_fp_from(42, &draws), verify_fp_from(42, &draws));
}

#[test]
fn generated_token_has_the_shape_of_a_token() {
    for _ in 0..50 {
        let token = generate_verify_fp().expect("the clock stands after the epoch");
        let rest = token.strip_prefix("verify_").expect("prefix");
        let (stamp, body) = rest.split_once('_').expect("separator");
        assert!(!stamp.is_empty());
        assert!(stamp.chars().all(|c| c.is_ascii_digit() || c.is_ascii_lowercase()));
        let body: Vec<char> = body.chars().collect();
        assert_eq!(body.len(), 36);
        for (place, c) in body.iter().enumerate() {
            match place {
                8 | 13 | 18 | 23 => assert_eq!(*c, '_'),
                14 => assert_eq!(*c, '4'),
                19 => assert!(matches!(*c, '8' | '9' | 'A' | 'B')),
                _ => assert!(ALPHABET.contains(*c)),
            }
        }
    }
}

#[test]
fn generated_token_carries_the_time() {
    let before = date_now().expect("the clock stands after the epoch");
    let token = generate_verify_fp().expect("the clock stands after the epoch");
    let after = date_now().expect("the clock stands after the epoch");
    let stamp = token.strip_prefix("verify_").unwrap().split_once('_').unwrap().0;
    let millis = u128::from_str_radix(stamp, 36).unwrap();
    assert!(before <= millis && millis <= after);
}

#[test]
fn date_now_is_after_the_year_2020() {
    let millis = date_now().expect("the clock stands after the epoch");
    assert!(millis > 1_577_836_800_000);
}

#[test]
fn random_int_stays_in_its_range() {
    for _ in 0..1000 {
        let drawn = get_random_int(0, 62);
        assert!((0..62).contains(&drawn));
    }
    for _ in 0..100 {
        let drawn = get_random_int(-5, -3);
        assert!(drawn == -5 || drawn == -4);
    }
    assert_eq!(get_random_int(7, 8), 7);
}

#[test]
fn random_int_reaches_every_value() {
    let mut seen = [false; 4];
    for _ in 0..2000 {
        seen[get_random_int(0, 4) as usize] = true;
    }
    assert!(seen.iter().all(|s| *s));
}

#[test]
fn millis_are_the_whole_milliseconds_that_passed() {
    assert_eq!(millis_since_epoch(Ok(Duration::from_millis(1675719784841))), Some(1675719784841));
    assert_eq!(millis_since_epoch(Ok(Duration::from_micros(1999))), Some(1));
    assert_eq!(millis_since_epoch(Ok(Duration::ZERO)), Some(0));
    assert_eq!(
        millis_since_epoch(Ok(Duration::new(u64::MAX, 999_999_999))),
        Some(u128::from(u64::MAX) * 1000 + 999)
    );
}

#[test]
fn clock_before_the_epoch_gives_no_millis() {
    let later = UNIX_EPOCH + Duration::from_secs(1);
    let error = UNIX_EPOCH.duration_since(later).expect_err("the epoch is the earlier time");
    assert_eq!(millis_since_epoch(Err(error)), None);
}

#[test]
fn token_at_a_reading_carries_the_reading() {
    for _ in 0..20 {
        let token = verify_fp_at(Some(1675719784841)).expect("there is a reading");
        let body = token.strip_prefix("verify_ldtcal55_").expect("stamp");
        assert_eq!(body.chars().count(), 36);
        for (place, c) in body.chars().enumerate() {
            match place {
                8 | 13 | 18 | 23 => assert_eq!(c, '_'),
                14 => assert_eq!(c, '4'),
                19 => assert!(matches!(c, '8' | '9' | 'A' | 'B')),
                _ => assert!(ALPHABET.contains(c)),
            }
        }
    }
    assert!(verify_fp_at(Some(0)).expect("there is a reading").starts_with("verify_0_"));
    assert!(verify_fp_at(Some(u128::MAX)).expect("there is a reading").starts_with("verify_f5lxx1zz5pnorynqglhzmsp33_"));
}

#[test]
fn token_without_a_reading_is_none() {
    assert_eq!(verify_fp_at(None), None);
}

#[test]
fn tokens_differ_from_draw_to_draw() {
    let first = verify_fp_at(Some(1)).expect("there is a reading");
    let others: Vec<String> = (0..5).map(|_| verify_fp_at(Some(1)).expect("there is a reading")).collect();
    assert!(others.iter().any(|other| *other != first));
}
