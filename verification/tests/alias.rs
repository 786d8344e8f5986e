use quasar_rs::utils::{alias_letter, generate_alias, letterCount, letterIdxMask, letterIdxMax};

#[test]
fn a_draw_picks_the_letter_at_its_masked_bits() {
    assert_eq!(alias_letter(0), Some(b'a'));
    assert_eq!(alias_letter(32), Some(b'G'));
    assert_eq!(alias_letter(31), Some(b'a'));
    assert_eq!(alias_letter(33), Some(b'G'));
    assert_eq!(alias_letter(64), Some(b'a'));
    assert_eq!(alias_letter(u32::MAX), Some(b'G'));
    assert_eq!(alias_letter(u32::MAX - 32), Some(b'a'));
}

#[test]
fn an_alias_has_one_letter_for_each_draw() {
    assert_eq!(generate_alias(&Vec::new()), Vec::<u8>::new());
    assert_eq!(generate_alias(&vec![0]), b"a".to_vec());
    assert_eq!(generate_alias(&vec![0, 32, 33, 1, 96, 7]), b"aGGaGa".to_vec());
    let draws: Vec<u32> = (0..200).map(|i| i * 2654435761u32).collect();
    let alias = generate_alias(&draws);
    assert_eq!(alias.len(), 200);
    for (letter, draw) in alias.iter().zip(draws) {
        assert_eq!(Some(*letter), alias_letter(draw));
    }
    assert!(String::from_utf8(alias).is_ok());
}

#[test]
fn alias_constants() {
    assert_eq!(letterCount, 52);
    assert_eq!(letterIdxMask, 32);
    assert_eq!(letterIdxMax, 10);
}
