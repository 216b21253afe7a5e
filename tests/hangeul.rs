use hangeul::{
    ends_with_jongseong, get_choseong, get_jongseong, get_jungseong, has_jongseong, is_choseong,
    is_jaeum, is_jamo, is_jongseong, is_syllable, HangeulError,
};

#[test]
fn decomposition() {
    let han = '한';
    let ha = '하';
    assert_eq!(get_choseong(han).unwrap(), 'ㅎ');
    assert_eq!(get_jungseong(han).unwrap(), 'ㅏ');
    assert_eq!(get_jongseong(han).unwrap(), 'ㄴ');
    assert_eq!(has_jongseong(han).unwrap(), true);
    assert_eq!(has_jongseong(ha).unwrap(), false);
    get_jongseong(ha).unwrap_err();
}

#[test]
fn check_jamo() {
    assert_eq!(is_jamo('ㄱ'), true);
    assert_eq!(is_jamo('ㅣ'), true);
    assert_eq!(is_jamo('a'), false);
    assert_eq!(is_jaeum('ㄱ'), true);
    assert_eq!(is_jaeum('ㅎ'), true);
    assert_eq!(is_jaeum('ㅏ'), false);
    assert_eq!(is_choseong('ㄱ'), true);
    assert_eq!(is_choseong('ㅎ'), true);
    assert_eq!(is_choseong('ㄸ'), true);
    assert_eq!(is_choseong('ㄳ'), false);
    assert_eq!(is_choseong('ㅉ'), true);
    assert_eq!(is_choseong('ㅃ'), true);
    assert_eq!(is_choseong('ㅄ'), false);
    assert_eq!(is_choseong('\u{3130}'), false);
    assert_eq!(is_choseong('\u{314F}'), false);
    assert_eq!(is_jongseong('ㄱ'), true);
    assert_eq!(is_jongseong('ㅎ'), true);
    assert_eq!(is_jongseong('ㄸ'), false);
    assert_eq!(is_jongseong('ㄳ'), true);
    assert_eq!(is_jongseong('ㅉ'), false);
    assert_eq!(is_jongseong('ㅃ'), false);
    assert_eq!(is_jongseong('ㅄ'), true);
    assert_eq!(is_jongseong('A'), false);
    assert_eq!(is_jongseong('\u{3130}'), false);
    assert_eq!(is_jongseong('\u{314F}'), false);
}

#[test]
fn no_jongseong_error_kind() {
    assert_eq!(get_jongseong('하'), Err(HangeulError::NoJongSeong));
}

#[test]
fn ends_with_jongseong_scenarios() {
    assert_eq!(ends_with_jongseong("피카츄"), Ok(false));
    assert_eq!(ends_with_jongseong("한"), Ok(true));
    assert_eq!(ends_with_jongseong("abc한"), Ok(true));
    assert_eq!(ends_with_jongseong(""), Err(HangeulError::NotSyllable));
    assert_eq!(ends_with_jongseong("한a"), Err(HangeulError::NotSyllable));
    assert_eq!(ends_with_jongseong("한ㄱ"), Err(HangeulError::NotSyllable));
}

#[test]
fn block_boundaries() {
    assert!(!is_syllable('\u{ABFF}'));
    assert!(is_syllable('\u{AC00}'));
    assert!(is_syllable('\u{D7A3}'));
    assert!(!is_syllable('\u{D7A4}'));
    assert_eq!(get_choseong('가'), Ok('ㄱ'));
    assert_eq!(get_jungseong('가'), Ok('ㅏ'));
    assert_eq!(has_jongseong('가'), Ok(false));
    assert_eq!(get_choseong('힣'), Ok('ㅎ'));
    assert_eq!(get_jungseong('힣'), Ok('ㅣ'));
    assert_eq!(get_jongseong('힣'), Ok('ㅎ'));
    assert_eq!(is_jamo('\u{3130}'), false);
    assert_eq!(is_jamo('\u{3164}'), false);
    assert_eq!(is_jaeum('\u{314E}'), true);
    assert_eq!(is_jaeum('\u{314F}'), false);
}

#[test]
fn non_syllables_refused() {
    for c in ['a', 'ㄱ', 'ㅏ', '\u{ABFF}', '\u{D7A4}', '\u{D7AF}', '\u{10FFFF}'] {
        assert_eq!(get_choseong(c), Err(HangeulError::NotSyllable));
        assert_eq!(get_jungseong(c), Err(HangeulError::NotSyllable));
        assert_eq!(get_jongseong(c), Err(HangeulError::NotSyllable));
        assert_eq!(has_jongseong(c), Err(HangeulError::NotSyllable));
        let s = c.to_string();
        assert_eq!(ends_with_jongseong(&s), Err(HangeulError::NotSyllable));
    }
}

#[test]
fn every_syllable_decomposes() {
    let mut with_tail = 0;
    for code in 0xAC00u32..=0xD7A3 {
        let c = char::from_u32(code).unwrap();
        let lead = get_choseong(c).unwrap();
        let medial = get_jungseong(c).unwrap();
        assert!(is_jaeum(lead) && is_choseong(lead));
        assert!(is_jamo(medial) && !is_jaeum(medial));
        let has = has_jongseong(c).unwrap();
        match get_jongseong(c) {
            Ok(tail) => {
                assert!(has);
                assert!(is_jaeum(tail) && is_jongseong(tail));
                with_tail += 1;
            }
            Err(e) => {
                assert!(!has);
                assert_eq!(e, HangeulError::NoJongSeong);
            }
        }
    }
    assert_eq!(with_tail, 19 * 21 * 27);
}

#[test]
fn capable_counts() {
    let jaeum: Vec<char> = (0x3131u32..=0x314E).map(|u| char::from_u32(u).unwrap()).collect();
    assert_eq!(jaeum.len(), 30);
    assert_eq!(jaeum.iter().filter(|c| is_choseong(**c)).count(), 19);
    assert_eq!(jaeum.iter().filter(|c| is_jongseong(**c)).count(), 27);
}

#[test]
fn compound_and_double_consonants() {
    assert!(!is_choseong('ㄳ'));
    assert!(is_jongseong('ㄳ'));
    assert!(is_choseong('ㄸ'));
    assert!(!is_jongseong('ㄸ'));
}

#[test]
fn error_descriptions() {
    assert_eq!(
        HangeulError::NotSyllable.description(),
        "HangeulError: Not correct Hangeul syllable"
    );
    assert_eq!(
        HangeulError::NoJongSeong.description(),
        "HangeulError: The syllable has no jongseong"
    );
}

#[test]
fn compound_jongseong_decomposes() {
    // 닭: ㄷ + ㅏ + ㄺ
    assert_eq!(get_choseong('닭'), Ok('ㄷ'));
    assert_eq!(get_jungseong('닭'), Ok('ㅏ'));
    assert_eq!(get_jongseong('닭'), Ok('ㄺ'));
    // 값: ㄱ + ㅏ + ㅄ
    assert_eq!(get_jongseong('값'), Ok('ㅄ'));
    // 뿌: ㅃ + ㅜ, no trailing consonant
    assert_eq!(get_choseong('뿌'), Ok('ㅃ'));
    assert_eq!(get_jungseong('뿌'), Ok('ㅜ'));
}
