use bardecoder::format::correct;

const CORRECT: [u8; 15] = [0, 0, 0, 1, 1, 1, 1, 0, 1, 0, 1, 1, 0, 0, 1];

#[test]
pub fn test_correct() {
    let input = CORRECT.to_vec();
    let input_to_check = input.clone();

    let output = correct(input);
    assert!(output.is_ok());
    assert_eq!(input_to_check, output.unwrap());
}

#[test]
pub fn test_fixable() {
    let input_orig = CORRECT.to_vec();
    let mut input_fixable = input_orig.clone();
    input_fixable[4] ^= 1;
    input_fixable[12] ^= 1;

    let output = correct(input_fixable);
    assert!(output.is_ok());
    assert_eq!(input_orig, output.unwrap());
}

#[test]
pub fn test_corrupt() {
    let input_orig = CORRECT.to_vec();
    let mut input_corrupt = input_orig;
    input_corrupt[4] ^= 1;
    input_corrupt[5] ^= 1;
    input_corrupt[6] ^= 1;
    input_corrupt[12] ^= 1;
    input_corrupt[13] ^= 1;

    let output = correct(input_corrupt);

    println!("{:?}", output);

    assert!(output.is_err());
}

#[test]
pub fn format_test_correct() {
    let input = CORRECT.to_vec();
    let input_to_check = input.clone();

    let output = correct(input);
    assert!(output.is_ok());
    assert_eq!(input_to_check, output.unwrap());
}

#[test]
pub fn format_test_fixable() {
    let input_orig = CORRECT.to_vec();
    let mut input_fixable = input_orig.clone();
    input_fixable[4] ^= 1;
    input_fixable[12] ^= 1;

    let output = correct(input_fixable);
    assert!(output.is_ok());
    assert_eq!(input_orig, output.unwrap());
}

#[test]
pub fn format_test_corrupt() {
    let input_orig = CORRECT.to_vec();
    let mut input_corrupt = input_orig;
    input_corrupt[4] ^= 1;
    input_corrupt[5] ^= 1;
    input_corrupt[6] ^= 1;
    input_corrupt[12] ^= 1;
    input_corrupt[13] ^= 1;

    let output = correct(input_corrupt);

    println!("{:?}", output);

    assert!(output.is_err());
}
