use orion_core::flag_codec::{decode_flag_rle, FlagDecodeError};

#[test]
fn decodes_runs_to_rgb565_bytes() {
    let input = [
        3, 0, 0x34, 0x12, // three pixels
        1, 0, 0xcd, 0xab, // one pixel
    ];
    let mut output = [0; 8];
    decode_flag_rle(&input, &mut output).unwrap();
    assert_eq!(output, [0x34, 0x12, 0x34, 0x12, 0x34, 0x12, 0xcd, 0xab]);
}

#[test]
fn rejects_malformed_streams() {
    let mut output = [0; 2];
    assert_eq!(
        decode_flag_rle(&[1, 0, 0xaa], &mut output),
        Err(FlagDecodeError::TruncatedInput)
    );
    assert_eq!(
        decode_flag_rle(&[0, 0, 0xaa, 0xbb], &mut output),
        Err(FlagDecodeError::OutputOverflow)
    );
    assert_eq!(
        decode_flag_rle(&[2, 0, 0xaa, 0xbb], &mut output),
        Err(FlagDecodeError::OutputOverflow)
    );
}

#[test]
fn reports_trailing_and_truncated_output() {
    let mut output = [0; 2];
    assert_eq!(
        decode_flag_rle(&[1, 0, 0xaa, 0xbb, 1, 0, 0xcc, 0xdd], &mut output),
        Err(FlagDecodeError::TrailingInput)
    );
    assert_eq!(output, [0xaa, 0xbb]);
    let mut output = [0; 4];
    assert_eq!(
        decode_flag_rle(&[1, 0, 0xaa, 0xbb], &mut output),
        Err(FlagDecodeError::TruncatedOutput)
    );
    assert_eq!(output, [0xaa, 0xbb, 0, 0]);
}
