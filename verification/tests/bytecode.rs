use vulkan_testing::base::pipeline::{create_shader_module, create_shader_modules};
use vulkan_testing::error::Error;
use vulkan_testing::util::Bytecode;

#[test]
fn empty_blob_is_refused() {
    let r = Bytecode::from(&[]);
    assert_eq!(r.err(), Some(Error::InvalidBytecode { len: 0 }));
}

#[test]
fn blob_of_three_bytes_is_refused() {
    let r = Bytecode::from(&[1, 2, 3]);
    assert_eq!(r.err(), Some(Error::InvalidBytecode { len: 3 }));
}

#[test]
fn blob_of_five_bytes_is_refused() {
    let r = Bytecode::from(&[1, 2, 3, 4, 5]);
    assert_eq!(r.err(), Some(Error::InvalidBytecode { len: 5 }));
}

#[test]
fn one_word_is_read_least_significant_byte_first() {
    let code = Bytecode::from(&[0x03, 0x02, 0x23, 0x07]).unwrap();
    assert_eq!(code.code(), &[0x0723_0203u32]);
}

#[test]
fn words_keep_their_order() {
    let bytes: Vec<u8> = vec![1, 0, 0, 0, 0, 1, 0, 0, 0, 0, 1, 0, 0, 0, 0, 1, 0xff, 0xff, 0xff, 0xff];
    let code = Bytecode::from(&bytes).unwrap();
    assert_eq!(code.code(), &[1u32, 0x100, 0x1_0000, 0x100_0000, u32::MAX]);
}

#[test]
fn words_agree_with_the_native_reading_of_the_blob() {
    let bytes: Vec<u8> = (0..64u8).map(|b| b.wrapping_mul(37).wrapping_add(11)).collect();
    let code = Bytecode::from(&bytes).unwrap();
    let expected: Vec<u32> = bytes
        .chunks(4)
        .map(|c| u32::from_le_bytes([c[0], c[1], c[2], c[3]]))
        .collect();
    assert_eq!(code.code(), expected.as_slice());
    assert_eq!(code.code().len(), 16);
}

#[test]
fn shader_module_holds_the_words_of_its_blob() {
    let info = create_shader_module(&[0x78, 0x56, 0x34, 0x12, 1, 0, 0, 0]).unwrap();
    assert_eq!(info.code.code(), &[0x1234_5678u32, 1]);
}

#[test]
fn shader_module_of_a_malformed_blob_is_refused() {
    let r = create_shader_module(&[0; 6]);
    assert_eq!(r.err(), Some(Error::InvalidBytecode { len: 6 }));
}

#[test]
fn both_blobs_are_checked_before_either_module_is_described() {
    let good = [0u8; 8];
    let r = create_shader_modules(&good, &[0; 7]);
    assert_eq!(r.err(), Some(Error::InvalidBytecode { len: 7 }));
    let r = create_shader_modules(&[0; 2], &good);
    assert_eq!(r.err(), Some(Error::InvalidBytecode { len: 2 }));
    let r = create_shader_modules(&[], &[0; 9]);
    assert_eq!(r.err(), Some(Error::InvalidBytecode { len: 0 }));
}

#[test]
fn two_well_formed_blobs_give_two_modules() {
    let (vertex, fragment) = create_shader_modules(&[1, 0, 0, 0], &[2, 0, 0, 0, 3, 0, 0, 0]).unwrap();
    assert_eq!(vertex.code.code(), &[1u32]);
    assert_eq!(fragment.code.code(), &[2u32, 3]);
}
