use vulkan_testing::util::constants::{
    ENGINE_NAME, MAX_FRAMES_IN_FLIGHT, SHADER_MAIN, VALIDATION_LAYER, WINDOW_HEIGHT, WINDOW_TITLE,
    WINDOW_WIDTH,
};
use vulkan_testing::util::string_from_utf8;

fn padded(name: &[u8]) -> [i8; 256] {
    let mut array = [0i8; 256];
    for (i, b) in name.iter().enumerate() {
        array[i] = *b as i8;
    }
    array
}

#[test]
fn name_is_read_up_to_its_padding() {
    let array = padded(b"VK_KHR_swapchain");
    assert_eq!(string_from_utf8(&array), Some(String::from("VK_KHR_swapchain")));
}

#[test]
fn array_of_nul_bytes_is_the_empty_name() {
    assert_eq!(string_from_utf8(&[0i8; 256]), Some(String::new()));
}

#[test]
fn nul_bytes_inside_a_name_are_dropped() {
    let mut array = [0i8; 256];
    array[0] = b'a' as i8;
    array[2] = b'b' as i8;
    array[255] = b'c' as i8;
    assert_eq!(string_from_utf8(&array), Some(String::from("abc")));
}

#[test]
fn array_without_padding_is_read_whole() {
    let array = [b'x' as i8; 256];
    let name = string_from_utf8(&array).unwrap();
    assert_eq!(name.len(), 256);
    assert!(name.bytes().all(|b| b == b'x'));
}

#[test]
fn bytes_above_127_are_read_as_unsigned() {
    let array = padded("Grafikgerät é".as_bytes());
    assert_eq!(string_from_utf8(&array), Some(String::from("Grafikgerät é")));
}

#[test]
fn bytes_that_are_no_utf8_give_no_name() {
    let array = padded(&[b'a', 0xff, b'b']);
    assert_eq!(string_from_utf8(&array), None);
    let array = padded(&[0xc3]);
    assert_eq!(string_from_utf8(&array), None);
}

#[test]
fn fixed_parameters_have_their_values() {
    assert_eq!(WINDOW_TITLE, "Vulkan Testing");
    assert_eq!(WINDOW_WIDTH, 800);
    assert_eq!(WINDOW_HEIGHT, 600);
    assert_eq!(ENGINE_NAME, "Vulkan Engine");
    assert_eq!(SHADER_MAIN, "main");
    assert_eq!(VALIDATION_LAYER, "VK_LAYER_KHRONOS_validation");
    assert_eq!(MAX_FRAMES_IN_FLIGHT, 2);
}
