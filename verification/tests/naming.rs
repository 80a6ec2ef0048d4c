use capture_trigger::naming::{
    decimal_string, image_name, image_path, IMAGE_DIRECTORY, IMAGE_EXTENSION,
};

#[test]
fn first_image_is_named_one() {
    assert_eq!(image_name(1), "1.jpg");
    assert_eq!(image_path(1), "/home/pi/deepimage/1.jpg");
}

#[test]
fn names_are_not_padded() {
    assert_eq!(image_name(7), "7.jpg");
    assert_eq!(image_name(10), "10.jpg");
    assert_eq!(image_name(42), "42.jpg");
    assert_eq!(image_name(100), "100.jpg");
    assert_eq!(image_name(1005), "1005.jpg");
}

#[test]
fn path_joins_directory_index_and_extension() {
    assert_eq!(IMAGE_DIRECTORY, "/home/pi/deepimage");
    assert_eq!(IMAGE_EXTENSION, ".jpg");
    assert_eq!(image_path(305), "/home/pi/deepimage/305.jpg");
    assert_eq!(
        image_path(12),
        format!("{}/{}{}", IMAGE_DIRECTORY, 12, IMAGE_EXTENSION)
    );
}

#[test]
fn decimal_of_zero_is_a_single_zero() {
    assert_eq!(decimal_string(0), "0");
    assert_eq!(image_name(0), "0.jpg");
}

#[test]
fn decimal_writes_every_digit() {
    assert_eq!(decimal_string(9), "9");
    assert_eq!(decimal_string(10), "10");
    assert_eq!(decimal_string(1234567890), "1234567890");
    assert_eq!(decimal_string(9876543210), "9876543210");
}

#[test]
fn decimal_of_the_largest_number() {
    assert_eq!(decimal_string(u64::MAX), "18446744073709551615");
    assert_eq!(
        image_path(u64::MAX),
        "/home/pi/deepimage/18446744073709551615.jpg"
    );
}

#[test]
fn decimal_agrees_with_the_standard_formatting() {
    let mut n: u64 = 0;
    while n < 2000 {
        assert_eq!(decimal_string(n), format!("{}", n));
        n += 1;
    }
    let mut p: u64 = 1;
    while p < u64::MAX / 10 {
        assert_eq!(decimal_string(p), format!("{}", p));
        assert_eq!(decimal_string(p - 1), format!("{}", p - 1));
        assert_eq!(decimal_string(p + 1), format!("{}", p + 1));
        p *= 10;
    }
}

#[test]
fn decimal_reads_back() {
    for n in [0u64, 5, 17, 99, 100, 101, 65535, 4294967296, u64::MAX] {
        let text = decimal_string(n);
        assert_eq!(text.parse::<u64>().ok(), Some(n));
    }
}

#[test]
fn distinct_indices_give_distinct_paths() {
    let mut seen: Vec<String> = Vec::new();
    let mut n: u64 = 1;
    while n <= 300 {
        let path = image_path(n);
        assert!(!seen.contains(&path));
        seen.push(path);
        n += 1;
    }
    assert_ne!(image_path(1), image_path(10));
    assert_ne!(image_path(11), image_path(110));
}
