use std::path::{Path, PathBuf};
use string_conversions::from_path::{
    path_to_path_buf, path_to_str, path_to_string, path_to_string_lossy,
};
use string_conversions::from_path_buf::{path_buf_to_path, path_buf_to_str, path_buf_to_string};
use string_conversions::from_str::{
    str_to_path, str_to_path_buf, str_to_string, str_to_u8_array, str_to_u8_slice, str_to_u8_vec,
};
use string_conversions::from_string::{
    string_to_path, string_to_path_buf, string_to_str, string_to_u8_array, string_to_u8_vec,
};
use string_conversions::from_u8_slice::{
    u8_array_to_str, u8_array_to_string, u8_array_to_string_lossy, u8_slice_to_str,
    u8_slice_to_string, u8_slice_to_string_lossy, u8_slice_to_u8_vec,
};
use string_conversions::from_u8_vec::{u8_vec_to_str, u8_vec_to_string, u8_vec_to_u8_slice};

#[test]
fn from_str() {
    assert_eq!(str_to_string("h\u{e9}"), "h\u{e9}".to_string());
    assert_eq!(str_to_u8_slice("h\u{e9}"), &[0x68, 0xc3, 0xa9]);
    assert_eq!(str_to_u8_array("ab"), b"ab");
    assert_eq!(str_to_u8_vec("h\u{e9}"), vec![0x68, 0xc3, 0xa9]);
    assert_eq!(str_to_u8_vec(""), Vec::<u8>::new());
}

#[test]
fn from_string() {
    let s = "h\u{e9}".to_string();
    assert_eq!(string_to_str(&s), "h\u{e9}");
    assert_eq!(string_to_u8_array(&s), &[0x68, 0xc3, 0xa9]);
    assert_eq!(string_to_u8_vec(s), vec![0x68, 0xc3, 0xa9]);
}

#[test]
fn from_valid_bytes() {
    let bytes: &[u8] = &[0x68, 0xc3, 0xa9];
    assert_eq!(u8_slice_to_str(bytes), Ok("h\u{e9}"));
    assert_eq!(u8_array_to_str(bytes), Ok("h\u{e9}"));
    assert_eq!(u8_slice_to_string(bytes), Ok("h\u{e9}".to_string()));
    assert_eq!(u8_array_to_string(bytes), Ok("h\u{e9}".to_string()));
    assert_eq!(u8_slice_to_string_lossy(bytes), "h\u{e9}");
    assert_eq!(u8_array_to_string_lossy(bytes), "h\u{e9}");
    assert_eq!(u8_slice_to_u8_vec(bytes), bytes.to_vec());
    assert_eq!(u8_vec_to_str(&bytes.to_vec()), Ok("h\u{e9}"));
    assert_eq!(u8_vec_to_string(bytes.to_vec()), Ok("h\u{e9}".to_string()));
    assert_eq!(u8_vec_to_u8_slice(&bytes.to_vec()), bytes);
}

#[test]
fn from_invalid_bytes() {
    let bytes: &[u8] = &[0x68, 0xff, 0x69];
    assert!(u8_slice_to_str(bytes).is_err());
    assert!(u8_array_to_str(bytes).is_err());
    assert!(u8_slice_to_string(bytes).is_err());
    assert!(u8_array_to_string(bytes).is_err());
    assert!(u8_vec_to_str(&bytes.to_vec()).is_err());
    assert!(u8_vec_to_string(bytes.to_vec()).is_err());
    assert_eq!(u8_slice_to_string_lossy(bytes), "h\u{fffd}i");
    assert_eq!(u8_array_to_string_lossy(bytes), "h\u{fffd}i");
}

#[test]
fn between_text_and_paths() {
    assert_eq!(str_to_path("a/b.txt"), Path::new("a/b.txt"));
    assert_eq!(str_to_path_buf("a/b.txt"), PathBuf::from("a/b.txt"));
    assert_eq!(string_to_path(&"a/b.txt".to_string()), Path::new("a/b.txt"));
    assert_eq!(string_to_path_buf("a/b.txt".to_string()), PathBuf::from("a/b.txt"));
    assert_eq!(path_to_str(str_to_path("a/b.txt")), Some("a/b.txt"));
    assert_eq!(path_to_string(str_to_path("h\u{e9}")), Some("h\u{e9}".to_string()));
    assert_eq!(path_to_string_lossy(str_to_path("a/b.txt")), "a/b.txt");
    assert_eq!(path_to_path_buf(Path::new("a/b.txt")), PathBuf::from("a/b.txt"));
    assert_eq!(path_buf_to_path(&PathBuf::from("a/b.txt")), Path::new("a/b.txt"));
    assert_eq!(path_buf_to_str(&PathBuf::from("a/b.txt")), Some("a/b.txt"));
    assert_eq!(path_buf_to_string(PathBuf::from("")), Some(String::new()));
    assert_eq!(path_to_str(path_buf_to_path(&str_to_path_buf("x"))), Some("x"));
}

#[test]
fn the_error_marks_how_far_the_bytes_are_valid() {
    let bytes: &[u8] = &[0x61, 0xff];
    assert_eq!(u8_slice_to_str(bytes).unwrap_err().valid_up_to(), 1);
    assert_eq!(u8_array_to_str(bytes).unwrap_err().valid_up_to(), 1);
    assert_eq!(u8_vec_to_str(&bytes.to_vec()).unwrap_err().valid_up_to(), 1);
    let cut: &[u8] = &[0x68, 0xc3];
    let e = u8_slice_to_str(cut).unwrap_err();
    assert!(e.valid_up_to() < cut.len());
    assert!(std::str::from_utf8(&cut[..e.valid_up_to()]).is_ok());
    assert_eq!(u8_slice_to_str(&[0xff]).unwrap_err().valid_up_to(), 0);
}

#[test]
fn the_error_hands_the_bytes_back() {
    let bytes: &[u8] = &[0x61, 0xff];
    let e = u8_array_to_string(bytes).unwrap_err();
    assert_eq!(e.utf8_error().valid_up_to(), 1);
    assert_eq!(e.into_bytes(), vec![0x61, 0xff]);
    let e = u8_slice_to_string(bytes).unwrap_err();
    assert_eq!(e.as_bytes(), bytes);
    let e = u8_vec_to_string(vec![0x68, 0xc3]).unwrap_err();
    assert_eq!(e.utf8_error().valid_up_to(), 1);
    assert_eq!(e.into_bytes(), vec![0x68, 0xc3]);
}

#[test]
fn a_copy_of_a_path_holds_the_same_path() {
    let path = Path::new("dir/\u{e9}/file.txt");
    let copy = path_to_path_buf(path);
    assert_eq!(copy.as_path(), path);
    assert_eq!(path_buf_to_path(&copy), path);
    assert_eq!(copy.as_os_str(), path.as_os_str());
    assert_eq!(copy.as_os_str().as_encoded_bytes(), "dir/\u{e9}/file.txt".as_bytes());
    assert_eq!(str_to_path("a b").as_os_str().as_encoded_bytes(), b"a b");
    assert_eq!(string_to_path_buf("a b".to_string()).as_os_str().as_encoded_bytes(), b"a b");
}
