use drag::payload::hdrop::{
    drop_files, file_list_buffer, get_hglobal, read_drop_files, read_list, DROPFILES_SIZE,
};
use drag::payload::uri_list::{file_uris, read_uris};
use drag::payload::utf16::{decode_wide, encode_wide};

fn strings(list: &[&str]) -> Vec<String> {
    list.iter().map(|s| s.to_string()).collect()
}

#[test]
fn utf16_of_plain_and_astral_characters() {
    assert_eq!(encode_wide("a.png"), vec![0x61, 0x2E, 0x70, 0x6E, 0x67]);
    assert_eq!(encode_wide("\u{e9}"), vec![0x00E9]);
    assert_eq!(encode_wide("\u{20AC}"), vec![0x20AC]);
    assert_eq!(encode_wide("\u{1F600}"), vec![0xD83D, 0xDE00]);
    assert_eq!(encode_wide("\u{10000}"), vec![0xD800, 0xDC00]);
    assert_eq!(encode_wide("\u{10FFFF}"), vec![0xDBFF, 0xDFFF]);
    assert_eq!(encode_wide("\u{FFFF}"), vec![0xFFFF]);
    assert_eq!(encode_wide(""), Vec::<u16>::new());
}

#[test]
fn utf16_agrees_with_the_standard_library() {
    for text in ["C:\\Users\\me\\file.txt", "/tmp/\u{4F60}\u{597D}/\u{1F4C1}", "\u{D7FF}\u{E000}"] {
        let expected: Vec<u16> = text.encode_utf16().collect();
        assert_eq!(encode_wide(text), expected);
        assert_eq!(decode_wide(&expected), Some(text.to_string()));
    }
}

#[test]
fn utf16_lone_surrogates_are_refused() {
    assert_eq!(decode_wide(&[0xD800]), None);
    assert_eq!(decode_wide(&[0xDC00]), None);
    assert_eq!(decode_wide(&[0x61, 0xD800, 0x62]), None);
    assert_eq!(decode_wide(&[0xDC00, 0xD800]), None);
    assert_eq!(decode_wide(&[0xD83D, 0xDE00]), Some("\u{1F600}".to_string()));
    assert_eq!(decode_wide(&[]), Some(String::new()));
}

#[test]
fn file_list_buffer_ends_with_double_nul() {
    let buffer = file_list_buffer(&strings(&["a", "bc"]));
    assert_eq!(buffer, vec![0x61, 0, 0x62, 0x63, 0, 0]);
    assert_eq!(file_list_buffer(&strings(&[])), vec![0]);
}

#[test]
fn drop_files_block_of_one_path() {
    let block = drop_files(&strings(&["C:\\a"])).unwrap();
    let mut expected = vec![20u8, 0, 0, 0, 0, 0, 0, 0, 0, 0, 0, 0, 0, 0, 0, 0, 1, 0, 0, 0];
    expected.extend_from_slice(&[b'C', 0, b':', 0, b'\\', 0, b'a', 0, 0, 0, 0, 0]);
    assert_eq!(block, expected);
    assert_eq!(block.len(), DROPFILES_SIZE + 2 * 6);
}

#[test]
fn drop_files_round_trip_keeps_paths_and_order() {
    let paths = strings(&["C:\\Users\\me\\one.txt", "D:\\\u{1F4C1}\\two.png"]);
    let block = drop_files(&paths).unwrap();
    assert_eq!(read_drop_files(&block), Some(paths.clone()));
    let reversed: Vec<String> = paths.iter().rev().cloned().collect();
    let block = drop_files(&reversed).unwrap();
    assert_eq!(read_drop_files(&block), Some(reversed));
    let none: Vec<String> = Vec::new();
    assert_eq!(read_drop_files(&drop_files(&none).unwrap()), Some(none));
}

#[test]
fn drop_files_reader_refuses_broken_blocks() {
    assert_eq!(read_drop_files(&[]), None);
    assert_eq!(read_drop_files(&[20, 0, 0, 0, 0, 0, 0, 0, 0, 0, 0, 0, 0, 0, 0, 0, 1, 0, 0]), None);
    let mut narrow = drop_files(&strings(&["C:\\a"])).unwrap();
    narrow[16] = 0;
    assert_eq!(read_drop_files(&narrow), None);
    let mut far = drop_files(&strings(&["C:\\a"])).unwrap();
    far[1] = 1;
    assert_eq!(read_drop_files(&far), None);
    let mut open = drop_files(&strings(&["C:\\a"])).unwrap();
    open.truncate(DROPFILES_SIZE + 8);
    assert_eq!(read_drop_files(&open), None);
    let mut header_only = drop_files(&strings(&[])).unwrap();
    header_only.truncate(DROPFILES_SIZE);
    assert_eq!(read_drop_files(&header_only), None);
}

#[test]
fn list_reader_stops_at_the_empty_name() {
    assert_eq!(read_list(&vec![0x61, 0, 0, 0x62, 0, 0]), Some(strings(&["a"])));
    assert_eq!(read_list(&vec![0]), Some(strings(&[])));
    assert_eq!(read_list(&vec![]), None);
    assert_eq!(read_list(&vec![0x61]), None);
    assert_eq!(read_list(&vec![0x61, 0]), None);
    assert_eq!(read_list(&vec![0xD800, 0, 0]), None);
}

#[test]
fn hglobal_block_has_header_list_and_padding() {
    let buffer = vec![0x0141u16, 0, 0];
    assert_eq!(get_hglobal(25, &buffer), None);
    assert_eq!(get_hglobal(0, &buffer), None);
    let exact = get_hglobal(26, &buffer).unwrap();
    assert_eq!(
        exact,
        vec![20, 0, 0, 0, 0, 0, 0, 0, 0, 0, 0, 0, 0, 0, 0, 0, 1, 0, 0, 0, 0x41, 0x01, 0, 0, 0, 0]
    );
    let padded = get_hglobal(29, &buffer).unwrap();
    assert_eq!(padded.len(), 29);
    assert_eq!(&padded[..26], &exact[..]);
    assert_eq!(&padded[26..], &[0, 0, 0]);
    assert_eq!(get_hglobal(20, &Vec::new()).unwrap().len(), 20);
}

#[test]
fn uri_list_of_paths() {
    let uris = file_uris(&strings(&["/tmp/a.png", "/home/me/b c.txt"]));
    assert_eq!(uris, strings(&["file:///tmp/a.png", "file:///home/me/b c.txt"]));
    assert_eq!(file_uris(&strings(&[])), strings(&[]));
}

#[test]
fn uri_list_round_trip_keeps_paths_and_order() {
    let paths = strings(&["/tmp/a.png", "/tmp/b.png"]);
    assert_eq!(read_uris(&file_uris(&paths)), Some(paths.clone()));
    let reversed = strings(&["/tmp/b.png", "/tmp/a.png"]);
    assert_eq!(read_uris(&file_uris(&reversed)), Some(reversed));
    assert_eq!(read_uris(&strings(&["file://"])), Some(strings(&[""])));
}

#[test]
fn uri_reader_refuses_other_schemes() {
    assert_eq!(read_uris(&strings(&["http://example.org/a"])), None);
    assert_eq!(read_uris(&strings(&["file:///a", "file:/b"])), None);
    assert_eq!(read_uris(&strings(&["file:/"])), None);
    assert_eq!(read_uris(&strings(&[""])), None);
}
