use cortx_core::models::Platform;
use cortx_core::pump::{decode_line, LineFramer};
use cortx_core::spawn::{merged_environment, SpawnRequest};

fn lines_of(chunks: &[&[u8]]) -> (Vec<Vec<u8>>, Option<Vec<u8>>) {
    let mut framer = LineFramer::new();
    let mut lines = Vec::new();
    for chunk in chunks {
        lines.extend(framer.feed(chunk));
    }
    (lines, framer.finish())
}

#[test]
fn lines_are_cut_at_line_feeds() {
    let (lines, last) = lines_of(&[b"hello\nworld\r\n\npartial"]);
    assert_eq!(lines, vec![b"hello".to_vec(), b"world".to_vec(), b"".to_vec()]);
    assert_eq!(last, Some(b"partial".to_vec()));
    assert_eq!(lines_of(&[b"done\n"]), (vec![b"done".to_vec()], None));
    assert_eq!(lines_of(&[]), (vec![], None));
    assert_eq!(lines_of(&[b"a\r\r\nb\r"]), (vec![b"a\r".to_vec()], Some(b"b\r".to_vec())));
}

#[test]
fn framing_does_not_depend_on_the_chunks() {
    let whole: &[u8] = b"one\r\ntwo\nthree\n\nfour";
    let expected = lines_of(&[whole]);
    for cut in 0..=whole.len() {
        assert_eq!(lines_of(&[&whole[..cut], &whole[cut..]]), expected);
    }
    let bytes: Vec<&[u8]> = whole.chunks(1).collect();
    assert_eq!(lines_of(&bytes), expected);
    let (lines, last) = lines_of(&[b"x\r", b"\ny"]);
    assert_eq!((lines, last), (vec![b"x".to_vec()], Some(b"y".to_vec())));
}

#[test]
fn decoding_is_lenient() {
    assert_eq!(decode_line(&b"hello".to_vec()), "hello");
    assert_eq!(decode_line(&"héllo ✓".as_bytes().to_vec()), "héllo ✓");
    assert_eq!(decode_line(&vec![b'a', 0xff, b'b']), "a\u{fffd}b");
    assert_eq!(decode_line(&vec![0xe2, 0x82]), "\u{fffd}");
    assert_eq!(decode_line(&Vec::new()), "");
}

fn pairs(list: &[(&str, &str)]) -> Vec<(String, String)> {
    list.iter().map(|(k, v)| (k.to_string(), v.to_string())).collect()
}

#[test]
fn overrides_replace_ambient_variables_and_the_rest_is_inherited() {
    let request = SpawnRequest::new(
        Platform::Linux,
        "run".into(),
        vec![],
        "/".into(),
        Some(pairs(&[("PATH", "/custom"), ("NEW", "1"), ("NEW", "2")])),
    );
    let env = merged_environment(pairs(&[("HOME", "/home/me"), ("PATH", "/usr/bin"), ("LANG", "C")]), &request);
    assert_eq!(env, pairs(&[("HOME", "/home/me"), ("PATH", "/custom"), ("LANG", "C"), ("NEW", "2")]));

    let plain = SpawnRequest::new(Platform::Linux, "run".into(), vec![], "/".into(), None);
    assert_eq!(merged_environment(pairs(&[("A", "1")]), &plain), pairs(&[("A", "1")]));

    let windows = SpawnRequest::new(
        Platform::Windows,
        "run".into(),
        vec![],
        "C:\\".into(),
        Some(pairs(&[("PYTHONUTF8", "0")])),
    );
    let env = merged_environment(pairs(&[("PYTHONIOENCODING", "latin1")]), &windows);
    assert_eq!(env, pairs(&[("PYTHONIOENCODING", "utf-8"), ("PYTHONUTF8", "0")]));
}
