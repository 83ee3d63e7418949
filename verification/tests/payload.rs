use base64::engine::general_purpose::STANDARD;
use base64::Engine as _;
use directopt::payload::{
    data_file_upload, decode_upload, encode_file_content, template_upload, upload_bytes,
    upload_file_name, UploadPurpose,
};
use directopt::greeting::greet;

#[test]
fn decodes_standard_base64() {
    assert_eq!(decode_upload("aGVsbG8=", UploadPurpose::DataFile).unwrap(), b"hello".to_vec());
    assert_eq!(decode_upload("", UploadPurpose::DataFile).unwrap(), Vec::<u8>::new());
}

#[test]
fn decoding_failure_carries_the_decoder_message() {
    use_decoder_message("!!!");
    use_decoder_message("aGVsbG8");
    use_decoder_message("aGVsbG9=");
}

fn use_decoder_message(text: &str) {
    let detail = STANDARD.decode(text).unwrap_err().to_string();
    assert_eq!(decode_upload(text, UploadPurpose::InputFile).unwrap_err(), format!("输入文件数据解码失败: {detail}"));
}

#[test]
fn accepted_payloads_are_canonical_encodings() {
    for text in ["", "aGk=", "aGVsbG8=", "AAECAwQ="] {
        let bytes = decode_upload(text, UploadPurpose::DataFile).unwrap();
        assert_eq!(encode_file_content(&bytes), text);
    }
    let (_, bytes) = data_file_upload("x.bin", "aGVsbG8=", "result").unwrap();
    assert_eq!(encode_file_content(&bytes), "aGVsbG8=");
}

#[test]
fn upload_names_never_keep_a_separator() {
    for name in ["a/b/c.txt", "../../x", "/abs/y.xlsx", "dir/", "./z", "a/./b"] {
        let f = upload_file_name(name).unwrap();
        assert!(!f.is_empty() && !f.contains('/') && f != "." && f != "..", "{name} -> {f}");
    }
    assert_eq!(upload_file_name("dir/").unwrap(), "dir");
    assert_eq!(upload_file_name("a/./b").unwrap(), "b");
    let (f, _) = data_file_upload("../../etc/passwd", "aGk=", "input").unwrap();
    assert_eq!(f, "passwd");
}

#[test]
fn decoding_failure_names_the_payload() {
    let e = decode_upload("!!!", UploadPurpose::Template).unwrap_err();
    assert!(e.starts_with("模板数据解码失败: "), "{e}");
    let e = decode_upload("!!!", UploadPurpose::InputFile).unwrap_err();
    assert!(e.starts_with("输入文件数据解码失败: "), "{e}");
    let e = decode_upload("!!!", UploadPurpose::DataFile).unwrap_err();
    assert!(e.starts_with("文件数据解码失败: "), "{e}");
    assert!(e.len() > "文件数据解码失败: ".len());
}

#[test]
fn upload_bytes_prefixes_the_detail() {
    assert_eq!(upload_bytes(Err("bad".to_string()), UploadPurpose::Template).unwrap_err(), "模板数据解码失败: bad");
    assert_eq!(upload_bytes(Ok(vec![1, 2]), UploadPurpose::Template).unwrap(), vec![1, 2]);
}

#[test]
fn encoding_round_trips() {
    assert_eq!(encode_file_content(b"hello"), "aGVsbG8=");
    assert_eq!(encode_file_content(b""), "");
    let bytes: Vec<u8> = (0..=255).collect();
    let text = encode_file_content(&bytes);
    assert_eq!(decode_upload(&text, UploadPurpose::DataFile).unwrap(), bytes);
}

#[test]
fn upload_names_keep_only_the_last_component() {
    assert_eq!(upload_file_name("a.xlsx").unwrap(), "a.xlsx");
    assert_eq!(upload_file_name("dir/sub/a.xlsx").unwrap(), "a.xlsx");
    assert_eq!(upload_file_name("../../etc/passwd").unwrap(), "passwd");
    assert_eq!(upload_file_name("..").unwrap_err(), "非法的文件名");
    assert_eq!(upload_file_name("a/..").unwrap_err(), "非法的文件名");
    assert_eq!(upload_file_name("").unwrap_err(), "非法的文件名");
}

#[test]
fn template_upload_decodes_before_naming() {
    let e = template_upload("..", "!!!").unwrap_err();
    assert!(e.starts_with("模板数据解码失败: "));
    assert_eq!(template_upload("..", "aGk=").unwrap_err(), "非法的文件名");
    assert_eq!(template_upload("t/模板.xlsx", "aGk=").unwrap(), ("模板.xlsx".to_string(), b"hi".to_vec()));
}

#[test]
fn data_file_upload_checks_kind_then_payload_then_name() {
    assert_eq!(data_file_upload("..", "!!!", "nope").unwrap_err(), "非法的文件类别: nope");
    assert!(data_file_upload("..", "!!!", "curve").unwrap_err().starts_with("文件数据解码失败: "));
    assert_eq!(data_file_upload("..", "aGk=", "curve").unwrap_err(), "非法的文件名");
    assert_eq!(data_file_upload("c.xlsx", "aGk=", "curve").unwrap(), ("c.xlsx".to_string(), b"hi".to_vec()));
}

#[test]
fn greets_by_name() {
    assert_eq!(greet("Tauri"), "Hello, Tauri! You've been greeted from Rust!");
    assert_eq!(greet(""), "Hello, ! You've been greeted from Rust!");
}

#[test]
fn upload_names_follow_path_components() {
    for (name, expected) in [
        ("a/b/", Some("b")),
        ("a//b", Some("b")),
        ("./a", Some("a")),
        ("a/.", Some("a")),
        ("a/./", Some("a")),
        ("/x/y.z", Some("y.z")),
        ("a..b", Some("a..b")),
        ("/", None),
        (".", None),
        ("./", None),
        ("a/..", None),
        ("../", None),
        ("", None),
    ] {
        match expected {
            Some(f) => assert_eq!(upload_file_name(name).unwrap(), f, "{name}"),
            None => assert_eq!(upload_file_name(name).unwrap_err(), "非法的文件名", "{name}"),
        }
    }
}
