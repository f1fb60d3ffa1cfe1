use cargo_dockerize::labels::{build_labels, LabelOptions};
use cargo_dockerize::image::ImageReference;
use cargo_dockerize::revision::{revision_from_output, RevisionLookup};

#[test]
fn failed_lookup_gives_unknown_label() {
    let lookup = revision_from_output(false, b"fatal: not a git repository\n".to_vec());
    assert_eq!(lookup, RevisionLookup::Unavailable);
    let revision = lookup.label_value();
    assert_eq!(revision, "unknown");
    let img = ImageReference { name: "svc".to_string(), tag: "1.2.3".to_string() };
    let labels = build_labels(&LabelOptions::default(), &img, &revision, "t");
    assert_eq!(labels[2].key, "org.opencontainers.image.revision");
    assert_eq!(labels[2].value, "unknown");
}

#[test]
fn successful_lookup_is_trimmed() {
    let lookup = revision_from_output(true, b"  0123abcd\n".to_vec());
    assert_eq!(lookup, RevisionLookup::Resolved("0123abcd".to_string()));
    assert_eq!(lookup.label_value(), "0123abcd");
}

#[test]
fn invalid_utf8_output_is_unavailable() {
    assert_eq!(revision_from_output(true, vec![0x66, 0xff, 0x0a]), RevisionLookup::Unavailable);
}

#[test]
fn empty_output_resolves_to_empty() {
    assert_eq!(revision_from_output(true, vec![]), RevisionLookup::Resolved(String::new()));
}

#[test]
fn non_ascii_output_is_decoded() {
    let lookup = revision_from_output(true, "r\u{e9}v\r\n".as_bytes().to_vec());
    assert_eq!(lookup.label_value(), "r\u{e9}v");
}
