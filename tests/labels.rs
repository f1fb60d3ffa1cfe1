use cargo_dockerize::command::{add_label, image_build_args, project_build_args};
use cargo_dockerize::image::{resolve_image, tag_reference, ImageReference};
use cargo_dockerize::labels::{build_labels, build_labels_now, key_of, BuildLabel, LabelKind, LabelOptions};
use cargo_dockerize::manifest::PackageMetadata;

fn image(name: &str, tag: &str) -> ImageReference {
    ImageReference { name: name.to_string(), tag: tag.to_string() }
}

fn pairs(labels: &[BuildLabel]) -> Vec<(String, String)> {
    labels.iter().map(|l| (l.key.clone(), l.value.clone())).collect()
}

fn pair(k: &str, v: &str) -> (String, String) {
    (k.to_string(), v.to_string())
}

#[test]
fn labels_without_options_are_the_four_defaults() {
    let labels = build_labels(&LabelOptions::default(), &image("svc", "1.2.3"), "abc123", "2024-05-01T10:20:30Z");
    assert_eq!(
        pairs(&labels),
        vec![
            pair("org.opencontainers.image.created", "2024-05-01T10:20:30Z"),
            pair("org.opencontainers.image.version", "1.2.3"),
            pair("org.opencontainers.image.revision", "abc123"),
            pair("org.opencontainers.image.title", "svc"),
        ]
    );
}

#[test]
fn licenses_gives_exactly_one_label() {
    let options = LabelOptions { licenses: Some("MIT".to_string()), ..LabelOptions::default() };
    let labels = pairs(&build_labels(&options, &image("svc", "1.2.3"), "abc", "t"));
    let found: Vec<_> = labels.iter().filter(|l| l.0 == "org.opencontainers.image.licenses").collect();
    assert_eq!(found, vec![&pair("org.opencontainers.image.licenses", "MIT")]);
    assert_eq!(labels.len(), 5);
}

#[test]
fn no_licenses_label_when_omitted() {
    let labels = pairs(&build_labels(&LabelOptions::default(), &image("svc", "1.2.3"), "abc", "t"));
    assert!(labels.iter().all(|l| l.0 != "org.opencontainers.image.licenses"));
}

#[test]
fn every_option_in_order() {
    let options = LabelOptions {
        title: Some("Service".to_string()),
        description: Some("does things".to_string()),
        authors: Some("Ann <ann@example.com>".to_string()),
        url: Some("https://example.com".to_string()),
        source: Some("https://example.com/src".to_string()),
        vendor: Some("Example".to_string()),
        licenses: Some("MIT OR Apache-2.0".to_string()),
        application_name: Some("svc-app".to_string()),
    };
    let labels = pairs(&build_labels(&options, &image("svc", "2.0"), "deadbeef", "now"));
    assert_eq!(
        labels,
        vec![
            pair("org.opencontainers.image.created", "now"),
            pair("org.opencontainers.image.version", "2.0"),
            pair("org.opencontainers.image.revision", "deadbeef"),
            pair("org.opencontainers.image.title", "Service"),
            pair("org.opencontainers.image.description", "does things"),
            pair("org.opencontainers.image.authors", "Ann <ann@example.com>"),
            pair("org.opencontainers.image.url", "https://example.com"),
            pair("org.opencontainers.image.source", "https://example.com/src"),
            pair("org.opencontainers.image.vendor", "Example"),
            pair("org.opencontainers.image.licenses", "MIT OR Apache-2.0"),
            pair("application_name", "svc-app"),
        ]
    );
}

#[test]
fn label_values_pass_through_unchanged() {
    let options = LabelOptions { description: Some("a = b, \"c\"".to_string()), ..LabelOptions::default() };
    let labels = pairs(&build_labels(&options, &image("n", "t"), "", ""));
    assert_eq!(labels[4], pair("org.opencontainers.image.description", "a = b, \"c\""));
}

#[test]
fn labels_now_carry_a_timestamp() {
    let labels = build_labels_now(&LabelOptions::default(), &image("svc", "1.2.3"), "unknown")
        .expect("the clock reads after 1970");
    assert_eq!(labels.len(), 4);
    assert_eq!(labels[0].key, "org.opencontainers.image.created");
    let created = &labels[0].value;
    assert_eq!(created.len(), 20);
    assert!(created.ends_with('Z'));
    assert_eq!(&created[10..11], "T");
    assert_eq!(pairs(&labels[1..]), vec![
        pair("org.opencontainers.image.version", "1.2.3"),
        pair("org.opencontainers.image.revision", "unknown"),
        pair("org.opencontainers.image.title", "svc"),
    ]);
}

#[test]
fn label_keys() {
    assert_eq!(key_of(LabelKind::Licenses), "org.opencontainers.image.licenses");
    assert_eq!(key_of(LabelKind::ApplicationName), "application_name");
}

#[test]
fn add_label_appends_flag_and_pair() {
    let mut args = vec!["build".to_string()];
    add_label(&mut args, "org.opencontainers.image.version", "1.2.3");
    assert_eq!(args, vec!["build", "--label", "org.opencontainers.image.version=1.2.3"]);
}

#[test]
fn extra_tags_become_name_tag() {
    let package = PackageMetadata { name: "svc".to_string(), version: "0.9.0".to_string() };
    let img = resolve_image(None, Some("1.2.3".to_string()), &package);
    let labels = build_labels(&LabelOptions::default(), &img, "abc", "T0");
    let tags = vec!["beta".to_string(), "edge".to_string()];
    let args = image_build_args(&img, "Dockerfile", &tags, &labels);
    assert_eq!(
        args,
        vec![
            "build", "-t", "svc:1.2.3", "-f", "Dockerfile", "-t", "svc:beta", "-t", "svc:edge",
            "--label", "org.opencontainers.image.created=T0",
            "--label", "org.opencontainers.image.version=1.2.3",
            "--label", "org.opencontainers.image.revision=abc",
            "--label", "org.opencontainers.image.title=svc",
            ".",
        ]
    );
}

#[test]
fn image_build_without_extra_tags_or_labels() {
    let args = image_build_args(&image("a", "b"), "docker/Release.Dockerfile", &vec![], &vec![]);
    assert_eq!(args, vec!["build", "-t", "a:b", "-f", "docker/Release.Dockerfile", "."]);
}

#[test]
fn project_build_is_a_release_build() {
    assert_eq!(project_build_args(), vec!["build", "--release"]);
}

#[test]
fn tag_reference_joins_with_colon() {
    assert_eq!(tag_reference("svc", "edge"), "svc:edge");
}
