use cargo_dockerize::image::{resolve_image, ImageReference};
use cargo_dockerize::manifest::PackageMetadata;

fn package() -> PackageMetadata {
    PackageMetadata { name: "svc".to_string(), version: "0.4.0".to_string() }
}

#[test]
fn image_defaults_to_package_name_and_version() {
    let img = resolve_image(None, None, &package());
    assert_eq!(img, ImageReference { name: "svc".to_string(), tag: "0.4.0".to_string() });
    assert_eq!(img.full_name(), "svc:0.4.0");
}

#[test]
fn overrides_replace_the_defaults() {
    let img = resolve_image(Some("registry/app".to_string()), Some("latest".to_string()), &package());
    assert_eq!(img.full_name(), "registry/app:latest");
}

#[test]
fn archive_is_named_after_name_and_tag() {
    let img = resolve_image(None, Some("1.2.3".to_string()), &package());
    assert_eq!(img.archive_name(), "svc-1.2.3.tgz");
}

#[test]
fn export_command_saves_and_compresses() {
    let img = ImageReference { name: "svc".to_string(), tag: "1.2.3".to_string() };
    assert_eq!(img.export_command(), "docker save svc:1.2.3 | gzip > svc-1.2.3.tgz");
}
