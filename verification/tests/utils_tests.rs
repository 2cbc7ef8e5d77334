use pixforge::utils::{
    change_extension, get_extension, has_potential_image_extension, is_svg_content,
};

#[test]
fn test_has_potential_image_extension() {
    assert!(has_potential_image_extension("test.png"));
    assert!(has_potential_image_extension("test.jpg"));
    assert!(has_potential_image_extension("test.JPEG"));
    assert!(!has_potential_image_extension("test.txt"));
    assert!(has_potential_image_extension("test"));
}

#[test]
fn test_change_extension() {
    assert_eq!(change_extension("image.png", "webp"), "image.webp");
    assert_eq!(change_extension("path/to/image.jpeg", "png"), "image.png");
}

#[test]
fn test_get_extension() {
    assert_eq!(get_extension("test.PNG"), "png");
    assert_eq!(get_extension("test.jpeg"), "jpeg");
    assert_eq!(get_extension("test"), "");
}

#[test]
fn test_is_svg_content() {
    assert!(is_svg_content("<?xml version=\"1.0\"?>"));
    assert!(is_svg_content("<svg xmlns=\"http://www.w3.org/2000/svg\">"));
    assert!(is_svg_content("<?XML version=\"1.0\"?>"));
    assert!(!is_svg_content("<html>"));
}

#[test]
fn test_get_extension_hidden_and_trailing_dot() {
    assert_eq!(get_extension(".bashrc"), "");
    assert_eq!(get_extension("dir.v2/file"), "");
    assert_eq!(get_extension("archive.tar.GZ"), "gz");
}

#[test]
fn test_change_extension_without_extension() {
    assert_eq!(change_extension("picture", "gif"), "picture.gif");
    assert_eq!(change_extension("", "gif"), "output.gif");
}
