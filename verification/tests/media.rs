use imageboard::media::{
    admit_filename, admits, is_allowed, StoredImage, IMAGE_UPLOAD_DIR, IMAGE_URL_PREFIX,
};

#[test]
fn allow_list_is_the_five_subtypes() {
    for subtype in ["jpeg", "jpg", "png", "gif", "webp"] {
        assert!(admits("image", subtype));
    }
    for subtype in ["bmp", "svg+xml", "tiff", "PNG", "", "png "] {
        assert!(!admits("image", subtype));
    }
}

#[test]
fn only_images_are_admitted() {
    assert!(!admits("application", "png"));
    assert!(!admits("text", "jpeg"));
    assert!(!admits("", "gif"));
    assert!(!admits("application", "octet-stream"));
}

#[test]
fn file_names_with_image_extensions_are_admitted() {
    assert_eq!(admit_filename("pic.png"), Some("png".to_string()));
    assert_eq!(admit_filename("pic.gif"), Some("gif".to_string()));
    assert_eq!(admit_filename("pic.webp"), Some("webp".to_string()));
    assert_eq!(admit_filename("pic.jpeg"), Some("jpeg".to_string()));
    assert_eq!(admit_filename("pic.jpg"), Some("jpeg".to_string()));
    assert_eq!(admit_filename("PIC.PNG"), Some("png".to_string()));
    assert_eq!(admit_filename("archive.tar.png"), Some("png".to_string()));
}

#[test]
fn other_file_names_are_refused() {
    assert_eq!(admit_filename("tool.exe"), None);
    assert_eq!(admit_filename("notes.txt"), None);
    assert_eq!(admit_filename("picture.bmp"), None);
    assert_eq!(admit_filename("drawing.svg"), None);
    assert_eq!(admit_filename("png"), None);
    assert_eq!(admit_filename("noextension"), None);
    assert_eq!(admit_filename(""), None);
    assert_eq!(admit_filename("pic.png.exe"), None);
}

#[test]
fn accepted_subtypes_are_told_from_others() {
    for subtype in ["jpeg", "jpg", "png", "gif", "webp"] {
        assert!(is_allowed(subtype));
    }
    for subtype in ["bmp", "JPEG", "", "pngx", "octet-stream", "svg+xml"] {
        assert!(!is_allowed(subtype));
    }
}

#[test]
fn stored_image_takes_accepted_subtypes_only() {
    assert!(StoredImage::new(1, "png").is_some());
    assert!(StoredImage::new(1, "jpg").is_some());
    assert!(StoredImage::new(1, "exe").is_none());
    assert!(StoredImage::new(1, "../png").is_none());
    assert!(StoredImage::new(1, "").is_none());
}

#[test]
fn stored_name_is_identifier_dot_subtype() {
    let image = StoredImage::new(0x67e55044_10b1_426f_9247_bb680e5fe0c8, "png").unwrap();
    assert_eq!(image.id(), 0x67e55044_10b1_426f_9247_bb680e5fe0c8);
    assert_eq!(image.subtype(), "png");
    assert_eq!(image.file_name(), "67e55044-10b1-426f-9247-bb680e5fe0c8.png");
    assert_eq!(image.disk_path(), "./uploads/images/67e55044-10b1-426f-9247-bb680e5fe0c8.png");
    assert_eq!(image.public_path(), "/uploads/images/67e55044-10b1-426f-9247-bb680e5fe0c8.png");
}

#[test]
fn identifier_text_is_lower_case_hex_with_hyphens() {
    let zero = StoredImage::new(0, "gif").unwrap();
    assert_eq!(zero.file_name(), "00000000-0000-0000-0000-000000000000.gif");
    let all = StoredImage::new(u128::MAX, "webp").unwrap();
    assert_eq!(all.file_name(), "ffffffff-ffff-ffff-ffff-ffffffffffff.webp");
    let mixed = StoredImage::new(0x0123456789abcdef_fedcba9876543210, "jpeg").unwrap();
    assert_eq!(mixed.file_name(), "01234567-89ab-cdef-fedc-ba9876543210.jpeg");
    let one = StoredImage::new(1, "jpg").unwrap();
    assert_eq!(one.file_name(), "00000000-0000-0000-0000-000000000001.jpg");
}

#[test]
fn directories_are_fixed() {
    assert_eq!(IMAGE_UPLOAD_DIR, "./uploads/images/");
    assert_eq!(IMAGE_URL_PREFIX, "/uploads/images/");
}
