use isofetch::listing::{find_iso_in_listing, iso_download_target, ListingError, ISO_BASE_URL};

#[test]
fn finds_image_in_listing() {
    let html = "<html><a href=\"archlinux-2024.05.01-x86_64.iso\">archlinux-2024.05.01-x86_64.iso</a>\
                <a href=\"archlinux-x86_64.iso\">x</a></html>";
    let (name, url) = find_iso_in_listing(html).unwrap();
    assert_eq!(name, "archlinux-2024.05.01-x86_64.iso");
    assert_eq!(
        url,
        "https://fastly.mirror.pkgbuild.com/iso/latest/archlinux-2024.05.01-x86_64.iso"
    );
}

#[test]
fn listing_without_image() {
    let html = "<html><a href=\"archlinux-x86_64.iso\">x</a> archlinux-24.5.1-x86_64.iso</html>";
    assert_eq!(find_iso_in_listing(html), Err(ListingError::NotFound));
}

#[test]
fn target_from_name() {
    let (name, url) = iso_download_target(Some("a.iso".to_string())).unwrap();
    assert_eq!(name, "a.iso");
    assert_eq!(url, format!("{}a.iso", ISO_BASE_URL));
    assert_eq!(iso_download_target(None), Err(ListingError::NotFound));
}

#[test]
fn error_messages() {
    assert_eq!(
        ListingError::NotFound.message(),
        "Could not detect ISO filename in mirror listing"
    );
    assert_eq!(ListingError::Pattern.message(), "Invalid ISO file name pattern");
}
