use nova_gfx::images::Images;
use nova_gfx::resources::{Backing, Image, ImageId, ImageTeardown};
use nova_gfx::types::Size;

fn image(memory: u64, view: u64) -> Image {
    Image::from_raw(Backing::Allocated(memory), view, Size::new(2, 2))
}

#[test]
fn images_get_identifiers_in_order() {
    let mut images = Images::new();
    assert_eq!(images.len(), 0);
    assert!(images.has_room());
    assert_eq!(images.insert(image(10, 11)), ImageId(0));
    assert_eq!(images.insert(image(20, 21)), ImageId(1));
    assert_eq!(images.insert(image(30, 31)), ImageId(2));
    assert_eq!(images.len(), 3);
    assert_eq!(images.get(ImageId(1)).map(|image| image.as_backend()), Some(21));
    assert!(images.get(ImageId(3)).is_none());
}

#[test]
fn destroy_view_takes_the_image_out_once() {
    let mut images = Images::new();
    images.insert(image(10, 11));
    let second = images.insert(image(20, 21));
    images.insert(image(30, 31));
    assert_eq!(images.destroy_view(second), Some(21));
    assert_eq!(images.len(), 2);
    assert!(images.get(second).is_none());
    assert_eq!(images.destroy_view(second), None);
    assert_eq!(images.len(), 2);
    assert_eq!(images.get(ImageId(0)).map(|image| image.as_backend()), Some(11));
    assert_eq!(images.get(ImageId(2)).map(|image| image.as_backend()), Some(31));
}

#[test]
fn identifiers_are_not_given_out_again() {
    let mut images = Images::new();
    let first = images.insert(image(10, 11));
    assert_eq!(images.destroy_view(first), Some(11));
    assert_eq!(images.insert(image(20, 21)), ImageId(1));
    assert!(images.get(first).is_none());
    assert_eq!(images.destroy_view(ImageId(7)), None);
}

#[test]
fn destroy_all_empties_the_store() {
    let mut images = Images::new();
    images.insert(image(10, 11));
    images.insert(Image::from_raw(Backing::Swapchain(20), 21, Size::new(1, 1)));
    let mut gone = image(30, 31);
    gone.destroy();
    images.insert(gone);
    assert_eq!(
        images.destroy_all(),
        vec![
            ImageTeardown { view: Some(11), allocation: Some(10) },
            ImageTeardown { view: Some(21), allocation: None },
            ImageTeardown { view: None, allocation: None },
        ]
    );
    assert_eq!(images.len(), 0);
    assert!(images.destroy_all().is_empty());
    assert_eq!(images.insert(image(40, 41)), ImageId(3));
}

#[test]
fn a_full_store_has_no_room() {
    let images = Images { next: u64::MAX, entries: vec![] };
    assert!(!images.has_room());
}
