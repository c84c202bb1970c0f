use frame_bridge::extent::{full_transfer, Extent, Rect, Transfer};

#[test]
fn stretch_fills_destination_for_mismatched_aspect() {
    let source = Extent::new(1024, 1024);
    let destination = Extent::new(1920, 1080);
    let transfer = full_transfer(source, destination);
    assert_eq!(
        transfer,
        Transfer {
            source: Rect { x: 0, y: 0, width: 1024, height: 1024 },
            destination: Rect { x: 0, y: 0, width: 1920, height: 1080 },
            scaled: true,
        }
    );
    assert!(!source.has_same_aspect(&destination));
}

#[test]
fn equal_extents_are_copied_unscaled() {
    let extent = Extent::new(800, 600);
    let transfer = full_transfer(extent, extent);
    assert_eq!(transfer.source, transfer.destination);
    assert_eq!(transfer.destination, extent.full_rect());
    assert!(!transfer.scaled);
}

#[test]
fn destination_is_whole_whatever_the_source() {
    let destination = Extent::new(640, 480);
    let sources = vec![
        Extent::new(1, 1),
        Extent::new(640, 480),
        Extent::new(4096, 16),
        Extent::new(0, 0),
        Extent::new(u32::MAX, u32::MAX),
    ];
    for source in sources {
        let transfer = full_transfer(source, destination);
        assert_eq!(transfer.destination, Rect { x: 0, y: 0, width: 640, height: 480 });
        assert_eq!(transfer.source, Rect { x: 0, y: 0, width: source.width, height: source.height });
        assert_eq!(transfer.scaled, source != destination);
    }
}

#[test]
fn scaled_when_only_one_side_differs() {
    assert!(full_transfer(Extent::new(800, 600), Extent::new(800, 601)).scaled);
    assert!(full_transfer(Extent::new(800, 600), Extent::new(801, 600)).scaled);
}

#[test]
fn same_aspect_by_cross_product() {
    assert!(Extent::new(1920, 1080).has_same_aspect(&Extent::new(1280, 720)));
    assert!(Extent::new(16, 9).has_same_aspect(&Extent::new(3840, 2160)));
    assert!(!Extent::new(4, 3).has_same_aspect(&Extent::new(16, 9)));
}

#[test]
fn same_aspect_does_not_overflow() {
    let huge = Extent::new(u32::MAX, u32::MAX);
    assert!(huge.has_same_aspect(&Extent::new(1, 1)));
    assert!(!huge.has_same_aspect(&Extent::new(u32::MAX, u32::MAX - 1)));
}

#[test]
fn empty_extents() {
    assert!(Extent::new(0, 10).is_empty());
    assert!(Extent::new(10, 0).is_empty());
    assert!(Extent::new(0, 0).is_empty());
    assert!(!Extent::new(1, 1).is_empty());
}
