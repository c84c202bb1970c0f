use frame_bridge::extent::Extent;
use frame_bridge::setup::{
    image_count, names_srgb, plan_output, select_queue_family, select_surface_format, OutputPlan,
    PlanError, QueueFamily, TextureSize, MIN_SWAPCHAIN_IMAGES,
};

fn family(transfer: bool, presents: bool) -> QueueFamily {
    QueueFamily { transfer, presents }
}

fn names(list: &[&str]) -> Vec<String> {
    list.iter().map(|s| s.to_string()).collect()
}

#[test]
fn first_fitting_queue_family_is_chosen() {
    let families = vec![
        family(true, false),
        family(false, true),
        family(true, true),
        family(true, true),
    ];
    assert_eq!(select_queue_family(&families), Some(2));
}

#[test]
fn no_queue_family_fits() {
    assert_eq!(select_queue_family(&vec![]), None);
    assert_eq!(
        select_queue_family(&vec![family(true, false), family(false, true), family(false, false)]),
        None
    );
}

#[test]
fn first_queue_family_may_fit() {
    assert_eq!(select_queue_family(&vec![family(true, true), family(true, true)]), Some(0));
}

#[test]
fn srgb_is_told_from_the_name() {
    assert!(names_srgb("B8G8R8A8_SRGB"));
    assert!(names_srgb("R8G8B8A8_SRGB"));
    assert!(names_srgb("SRGB"));
    assert!(names_srgb("xSRGBx"));
    assert!(names_srgb("SSRGB"));
    assert!(!names_srgb("B8G8R8A8_UNORM"));
    assert!(!names_srgb("SRG"));
    assert!(!names_srgb(""));
    assert!(!names_srgb("srgb"));
    assert!(!names_srgb("S_RGB"));
    assert!(!names_srgb("SRGA2B10G10R10"));
}

#[test]
fn srgb_in_names_that_are_not_ascii() {
    assert!(names_srgb("é_SRGB"));
    assert!(!names_srgb("ＳＲＧＢ"));
}

#[test]
fn first_srgb_format_is_chosen() {
    let offered = names(&["B8G8R8A8_UNORM", "B8G8R8A8_SRGB", "R8G8B8A8_SRGB"]);
    assert_eq!(select_surface_format(&offered), Some(1));
    assert_eq!(select_surface_format(&names(&["R16G16B16A16_SFLOAT"])), None);
    assert_eq!(select_surface_format(&names(&[])), None);
}

#[test]
fn swapchain_asks_for_two_images_at_least() {
    assert_eq!(MIN_SWAPCHAIN_IMAGES, 2);
    assert_eq!(image_count(0), 2);
    assert_eq!(image_count(1), 2);
    assert_eq!(image_count(2), 2);
    assert_eq!(image_count(3), 3);
    assert_eq!(image_count(u32::MAX), u32::MAX);
}

#[test]
fn plan_follows_the_window() {
    let offered = names(&["B8G8R8A8_UNORM", "B8G8R8A8_SRGB"]);
    let plan = plan_output(Extent::new(800, 600), 1, &offered);
    assert_eq!(
        plan,
        Ok(OutputPlan {
            format: 1,
            min_image_count: 2,
            surface_extent: Extent::new(800, 600),
            shared_size: TextureSize::Dim2D { width: 800, height: 600 },
        })
    );
    assert_eq!(plan.unwrap().shared_size.extent(), Extent::new(800, 600));
}

#[test]
fn plan_keeps_a_larger_image_count() {
    let plan = plan_output(Extent::new(1920, 1080), 4, &names(&["A_SRGB"])).unwrap();
    assert_eq!(plan.min_image_count, 4);
    assert_eq!(plan.format, 0);
}

#[test]
fn plan_needs_an_srgb_format() {
    let offered = names(&["B8G8R8A8_UNORM", "R16G16B16A16_SFLOAT"]);
    assert_eq!(plan_output(Extent::new(800, 600), 2, &offered), Err(PlanError::NoSrgbFormat));
    assert_eq!(plan_output(Extent::new(800, 600), 2, &names(&[])), Err(PlanError::NoSrgbFormat));
}
