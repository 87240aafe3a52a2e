use library_loader::overlay::{overlay, pick_last};

#[test]
fn overlay_of_nothing_is_the_default() {
    assert_eq!(overlay(7u32, vec![]), 7);
    assert_eq!(overlay(7u32, vec![None, None, None]), 7);
}

#[test]
fn overlay_takes_the_highest_layer_that_is_present() {
    assert_eq!(overlay(0u32, vec![Some(1), Some(2), Some(3)]), 3);
    assert_eq!(overlay(0u32, vec![Some(1), Some(2), None]), 2);
    assert_eq!(overlay(0u32, vec![Some(1), None, None]), 1);
    assert_eq!(overlay(0u32, vec![None, Some(2), None]), 2);
}

#[test]
fn pick_last_without_default() {
    assert_eq!(pick_last::<u32>(vec![]), None);
    assert_eq!(pick_last::<u32>(vec![None, None]), None);
    assert_eq!(pick_last(vec![Some("low"), Some("high")]), Some("high"));
    assert_eq!(pick_last(vec![Some("low"), None]), Some("low"));
}

#[test]
fn overlay_works_on_strings() {
    let layers = vec![Some(String::from("file")), None];
    assert_eq!(overlay(String::from("default"), layers), "file");
}
