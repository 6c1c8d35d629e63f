use gif_that_for_you::ui::{
    default_fps_position, error_status, fps_for_selection, region_from_selection,
    source_types_for, stop_status, RecordMode,
};

#[test]
fn frame_rate_follows_the_drop_down() {
    let rates: Vec<u32> = (0..6).map(fps_for_selection).collect();
    assert_eq!(rates, vec![5, 10, 15, 20, 24, 30]);
    assert_eq!(fps_for_selection(6), 15);
    assert_eq!(fps_for_selection(u32::MAX), 15);
    assert_eq!(default_fps_position(), 2);
    assert_eq!(fps_for_selection(default_fps_position()), 15);
}

#[test]
fn modes_ask_for_their_source_types() {
    assert_eq!(source_types_for(RecordMode::Screen), 1);
    assert_eq!(source_types_for(RecordMode::Window), 2);
    assert_eq!(source_types_for(RecordMode::Region), 1);
}

#[test]
fn small_selections_are_dropped() {
    let r = region_from_selection(5, 6, 11, 12).unwrap();
    assert_eq!((r.x, r.y, r.width, r.height), (5, 6, 11, 12));
    assert!(region_from_selection(5, 6, 10, 100).is_none());
    assert!(region_from_selection(5, 6, 100, 10).is_none());
    assert!(region_from_selection(0, 0, -50, 100).is_none());
}

#[test]
fn status_lines() {
    assert_eq!(error_status("Not recording"), "Error: Not recording");
    assert_eq!(stop_status(&Ok("/home/ann/Pictures/recording-1.gif".to_string())), "Saved: /home/ann/Pictures/recording-1.gif");
    assert_eq!(stop_status(&Err("Not recording".to_string())), "Error: Not recording");
}
