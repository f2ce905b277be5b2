use hypergrab::error::CaptureError;
use hypergrab::executor::plan_capture;
use hypergrab::selector::{select, select_index, MonitorDescriptor};

#[test]
fn selector_prefers_origin_display() {
    let monitors = vec![
        MonitorDescriptor { x: 1920, y: 0 },
        MonitorDescriptor { x: 0, y: 0 },
    ];
    assert_eq!(select_index(&monitors), Some(1));
    assert_eq!(select(&monitors), Ok(MonitorDescriptor { x: 0, y: 0 }));
}

#[test]
fn selector_falls_back_to_first_display() {
    let monitors = vec![MonitorDescriptor { x: 5, y: 5 }];
    assert_eq!(select_index(&monitors), Some(0));
    assert_eq!(select(&monitors), Ok(MonitorDescriptor { x: 5, y: 5 }));
}

#[test]
fn selector_fails_on_empty_list() {
    let monitors: Vec<MonitorDescriptor> = Vec::new();
    assert_eq!(select_index(&monitors), None);
    assert_eq!(select(&monitors), Err(CaptureError::NoDisplayFound));
}

#[test]
fn plan_capture_targets_selected_display_and_free_name() {
    let monitors = vec![
        MonitorDescriptor { x: 1920, y: 0 },
        MonitorDescriptor { x: 0, y: 0 },
    ];
    let existing = vec!["TC_07.png".to_string()];
    let plan = plan_capture(&monitors, &existing, "/data", "TC-07").expect("displays exist");
    assert_eq!(plan.monitor_index, 1);
    assert_eq!(plan.file_name, "TC_07_1.png");
    assert_eq!(plan.output_path, "/data/TC_07_1.png");
}

#[test]
fn plan_capture_fails_without_displays() {
    let monitors: Vec<MonitorDescriptor> = Vec::new();
    let existing: Vec<String> = Vec::new();
    let r = plan_capture(&monitors, &existing, "/data", "TC-07");
    assert_eq!(r, Err(CaptureError::NoDisplayFound));
}

#[test]
fn error_messages_surface_the_reason() {
    assert_eq!(CaptureError::NoDisplayFound.message(), "No display found.");
    assert_eq!(
        CaptureError::EnumerationError("backend gone".to_string()).message(),
        "backend gone"
    );
    assert_eq!(
        CaptureError::GrabError("no permission".to_string()).message(),
        "no permission"
    );
    assert_eq!(
        CaptureError::EncodeError("disk full".to_string()).message(),
        "disk full"
    );
}
