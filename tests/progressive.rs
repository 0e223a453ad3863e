use raytracing::progressive::{Progress, ViewerAction, ViewerEvent};

#[test]
fn passes_then_one_report() {
    let mut p = Progress::new(2);
    assert_eq!(p.on_event(ViewerEvent::InputProcessed), ViewerAction::Render { samples: 1 });
    assert_eq!(p.on_event(ViewerEvent::InputProcessed), ViewerAction::Render { samples: 2 });
    assert_eq!(p.on_event(ViewerEvent::InputProcessed), ViewerAction::ReportFinished);
    assert_eq!(p.on_event(ViewerEvent::InputProcessed), ViewerAction::Wait);
    assert_eq!(p.samples, 2);
    assert!(p.reported);
}

#[test]
fn close_and_failure_exit() {
    let mut p = Progress::new(5);
    assert_eq!(p.on_event(ViewerEvent::CloseRequested), ViewerAction::Exit);
    assert_eq!(p.on_event(ViewerEvent::SurfaceFailed), ViewerAction::Exit);
    assert_eq!(p, Progress::new(5));
}

#[test]
fn no_passes_reports_at_once() {
    let mut p = Progress::new(0);
    assert_eq!(p.on_event(ViewerEvent::InputProcessed), ViewerAction::ReportFinished);
}
